use fsm_governance_engine_lib::grant::{GrantVote, VoterType};

#[test]
fn weights() {
    assert_eq!(GrantVote::calculate_weight(VoterType::MeshGroupMember), 2);
    assert_eq!(GrantVote::calculate_weight(VoterType::DaoMember), 1);
}

#[test]
fn final_weight() {
    assert_eq!(GrantVote::calculate_final_weight(2, 3), 6);
    assert_eq!(GrantVote::calculate_final_weight(1, 5), 5);
}


#[test]
fn final_weight_saturates_at_maximum() {
    assert_eq!(GrantVote::calculate_final_weight(u64::MAX, 2), u64::MAX);
    assert_eq!(GrantVote::calculate_final_weight(u64::MAX, 1), u64::MAX);
}
