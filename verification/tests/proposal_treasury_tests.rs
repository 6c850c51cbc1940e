use fsm_governance_engine_lib::proposal::{TreasuryOperationData, TreasuryProposalType};
use fsm_governance_engine_lib::FsmError;

fn create_test_pubkey(seed: u8) -> u8 {
    seed
}

#[test]
fn test_treasury_operation_data_withdrawal() {
    let data = TreasuryOperationData::<u8> {
        operation_type: TreasuryProposalType::Withdrawal,
        amount: Some(1000),
        target_treasury: None,
        capability_grantee: None,
        capability_type: None,
        expires_at: None,
        description: "Withdraw for expenses".to_string(),
    };
    // Validation would require Clock, so skip in unit test
    assert_eq!(data.operation_type, TreasuryProposalType::Withdrawal);
    assert_eq!(data.amount, Some(1000));
}

#[test]
fn test_treasury_operation_data_transfer() {
    let target = 1u8; // Using u8 placeholder for Pubkey
    let data = TreasuryOperationData::<u8> {
        operation_type: TreasuryProposalType::Transfer,
        amount: Some(5000),
        target_treasury: Some(target),
        capability_grantee: None,
        capability_type: None,
        expires_at: None,
        description: "Transfer to secondary treasury".to_string(),
    };
    assert_eq!(data.operation_type, TreasuryProposalType::Transfer);
    assert_eq!(data.target_treasury, Some(target));
}

#[test]
fn test_treasury_operation_data_validate_withdrawal() {
    let data = TreasuryOperationData::<u8> {
        operation_type: TreasuryProposalType::Withdrawal,
        amount: Some(1000),
        target_treasury: None,
        capability_grantee: None,
        capability_type: None,
        expires_at: None,
        description: "Withdrawal description".to_string(),
    };
    assert!(data.validate(0).is_ok());

    let invalid_data = TreasuryOperationData::<u8> {
        operation_type: TreasuryProposalType::Withdrawal,
        amount: None, // Invalid
        target_treasury: None,
        capability_grantee: None,
        capability_type: None,
        expires_at: None,
        description: "Withdrawal description".to_string(),
    };
    assert_eq!(
        invalid_data.validate(0).unwrap_err(),
        FsmError::InvalidInput
    );
}

#[test]
fn test_treasury_operation_data_validate_transfer() {
    let target = create_test_pubkey(2);
    let data = TreasuryOperationData::<u8> {
        operation_type: TreasuryProposalType::Transfer,
        amount: Some(500),
        target_treasury: Some(target),
        capability_grantee: None,
        capability_type: None,
        expires_at: None,
        description: "Transfer description".to_string(),
    };
    assert!(data.validate(0).is_ok());

    let invalid_data_no_target = TreasuryOperationData::<u8> {
        operation_type: TreasuryProposalType::Transfer,
        amount: Some(500),
        target_treasury: None, // Invalid
        capability_grantee: None,
        capability_type: None,
        expires_at: None,
        description: "Transfer description".to_string(),
    };
    assert_eq!(
        invalid_data_no_target.validate(0).unwrap_err(),
        FsmError::InvalidInput
    );
}

#[test]
fn test_treasury_operation_data_validate_grant_capability() {
    let grantee = create_test_pubkey(3);
    let expires = 1000;
    let data = TreasuryOperationData::<u8> {
        operation_type: TreasuryProposalType::GrantCapability,
        amount: None,
        target_treasury: None,
        capability_grantee: Some(grantee),
        capability_type: Some("Admin".to_string()),
        expires_at: Some(expires),
        description: "Grant capability description".to_string(),
    };
    assert!(data.validate(expires - 1).is_ok()); // current_time < expires

    let invalid_data_expired = TreasuryOperationData::<u8> {
        operation_type: TreasuryProposalType::GrantCapability,
        amount: None,
        target_treasury: None,
        capability_grantee: Some(grantee),
        capability_type: Some("Admin".to_string()),
        expires_at: Some(expires),
        description: "Grant capability description".to_string(),
    };
    assert_eq!(
        invalid_data_expired.validate(expires + 1).unwrap_err(),
        FsmError::InvalidInput
    );
}

#[test]
fn test_treasury_operation_data_validate_revoke_capability() {
    let grantee = create_test_pubkey(4);
    let data = TreasuryOperationData::<u8> {
        operation_type: TreasuryProposalType::RevokeCapability,
        amount: None,
        target_treasury: None,
        capability_grantee: Some(grantee),
        capability_type: None,
        expires_at: None,
        description: "Revoke capability description".to_string(),
    };
    assert!(data.validate(0).is_ok());

    let invalid_data_no_grantee = TreasuryOperationData::<u8> {
        operation_type: TreasuryProposalType::RevokeCapability,
        amount: None,
        target_treasury: None,
        capability_grantee: None, // Invalid
        capability_type: None,
        expires_at: None,
        description: "Revoke capability description".to_string(),
    };
    assert_eq!(
        invalid_data_no_grantee.validate(0).unwrap_err(),
        FsmError::InvalidInput
    );
}

#[test]
fn test_treasury_operation_data_validate_description_empty() {
    let data = TreasuryOperationData::<u8> {
        operation_type: TreasuryProposalType::Withdrawal,
        amount: Some(100),
        target_treasury: None,
        capability_grantee: None,
        capability_type: None,
        expires_at: None,
        description: "".to_string(), // Invalid
    };
    assert_eq!(data.validate(0).unwrap_err(), FsmError::InvalidInput);
}
