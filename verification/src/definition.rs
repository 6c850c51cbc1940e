//! Declarative state-machine definitions and their validation.
//!
//! A definition lists states, transitions and optional global invariants as
//! plain data. Validation checks structural well-formedness first (every
//! transition names declared states and carries an action), then evaluates
//! each invariant against the transition graph.

use vstd::prelude::*;

use crate::error::FsmError;
use crate::text::{check_trimmed_empty, trimmed_empty};

verus! {

/// A declarative state-machine definition.
#[derive(Clone, Debug, PartialEq, Eq)]
pub struct FsmDefinition {
    pub states: Vec<String>,
    pub transitions: Vec<FsmTransition>,
    pub defaults: Option<FsmDefaults>,
    pub invariants: Vec<FsmInvariant>,
}

/// Optional defaults of a definition.
#[derive(Clone, Debug, PartialEq, Eq)]
pub struct FsmDefaults {
    pub initial_state: Option<String>,
}

/// One transition rule of a definition. The guard and the metadata are
/// recorded but not interpreted by validation.
#[derive(Clone, Debug, PartialEq, Eq)]
pub struct FsmTransition {
    pub from: String,
    pub to: String,
    pub action: String,
    pub guard: Option<String>,
    pub metadata: Option<FsmTransitionMetadata>,
}

/// Free-form metadata attached to a transition.
#[derive(Clone, Debug, PartialEq, Eq)]
pub struct FsmTransitionMetadata {
    pub description: Option<String>,
    pub roles: Vec<String>,
}

/// One global invariant of a definition, tagged by kind.
#[derive(Clone, Debug, PartialEq, Eq)]
pub struct FsmInvariant {
    pub kind: String,
    pub states: Vec<String>,
    pub transitions: Vec<FsmTransitionRef>,
    pub description: Option<String>,
}

/// A (from, to) pair referring to a transition.
#[derive(Clone, Debug, PartialEq, Eq)]
pub struct FsmTransitionRef {
    pub from: String,
    pub to: String,
}

/// The abstract content of a transition that validation reads: its labels
/// and its action text.
pub ghost struct AbsTransition {
    pub from: Seq<char>,
    pub to: Seq<char>,
    pub action: Seq<char>,
}

/// The abstract content of an invariant that validation reads.
pub ghost struct AbsInvariant {
    pub kind: Seq<char>,
    pub states: Seq<Seq<char>>,
    pub pairs: Seq<(Seq<char>, Seq<char>)>,
}

/// The abstract content of a definition that validation reads. Guards,
/// metadata and descriptions are free-form and play no part in validation,
/// so they do not appear here.
pub ghost struct AbsDefinition {
    pub states: Seq<Seq<char>>,
    pub transitions: Seq<AbsTransition>,
    pub initial_state: Option<Seq<char>>,
    pub invariants: Seq<AbsInvariant>,
}

/// The label texts of a list of labels.
pub open spec fn label_views(labels: Seq<String>) -> Seq<Seq<char>> {
    labels.map_values(|s: String| s@)
}

/// The abstract contents of a list of transitions.
pub open spec fn abs_transitions(transitions: Seq<FsmTransition>) -> Seq<AbsTransition> {
    transitions.map_values(|t: FsmTransition| t@)
}

/// The abstract contents of a list of transition references.
pub open spec fn abs_pairs(pairs: Seq<FsmTransitionRef>) -> Seq<(Seq<char>, Seq<char>)> {
    pairs.map_values(|t: FsmTransitionRef| (t.from@, t.to@))
}

/// The abstract contents of a list of invariants.
pub open spec fn abs_invariants(invariants: Seq<FsmInvariant>) -> Seq<AbsInvariant> {
    invariants.map_values(|i: FsmInvariant| i@)
}

impl View for FsmTransition {
    type V = AbsTransition;

    open spec fn view(&self) -> AbsTransition {
        AbsTransition { from: self.from@, to: self.to@, action: self.action@ }
    }
}

impl View for FsmInvariant {
    type V = AbsInvariant;

    open spec fn view(&self) -> AbsInvariant {
        AbsInvariant {
            kind: self.kind@,
            states: label_views(self.states@),
            pairs: abs_pairs(self.transitions@),
        }
    }
}

impl View for FsmDefinition {
    type V = AbsDefinition;

    open spec fn view(&self) -> AbsDefinition {
        AbsDefinition {
            states: label_views(self.states@),
            transitions: abs_transitions(self.transitions@),
            initial_state: (match self.defaults {
                Option::Some(d) => match d.initial_state {
                    Option::Some(s) => Option::Some(s@),
                    Option::None => Option::None,
                },
                Option::None => Option::None,
            }),
            invariants: abs_invariants(self.invariants@),
        }
    }
}

/// One transition entry is structurally sound when none of its three texts
/// trims to nothing and both its labels are declared states.
pub open spec fn transition_entry_ok(d: AbsDefinition, t: AbsTransition) -> bool {
    !trimmed_empty(t.from) && !trimmed_empty(t.to) && !trimmed_empty(t.action)
        && d.states.contains(t.from) && d.states.contains(t.to)
}

/// A definition is structurally sound when it declares at least one state
/// and one transition, every transition entry is sound, and the default
/// initial state, where given, is a declared state.
pub open spec fn structure_ok(d: AbsDefinition) -> bool {
    d.states.len() > 0 && d.transitions.len() > 0 && (forall|i: int|
        0 <= i < d.transitions.len() ==> transition_entry_ok(d, d.transitions[i])) && (match d
        .initial_state {
        Option::Some(s) => d.states.contains(s),
        Option::None => true,
    })
}

/// Check whether a list of labels contains a given label.
fn contains_label(labels: &Vec<String>, target: &String) -> (r: bool)
    ensures
        r == label_views(labels@).contains(target@),
{
    let ghost views = label_views(labels@);
    let mut i: usize = 0;
    while i < labels.len()
        invariant
            i <= labels@.len(),
            views == label_views(labels@),
            forall|j: int| 0 <= j < i ==> views[j] != target@,
        decreases labels@.len() - i,
    {
        if labels[i] == *target {
            assert(views[i as int] == target@);
            return true;
        }
        i = i + 1;
    }
    false
}

impl FsmDefinition {
    /// Check structural well-formedness: non-empty state and transition
    /// lists, no transition text that trims to nothing, no undeclared
    /// label, and a declared default initial state where one is given.
    pub fn validate_structure(&self) -> (r: Result<(), FsmError>)
        ensures
            r == (if structure_ok(self@) {
                Ok::<(), FsmError>(())
            } else {
                Err::<(), FsmError>(FsmError::InvalidInput)
            }),
    {
        if self.states.len() == 0 || self.transitions.len() == 0 {
            return Err(FsmError::InvalidInput);
        }
        let mut i: usize = 0;
        while i < self.transitions.len()
            invariant
                i <= self.transitions@.len(),
                forall|j: int|
                    0 <= j < i ==> transition_entry_ok(self@, self@.transitions[j]),
            decreases self.transitions@.len() - i,
        {
            let transition = &self.transitions[i];
            assert(self@.transitions[i as int] == transition@);
            if check_trimmed_empty(transition.from.as_str()) || check_trimmed_empty(
                transition.to.as_str(),
            ) || check_trimmed_empty(transition.action.as_str()) {
                return Err(FsmError::InvalidInput);
            }
            if !contains_label(&self.states, &transition.from) || !contains_label(
                &self.states,
                &transition.to,
            ) {
                return Err(FsmError::InvalidInput);
            }
            i = i + 1;
        }
        if let Some(defaults) = &self.defaults {
            if let Some(initial_state) = &defaults.initial_state {
                if !contains_label(&self.states, initial_state) {
                    return Err(FsmError::InvalidInput);
                }
            }
        }
        Ok(())
    }
}

/// There is a transition from `a` to `b`.
pub open spec fn edge(ts: Seq<AbsTransition>, a: Seq<char>, b: Seq<char>) -> bool {
    exists|i: int| 0 <= i < ts.len() && ts[i].from == a && ts[i].to == b
}

/// There is a transition out of `a`.
pub open spec fn outgoing(ts: Seq<AbsTransition>, a: Seq<char>) -> bool {
    exists|i: int| 0 <= i < ts.len() && ts[i].from == a
}

/// `p` walks the transition graph: it visits at least two states and each
/// adjacent pair of them is connected by a transition.
pub open spec fn path_ok(ts: Seq<AbsTransition>, p: Seq<Seq<char>>) -> bool {
    p.len() >= 2 && forall|i: int| 0 <= i < p.len() - 1 ==> edge(ts, #[trigger] p[i], p[i + 1])
}

/// State `b` can be reached from state `a` in one or more steps.
pub open spec fn reaches(ts: Seq<AbsTransition>, a: Seq<char>, b: Seq<char>) -> bool {
    exists|p: Seq<Seq<char>>| path_ok(ts, p) && p.first() == a && p.last() == b
}

/// A cycle through `s` exists: `s` can be reached back from itself in one
/// or more steps.
pub open spec fn has_cycle_through(ts: Seq<AbsTransition>, s: Seq<char>) -> bool {
    reaches(ts, s, s)
}

/// A `terminal_states` invariant holds when none of the named states has
/// an outgoing transition.
pub open spec fn terminal_ok(ts: Seq<AbsTransition>, states: Seq<Seq<char>>) -> bool {
    forall|i: int| 0 <= i < states.len() ==> !outgoing(ts, states[i])
}

/// A `required_transitions` invariant holds when every listed pair is a
/// transition of the definition.
pub open spec fn required_ok(ts: Seq<AbsTransition>, pairs: Seq<(Seq<char>, Seq<char>)>) -> bool {
    forall|i: int| 0 <= i < pairs.len() ==> edge(ts, pairs[i].0, pairs[i].1)
}

/// A `forbidden_transitions` invariant holds when no listed pair is a
/// transition of the definition.
pub open spec fn forbidden_ok(ts: Seq<AbsTransition>, pairs: Seq<(Seq<char>, Seq<char>)>) -> bool {
    forall|i: int| 0 <= i < pairs.len() ==> !edge(ts, pairs[i].0, pairs[i].1)
}

/// A `forbidden_cycles` invariant holds when no cycle passes through any
/// of the named states. A cycle elsewhere in the graph that avoids all the
/// named states is not reported.
pub open spec fn cycles_ok(ts: Seq<AbsTransition>, states: Seq<Seq<char>>) -> bool {
    forall|i: int| 0 <= i < states.len() ==> !has_cycle_through(ts, states[i])
}

/// A `self_transitions_required` invariant holds when each checked state
/// has a literal transition to itself.
pub open spec fn self_required_ok(ts: Seq<AbsTransition>, states: Seq<Seq<char>>) -> bool {
    forall|i: int| 0 <= i < states.len() ==> edge(ts, states[i], states[i])
}

/// Whether one invariant holds of a definition. An invariant with an
/// unknown kind never holds: it is itself a validation error. A
/// `self_transitions_required` invariant with an empty state list checks
/// every declared state.
pub open spec fn invariant_holds(d: AbsDefinition, inv: AbsInvariant) -> bool {
    if inv.kind == "terminal_states"@ {
        terminal_ok(d.transitions, inv.states)
    } else if inv.kind == "required_transitions"@ {
        required_ok(d.transitions, inv.pairs)
    } else if inv.kind == "forbidden_transitions"@ {
        forbidden_ok(d.transitions, inv.pairs)
    } else if inv.kind == "forbidden_cycles"@ {
        cycles_ok(d.transitions, inv.states)
    } else if inv.kind == "self_transitions_required"@ {
        self_required_ok(
            d.transitions,
            if inv.states.len() == 0 {
                d.states
            } else {
                inv.states
            },
        )
    } else {
        false
    }
}

/// Whether every invariant of a definition holds.
pub open spec fn invariants_ok(d: AbsDefinition) -> bool {
    forall|i: int| 0 <= i < d.invariants.len() ==> invariant_holds(d, d.invariants[i])
}

/// A definition is valid when it is structurally sound and every one of
/// its invariants holds.
pub open spec fn definition_ok(d: AbsDefinition) -> bool {
    structure_ok(d) && invariants_ok(d)
}

/// Check whether the transition list holds an edge from `from` to `to`.
fn has_edge_exec(transitions: &Vec<FsmTransition>, from: &String, to: &String) -> (r: bool)
    ensures
        r == edge(abs_transitions(transitions@), from@, to@),
{
    let ghost ats = abs_transitions(transitions@);
    let mut i: usize = 0;
    while i < transitions.len()
        invariant
            i <= transitions@.len(),
            ats == abs_transitions(transitions@),
            forall|j: int| 0 <= j < i ==> !(ats[j].from == from@ && ats[j].to == to@),
        decreases transitions@.len() - i,
    {
        let t = &transitions[i];
        assert(ats[i as int] == t@);
        if t.from == *from && t.to == *to {
            return true;
        }
        i = i + 1;
    }
    false
}

/// Check whether the transition list holds any edge out of `state`.
fn has_outgoing_exec(transitions: &Vec<FsmTransition>, state: &String) -> (r: bool)
    ensures
        r == outgoing(abs_transitions(transitions@), state@),
{
    let ghost ats = abs_transitions(transitions@);
    let mut i: usize = 0;
    while i < transitions.len()
        invariant
            i <= transitions@.len(),
            ats == abs_transitions(transitions@),
            forall|j: int| 0 <= j < i ==> ats[j].from != state@,
        decreases transitions@.len() - i,
    {
        let t = &transitions[i];
        assert(ats[i as int] == t@);
        if t.from == *state {
            return true;
        }
        i = i + 1;
    }
    false
}

/// Check a `terminal_states` invariant: none of the named states may have
/// an outgoing transition.
fn check_terminal(transitions: &Vec<FsmTransition>, states: &Vec<String>) -> (r: bool)
    ensures
        r == terminal_ok(abs_transitions(transitions@), label_views(states@)),
{
    let ghost views = label_views(states@);
    let mut i: usize = 0;
    while i < states.len()
        invariant
            i <= states@.len(),
            views == label_views(states@),
            forall|j: int| 0 <= j < i ==> !outgoing(abs_transitions(transitions@), views[j]),
        decreases states@.len() - i,
    {
        assert(views[i as int] == states@[i as int]@);
        if has_outgoing_exec(transitions, &states[i]) {
            return false;
        }
        i = i + 1;
    }
    true
}

/// Check a `required_transitions` invariant: every listed pair must be a
/// transition.
fn check_required(transitions: &Vec<FsmTransition>, pairs: &Vec<FsmTransitionRef>) -> (r: bool)
    ensures
        r == required_ok(abs_transitions(transitions@), abs_pairs(pairs@)),
{
    let ghost views = abs_pairs(pairs@);
    let mut i: usize = 0;
    while i < pairs.len()
        invariant
            i <= pairs@.len(),
            views == abs_pairs(pairs@),
            forall|j: int|
                0 <= j < i ==> edge(abs_transitions(transitions@), views[j].0, views[j].1),
        decreases pairs@.len() - i,
    {
        let pair = &pairs[i];
        assert(views[i as int] == (pair.from@, pair.to@));
        if !has_edge_exec(transitions, &pair.from, &pair.to) {
            return false;
        }
        i = i + 1;
    }
    true
}

/// Check a `forbidden_transitions` invariant: no listed pair may be a
/// transition.
fn check_forbidden(transitions: &Vec<FsmTransition>, pairs: &Vec<FsmTransitionRef>) -> (r: bool)
    ensures
        r == forbidden_ok(abs_transitions(transitions@), abs_pairs(pairs@)),
{
    let ghost views = abs_pairs(pairs@);
    let mut i: usize = 0;
    while i < pairs.len()
        invariant
            i <= pairs@.len(),
            views == abs_pairs(pairs@),
            forall|j: int|
                0 <= j < i ==> !edge(abs_transitions(transitions@), views[j].0, views[j].1),
        decreases pairs@.len() - i,
    {
        let pair = &pairs[i];
        assert(views[i as int] == (pair.from@, pair.to@));
        if has_edge_exec(transitions, &pair.from, &pair.to) {
            return false;
        }
        i = i + 1;
    }
    true
}

/// Check a `self_transitions_required` invariant against a resolved state
/// list: each state must have a literal self-transition.
fn check_self_required(transitions: &Vec<FsmTransition>, states: &Vec<String>) -> (r: bool)
    ensures
        r == self_required_ok(abs_transitions(transitions@), label_views(states@)),
{
    let ghost views = label_views(states@);
    let mut i: usize = 0;
    while i < states.len()
        invariant
            i <= states@.len(),
            views == label_views(states@),
            forall|j: int| 0 <= j < i ==> edge(abs_transitions(transitions@), views[j], views[j]),
        decreases states@.len() - i,
    {
        assert(views[i as int] == states@[i as int]@);
        if !has_edge_exec(transitions, &states[i], &states[i]) {
            return false;
        }
        i = i + 1;
    }
    true
}

/// The destination labels of a transition list.
pub open spec fn to_labels(ts: Seq<AbsTransition>) -> Seq<Seq<char>> {
    ts.map_values(|t: AbsTransition| t.to)
}

/// A single edge gives a two-state path, so it witnesses reachability.
proof fn lemma_reach_base(ts: Seq<AbsTransition>, a: Seq<char>, b: Seq<char>)
    requires
        edge(ts, a, b),
    ensures
        reaches(ts, a, b),
{
    let p = seq![a, b];
    assert(forall|i: int| 0 <= i < p.len() - 1 ==> edge(ts, #[trigger] p[i], p[i + 1])) by {
        assert(p[0] == a && p[1] == b);
    }
    assert(path_ok(ts, p) && p.first() == a && p.last() == b);
}

/// Reachability extends along an edge: a path to `b` followed by a
/// transition from `b` to `c` is a path to `c`.
proof fn lemma_reach_step(ts: Seq<AbsTransition>, a: Seq<char>, b: Seq<char>, c: Seq<char>)
    requires
        reaches(ts, a, b),
        edge(ts, b, c),
    ensures
        reaches(ts, a, c),
{
    let p = choose|p: Seq<Seq<char>>| path_ok(ts, p) && p.first() == a && p.last() == b;
    let q = p.push(c);
    assert(forall|i: int| 0 <= i < q.len() - 1 ==> edge(ts, #[trigger] q[i], q[i + 1])) by {
        assert forall|i: int| 0 <= i < q.len() - 1 implies edge(ts, #[trigger] q[i], q[i + 1]) by {
            if i < p.len() - 1 {
                assert(q[i] == p[i] && q[i + 1] == p[i + 1]);
                assert(edge(ts, p[i], p[i + 1]));
            } else {
                assert(i == p.len() - 1);
                assert(q[i] == p[p.len() - 1] && q[i + 1] == c);
                assert(p[p.len() - 1] == p.last());
            }
        }
    }
    assert(path_ok(ts, q) && q.first() == a && q.last() == c);
}

/// A visited set that is closed under successors confines every walk that
/// starts at `s0`: from the second state on, a path stays inside `vis` and
/// never returns to `s0`.
proof fn lemma_path_confined(
    ts: Seq<AbsTransition>,
    s0: Seq<char>,
    vis: Seq<Seq<char>>,
    p: Seq<Seq<char>>,
    i: int,
)
    requires
        forall|j: int|
            0 <= j < ts.len() && (#[trigger] ts[j].from) == s0 ==> ts[j].to != s0 && vis.contains(
                ts[j].to,
            ),
        forall|j: int|
            0 <= j < ts.len() && vis.contains(#[trigger] ts[j].from) ==> ts[j].to != s0
                && vis.contains(ts[j].to),
        path_ok(ts, p),
        p.first() == s0,
        1 <= i < p.len(),
    ensures
        vis.contains(p[i]),
        p[i] != s0,
    decreases i,
{
    if i == 1 {
        assert(edge(ts, p[0], p[1]));
        let j = choose|j: int| 0 <= j < ts.len() && ts[j].from == p[0] && ts[j].to == p[1];
        assert(ts[j].from == s0);
    } else {
        lemma_path_confined(ts, s0, vis, p, i - 1);
        assert(edge(ts, p[i - 1], p[i]));
        let j = choose|j: int|
            0 <= j < ts.len() && ts[j].from == p[i - 1] && ts[j].to == p[i];
        assert(vis.contains(ts[j].from));
    }
}

/// When every successor of `s0` and of each visited state lies inside the
/// visited set and none of them is `s0`, no cycle through `s0` exists.
proof fn lemma_closed_no_cycle(ts: Seq<AbsTransition>, s0: Seq<char>, vis: Seq<Seq<char>>)
    requires
        forall|j: int|
            0 <= j < ts.len() && (#[trigger] ts[j].from) == s0 ==> ts[j].to != s0 && vis.contains(
                ts[j].to,
            ),
        forall|j: int|
            0 <= j < ts.len() && vis.contains(#[trigger] ts[j].from) ==> ts[j].to != s0
                && vis.contains(ts[j].to),
    ensures
        !has_cycle_through(ts, s0),
{
    if has_cycle_through(ts, s0) {
        let p = choose|p: Seq<Seq<char>>| path_ok(ts, p) && p.first() == s0 && p.last() == s0;
        lemma_path_confined(ts, s0, vis, p, p.len() - 1);
        assert(p[p.len() - 1] == p.last());
    }
}

/// A duplicate-free sequence whose members all come from another sequence
/// is no longer than that sequence.
proof fn lemma_distinct_members_bound(vv: Seq<Seq<char>>, source: Seq<Seq<char>>)
    requires
        vv.no_duplicates(),
        forall|i: int| 0 <= i < vv.len() ==> source.contains(#[trigger] vv[i]),
    ensures
        vv.len() <= source.len(),
{
    broadcast use vstd::seq_lib::seq_to_set_is_finite;

    vv.unique_seq_to_set();
    source.lemma_cardinality_of_set();
    assert(vv.to_set().subset_of(source.to_set())) by {
        assert forall|x: Seq<char>| vv.to_set().contains(x) implies source.to_set().contains(
            x,
        ) by {
            assert(vv.contains(x));
            let i = choose|i: int| 0 <= i < vv.len() && vv[i] == x;
            assert(source.contains(vv[i]));
        }
    }
    vstd::set_lib::lemma_len_subset(vv.to_set(), source.to_set());
}

/// Membership in a sequence extended by one element: exactly the old
/// members and the new element.
proof fn lemma_push_contains(s: Seq<Seq<char>>, x: Seq<char>)
    ensures
        forall|y: Seq<char>| #[trigger] s.push(x).contains(y) <==> s.contains(y) || y == x,
{
    assert forall|y: Seq<char>| #[trigger] s.push(x).contains(y) implies s.contains(y) || y
        == x by {
        let i = choose|i: int| 0 <= i < s.push(x).len() && s.push(x)[i] == y;
        if i < s.len() {
            assert(s[i] == y);
        }
    }
    assert forall|y: Seq<char>| s.contains(y) || y == x implies #[trigger] s.push(x).contains(
        y,
    ) by {
        if s.contains(y) {
            let i = choose|i: int| 0 <= i < s.len() && s[i] == y;
            assert(s.push(x)[i] == y);
        } else {
            assert(s.push(x)[s.len() as int] == x);
        }
    }
}

/// Pushing an element that is not yet present keeps a sequence free of
/// duplicates.
proof fn lemma_push_distinct(s: Seq<Seq<char>>, x: Seq<char>)
    requires
        s.no_duplicates(),
        !s.contains(x),
    ensures
        s.push(x).no_duplicates(),
{
    assert forall|i: int, j: int|
        (0 <= i < s.push(x).len() && 0 <= j < s.push(x).len() && i != j) implies s.push(x)[i]
        != s.push(x)[j] by {
        if i < s.len() && j < s.len() {
            assert(s.push(x)[i] == s[i] && s.push(x)[j] == s[j]);
        } else if j == s.len() {
            assert(s.push(x)[j] == x && s.push(x)[i] == s[i]);
            if s[i] == x {
                assert(s.contains(x));
            }
        } else {
            assert(s.push(x)[i] == x && s.push(x)[j] == s[j]);
            if s[j] == x {
                assert(s.contains(x));
            }
        }
    }
}

/// Decide whether a cycle through `start` exists in the transition graph:
/// a depth-first search from the successors of `start` looks for an edge
/// back to `start`, visiting each label once.
fn has_cycle_from(start: &String, transitions: &Vec<FsmTransition>) -> (r: bool)
    ensures
        r == has_cycle_through(abs_transitions(transitions@), start@),
{
    let ghost ats = abs_transitions(transitions@);
    let mut visited: Vec<String> = Vec::new();
    let mut stack: Vec<String> = Vec::new();

    let mut k: usize = 0;
    while k < transitions.len()
        invariant
            k <= transitions@.len(),
            ats == abs_transitions(transitions@),
            stack@ == visited@,
            label_views(visited@).no_duplicates(),
            visited@.len() <= transitions@.len(),
            forall|i: int|
                0 <= i < visited@.len() ==> (#[trigger] label_views(visited@)[i]) != start@
                    && reaches(ats, start@, label_views(visited@)[i]) && to_labels(ats).contains(
                    label_views(visited@)[i],
                ),
            forall|j: int|
                0 <= j < k && (#[trigger] ats[j].from) == start@ ==> ats[j].to != start@
                    && label_views(visited@).contains(ats[j].to),
        decreases transitions@.len() - k,
    {
        let t = &transitions[k];
        assert(ats[k as int] == t@);
        if t.from == *start {
            if t.to == *start {
                proof {
                    lemma_reach_base(ats, start@, start@);
                }
                return true;
            }
            if !contains_label(&visited, &t.to) {
                let ghost old_views = label_views(visited@);
                visited.push(t.to.clone());
                stack.push(t.to.clone());
                proof {
                    assert(label_views(visited@) =~= old_views.push(t.to@));
                    lemma_push_contains(old_views, t.to@);
                    lemma_push_distinct(old_views, t.to@);
                    lemma_reach_base(ats, start@, t.to@);
                    assert(to_labels(ats)[k as int] == ats[k as int].to);
                    lemma_distinct_members_bound(label_views(visited@), to_labels(ats));
                    assert(to_labels(ats).len() == transitions@.len());
                }
            }
        }
        k = k + 1;
    }

    while stack.len() > 0
        invariant
            ats == abs_transitions(transitions@),
            label_views(visited@).no_duplicates(),
            visited@.len() <= transitions@.len(),
            forall|i: int|
                0 <= i < stack@.len() ==> label_views(visited@).contains(
                    #[trigger] label_views(stack@)[i],
                ),
            forall|i: int|
                0 <= i < visited@.len() ==> (#[trigger] label_views(visited@)[i]) != start@
                    && reaches(ats, start@, label_views(visited@)[i]) && to_labels(ats).contains(
                    label_views(visited@)[i],
                ),
            forall|j: int|
                0 <= j < ats.len() && (#[trigger] ats[j].from) == start@ ==> ats[j].to != start@
                    && label_views(visited@).contains(ats[j].to),
            forall|j: int|
                0 <= j < ats.len() && label_views(visited@).contains(#[trigger] ats[j].from)
                    && !label_views(stack@).contains(ats[j].from) ==> ats[j].to != start@
                    && label_views(visited@).contains(ats[j].to),
        decreases transitions@.len() - visited@.len(), stack@.len(),
    {
        let ghost vis_at_head = visited@;
        let ghost stack_at_head = stack@;
        let ghost stack_before = label_views(stack@);
        let cur = match stack.pop() {
            Some(cur) => cur,
            None => {
                return false;
            },
        };
        proof {
            assert(stack_before[stack_before.len() - 1] == cur@);
            assert(label_views(stack@) =~= stack_before.drop_last());
            assert(label_views(visited@).contains(cur@));
            assert forall|x: Seq<char>| stack_before.contains(x) && x != cur@ implies label_views(
                stack@,
            ).contains(x) by {
                let i = choose|i: int| 0 <= i < stack_before.len() && stack_before[i] == x;
                assert(i < stack_before.len() - 1);
                assert(stack_before.drop_last()[i] == x);
            }
        }
        let mut k: usize = 0;
        while k < transitions.len()
            invariant
                k <= transitions@.len(),
                ats == abs_transitions(transitions@),
                label_views(visited@).no_duplicates(),
                visited@.len() <= transitions@.len(),
                label_views(visited@).contains(cur@),
                cur@ != start@,
                reaches(ats, start@, cur@),
                visited@.len() >= vis_at_head.len(),
                stack@.len() + vis_at_head.len() == stack_at_head.len() - 1 + visited@.len(),
                forall|i: int|
                    0 <= i < stack@.len() ==> label_views(visited@).contains(
                        #[trigger] label_views(stack@)[i],
                    ),
                forall|i: int|
                    0 <= i < visited@.len() ==> (#[trigger] label_views(visited@)[i]) != start@
                        && reaches(ats, start@, label_views(visited@)[i]) && to_labels(
                        ats,
                    ).contains(label_views(visited@)[i]),
                forall|j: int|
                    0 <= j < ats.len() && (#[trigger] ats[j].from) == start@ ==> ats[j].to
                        != start@ && label_views(visited@).contains(ats[j].to),
                forall|j: int|
                    0 <= j < ats.len() && label_views(visited@).contains(#[trigger] ats[j].from)
                        && !label_views(stack@).contains(ats[j].from) && ats[j].from != cur@
                        ==> ats[j].to != start@ && label_views(visited@).contains(ats[j].to),
                forall|j: int|
                    0 <= j < k && (#[trigger] ats[j].from) == cur@ ==> ats[j].to != start@
                        && label_views(visited@).contains(ats[j].to),
            decreases transitions@.len() - k,
        {
            let t = &transitions[k];
            assert(ats[k as int] == t@);
            if t.from == cur {
                if t.to == *start {
                    proof {
                        lemma_reach_step(ats, start@, cur@, start@);
                    }
                    return true;
                }
                if !contains_label(&visited, &t.to) {
                    let ghost old_views = label_views(visited@);
                    let ghost old_stack = label_views(stack@);
                    visited.push(t.to.clone());
                    stack.push(t.to.clone());
                    proof {
                        assert(label_views(visited@) =~= old_views.push(t.to@));
                        assert(label_views(stack@) =~= old_stack.push(t.to@));
                        lemma_push_contains(old_views, t.to@);
                        lemma_push_contains(old_stack, t.to@);
                        lemma_push_distinct(old_views, t.to@);
                        lemma_reach_step(ats, start@, cur@, t.to@);
                        assert(to_labels(ats)[k as int] == ats[k as int].to);
                        lemma_distinct_members_bound(label_views(visited@), to_labels(ats));
                        assert(to_labels(ats).len() == transitions@.len());
                    }
                }
            }
            k = k + 1;
        }
    }
    proof {
        lemma_closed_no_cycle(ats, start@, label_views(visited@));
    }
    false
}

/// Check a `forbidden_cycles` invariant: no cycle may pass through any of
/// the named states.
fn check_no_cycles(transitions: &Vec<FsmTransition>, states: &Vec<String>) -> (r: bool)
    ensures
        r == cycles_ok(abs_transitions(transitions@), label_views(states@)),
{
    let ghost views = label_views(states@);
    let mut i: usize = 0;
    while i < states.len()
        invariant
            i <= states@.len(),
            views == label_views(states@),
            forall|j: int|
                0 <= j < i ==> !has_cycle_through(abs_transitions(transitions@), views[j]),
        decreases states@.len() - i,
    {
        assert(views[i as int] == states@[i as int]@);
        if has_cycle_from(&states[i], transitions) {
            return false;
        }
        i = i + 1;
    }
    true
}

impl FsmDefinition {
    /// Evaluate every invariant against the transition graph, in list
    /// order, stopping at the first violated one. A definition without
    /// invariants passes trivially.
    pub fn validate_invariants(&self) -> (r: Result<(), FsmError>)
        ensures
            r == (if invariants_ok(self@) {
                Ok::<(), FsmError>(())
            } else {
                Err::<(), FsmError>(FsmError::InvalidInput)
            }),
    {
        if self.invariants.len() == 0 {
            return Ok(());
        }
        let kind_terminal: String = "terminal_states".to_owned();
        let kind_required: String = "required_transitions".to_owned();
        let kind_forbidden: String = "forbidden_transitions".to_owned();
        let kind_cycles: String = "forbidden_cycles".to_owned();
        let kind_self: String = "self_transitions_required".to_owned();
        let mut i: usize = 0;
        while i < self.invariants.len()
            invariant
                i <= self.invariants@.len(),
                kind_terminal@ == "terminal_states"@,
                kind_required@ == "required_transitions"@,
                kind_forbidden@ == "forbidden_transitions"@,
                kind_cycles@ == "forbidden_cycles"@,
                kind_self@ == "self_transitions_required"@,
                forall|j: int| 0 <= j < i ==> invariant_holds(self@, self@.invariants[j]),
            decreases self.invariants@.len() - i,
        {
            let inv = &self.invariants[i];
            assert(self@.invariants[i as int] == inv@);
            let ok: bool;
            if inv.kind == kind_terminal {
                ok = check_terminal(&self.transitions, &inv.states);
            } else if inv.kind == kind_required {
                ok = check_required(&self.transitions, &inv.transitions);
            } else if inv.kind == kind_forbidden {
                ok = check_forbidden(&self.transitions, &inv.transitions);
            } else if inv.kind == kind_cycles {
                ok = check_no_cycles(&self.transitions, &inv.states);
            } else if inv.kind == kind_self {
                if inv.states.len() == 0 {
                    ok = check_self_required(&self.transitions, &self.states);
                } else {
                    ok = check_self_required(&self.transitions, &inv.states);
                }
            } else {
                ok = false;
            }
            assert(ok == invariant_holds(self@, self@.invariants[i as int]));
            if !ok {
                return Err(FsmError::InvalidInput);
            }
            i = i + 1;
        }
        Ok(())
    }

    /// Run structural validation, then invariant validation, stopping at
    /// the first failure.
    pub fn validate(&self) -> (r: Result<(), FsmError>)
        ensures
            r == (if definition_ok(self@) {
                Ok::<(), FsmError>(())
            } else {
                Err::<(), FsmError>(FsmError::InvalidInput)
            }),
    {
        match self.validate_structure() {
            Ok(_) => {},
            Err(e) => {
                return Err(e);
            },
        }
        match self.validate_invariants() {
            Ok(_) => {},
            Err(e) => {
                return Err(e);
            },
        }
        Ok(())
    }
}

/// Additional strictness on top of `validate`: the definition must carry
/// at least one invariant and name a default initial state.
pub fn validate_strict(definition: &FsmDefinition) -> (r: Result<(), FsmError>)
    ensures
        r == (if definition@.invariants.len() > 0 && definition@.initial_state is Some {
            Ok::<(), FsmError>(())
        } else {
            Err::<(), FsmError>(FsmError::InvalidInput)
        }),
{
    if definition.invariants.len() == 0 {
        return Err(FsmError::InvalidInput);
    }
    let has_initial = match &definition.defaults {
        Some(defaults) => defaults.initial_state.is_some(),
        None => false,
    };
    if !has_initial {
        return Err(FsmError::InvalidInput);
    }
    Ok(())
}

/// Validation reads only a definition's abstract content. Two definitions
/// with the same states, transitions, default initial state and
/// invariants — however they were produced, for instance by serializing a
/// definition and parsing it back — validate to the same outcome; guards,
/// metadata and descriptions never influence it.
pub proof fn lemma_validation_depends_on_content(d1: FsmDefinition, d2: FsmDefinition)
    requires
        d1@ == d2@,
    ensures
        structure_ok(d1@) == structure_ok(d2@),
        invariants_ok(d1@) == invariants_ok(d2@),
        definition_ok(d1@) == definition_ok(d2@),
{
}

/// A `self_transitions_required` invariant with an empty state list is
/// equivalent to one that lists every declared state explicitly.
pub proof fn lemma_self_transitions_empty_checks_all(
    d: AbsDefinition,
    empty_inv: AbsInvariant,
    full_inv: AbsInvariant,
)
    requires
        empty_inv.kind == "self_transitions_required"@,
        full_inv.kind == "self_transitions_required"@,
        empty_inv.states.len() == 0,
        full_inv.states == d.states,
    ensures
        invariant_holds(d, empty_inv) == invariant_holds(d, full_inv),
{
    reveal_strlit("terminal_states");
    reveal_strlit("required_transitions");
    reveal_strlit("forbidden_transitions");
    reveal_strlit("forbidden_cycles");
    reveal_strlit("self_transitions_required");
    assert("terminal_states"@.len() == 15);
    assert("required_transitions"@.len() == 20);
    assert("forbidden_transitions"@.len() == 21);
    assert("forbidden_cycles"@.len() == 16);
    assert("self_transitions_required"@.len() == 25);
    assert(invariant_holds(d, empty_inv) == self_required_ok(d.transitions, d.states));
    assert(invariant_holds(d, full_inv) == self_required_ok(d.transitions, d.states));
}

} // verus!
