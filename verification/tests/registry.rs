use audit_layer::key_order::key_precedes;
use audit_layer::{
    AuditLayerContractState, ComplaintInfo, ComplaintStatus, Operation, Parameter, ProofInfo,
};

fn s(text: &str) -> String {
    text.to_string()
}

fn empty() -> AuditLayerContractState {
    AuditLayerContractState::new().unwrap()
}

fn evidence(hash: &str, kind: &str, at: &str) -> ProofInfo {
    ProofInfo { proof_hash: s(hash), proof_type: s(kind), timestamp: s(at) }
}

fn complaint(user: &str, hash: &str, at: &str, status: ComplaintStatus) -> ComplaintInfo {
    ComplaintInfo {
        user_id: s(user),
        complaint_hash: s(hash),
        timestamp: s(at),
        status,
        last_status_update: s(at),
        proofs: Vec::new(),
    }
}

fn ids(state: &AuditLayerContractState) -> Vec<String> {
    let mut out = Vec::new();
    for (id, _) in state.get_complaints() {
        out.push(id);
    }
    out
}

#[test]
fn new_registry_is_empty() {
    let state = empty();
    assert!(state.get_complaints().is_empty());
    assert_eq!(state.get_complaint(s("C1")), None);
}

#[test]
fn end_to_end_scenario() {
    let mut state = empty();

    assert!(state.complaint_register(s("C1"), s("hashA"), s("U1"), s("T0")));

    assert!(!state.complaint_register(s("C1"), s("hashB"), s("U2"), s("T1")));
    assert_eq!(state.get_complaint(s("C1")).unwrap().user_id, "U1");

    assert!(state.register_proof(s("C1"), s("pHash1"), s("document"), s("T2")));
    assert_eq!(
        state.get_complaint(s("C1")).unwrap().proofs,
        vec![evidence("pHash1", "document", "T2")]
    );

    assert!(state.update_complaint_status(s("C1"), s("UNDER_INVESTIGATION"), s("T3")));
    let c = state.get_complaint(s("C1")).unwrap();
    assert_eq!(c.last_status_update, "T3");
    assert_eq!(c.status, ComplaintStatus::UnderInvestigation);

    assert!(state.update_complaint_status(s("C1"), s("RESOLVED"), s("T4")));

    assert!(!state.register_proof(s("C1"), s("pHash2"), s("photo"), s("T5")));
    assert_eq!(
        state.get_complaint(s("C1")).unwrap().proofs,
        vec![evidence("pHash1", "document", "T2")]
    );

    assert!(!state.update_complaint_status(s("C1"), s("REJECTED"), s("T6")));
    let c = state.get_complaint(s("C1")).unwrap();
    assert_eq!(c.status, ComplaintStatus::Resolved);
    assert_eq!(c.last_status_update, "T4");
}

#[test]
fn register_reads_back_as_filed() {
    let mut state = empty();
    assert!(state.complaint_register(s("C7"), s("h7"), s("U7"), s("2024-01-01")));
    assert_eq!(
        state.get_complaint(s("C7")),
        Some(ComplaintInfo {
            user_id: s("U7"),
            complaint_hash: s("h7"),
            timestamp: s("2024-01-01"),
            status: ComplaintStatus::Filed,
            last_status_update: s("2024-01-01"),
            proofs: vec![],
        })
    );
}

#[test]
fn register_again_leaves_the_record_unchanged() {
    let mut state = empty();
    assert!(state.complaint_register(s("C1"), s("hashA"), s("U1"), s("T0")));
    assert!(state.register_proof(s("C1"), s("pa"), s("document"), s("T1")));
    let before = state.get_complaint(s("C1")).unwrap();
    let listed = state.get_complaints();

    assert!(!state.complaint_register(s("C1"), s("hashB"), s("U2"), s("T9")));
    assert!(!state.complaint_register(s("C1"), s("hashA"), s("U1"), s("T0")));

    assert_eq!(state.get_complaint(s("C1")).unwrap(), before);
    assert_eq!(before.timestamp, "T0");
    assert_eq!(before.proofs.len(), 1);
    assert_eq!(state.get_complaints(), listed);
}

#[test]
fn registering_others_leaves_a_record_unchanged() {
    let mut state = empty();
    assert!(state.complaint_register(s("M"), s("h"), s("u"), s("t")));
    let before = state.get_complaint(s("M")).unwrap();
    assert!(state.complaint_register(s("A"), s("h1"), s("u1"), s("t1")));
    assert!(state.complaint_register(s("Z"), s("h2"), s("u2"), s("t2")));
    assert!(!state.complaint_register(s("M"), s("h3"), s("u3"), s("t3")));
    assert_eq!(state.get_complaint(s("M")).unwrap(), before);
    assert_eq!(state.get_complaints().len(), 3);
}

#[test]
fn resolved_complaint_is_frozen() {
    let mut state = empty();
    assert!(state.complaint_register(s("C1"), s("h"), s("u"), s("T0")));
    assert!(state.register_proof(s("C1"), s("pa"), s("photo"), s("T1")));
    assert!(state.update_complaint_status(s("C1"), s("RESOLVED"), s("T2")));
    let frozen = state.get_complaint(s("C1")).unwrap();

    assert!(!state.register_proof(s("C1"), s("pb"), s("photo"), s("T3")));
    for name in ["FILED", "UNDER_INVESTIGATION", "RESOLVED", "REJECTED"] {
        assert!(!state.update_complaint_status(s("C1"), s(name), s("T4")));
    }
    assert_eq!(state.get_complaint(s("C1")).unwrap(), frozen);
}

#[test]
fn rejected_complaint_is_frozen() {
    let mut state = empty();
    assert!(state.complaint_register(s("C1"), s("h"), s("u"), s("T0")));
    assert!(state.update_complaint_status(s("C1"), s("REJECTED"), s("T1")));
    let frozen = state.get_complaint(s("C1")).unwrap();
    assert_eq!(frozen.status, ComplaintStatus::Rejected);

    assert!(!state.register_proof(s("C1"), s("p"), s("photo"), s("T2")));
    assert!(!state.update_complaint_status(s("C1"), s("FILED"), s("T3")));
    assert!(!state.update_complaint_status(s("C1"), s("RESOLVED"), s("T3")));
    assert_eq!(state.get_complaint(s("C1")).unwrap(), frozen);
}

#[test]
fn proofs_keep_submission_order() {
    let mut state = empty();
    assert!(state.complaint_register(s("C1"), s("h"), s("u"), s("T0")));
    assert!(state.register_proof(s("C1"), s("zz"), s("video"), s("T2")));
    assert!(state.register_proof(s("C1"), s("aa"), s("audio"), s("T1")));
    assert!(state.register_proof(s("C1"), s("zz"), s("video"), s("T2")));
    let c = state.get_complaint(s("C1")).unwrap();
    assert_eq!(
        c.proofs,
        vec![
            evidence("zz", "video", "T2"),
            evidence("aa", "audio", "T1"),
            evidence("zz", "video", "T2"),
        ]
    );
    assert_eq!(c.status, ComplaintStatus::Filed);
    assert_eq!(c.last_status_update, "T0");
}

#[test]
fn proof_goes_to_the_named_complaint_only() {
    let mut state = empty();
    assert!(state.complaint_register(s("A"), s("ha"), s("ua"), s("T0")));
    assert!(state.complaint_register(s("B"), s("hb"), s("ub"), s("T0")));
    assert!(state.register_proof(s("B"), s("p"), s("k"), s("T1")));
    assert!(state.get_complaint(s("A")).unwrap().proofs.is_empty());
    assert_eq!(state.get_complaint(s("B")).unwrap().proofs, vec![evidence("p", "k", "T1")]);
}

#[test]
fn unknown_complaint_is_refused() {
    let mut state = empty();
    assert!(state.complaint_register(s("C1"), s("h"), s("u"), s("T0")));
    let listed = state.get_complaints();
    assert!(!state.register_proof(s("C2"), s("p"), s("k"), s("T1")));
    assert!(!state.update_complaint_status(s("C2"), s("RESOLVED"), s("T1")));
    assert_eq!(state.get_complaint(s("C2")), None);
    assert_eq!(state.get_complaint(s("")), None);
    assert_eq!(state.get_complaints(), listed);
}

#[test]
fn unknown_status_is_refused() {
    let mut state = empty();
    assert!(state.complaint_register(s("C1"), s("h"), s("u"), s("T0")));
    for bad in ["", "resolved", "CLOSED", "FILED ", " FILED", "UNDER INVESTIGATION", "RESOLVEDX"] {
        assert!(!state.update_complaint_status(s("C1"), s(bad), s("T1")));
    }
    let c = state.get_complaint(s("C1")).unwrap();
    assert_eq!(c.status, ComplaintStatus::Filed);
    assert_eq!(c.last_status_update, "T0");
}

#[test]
fn same_status_again_is_accepted() {
    let mut state = empty();
    assert!(state.complaint_register(s("C1"), s("h"), s("u"), s("T0")));
    assert!(state.update_complaint_status(s("C1"), s("FILED"), s("T1")));
    let c = state.get_complaint(s("C1")).unwrap();
    assert_eq!(c.status, ComplaintStatus::Filed);
    assert_eq!(c.last_status_update, "T1");
    assert_eq!(c.timestamp, "T0");

    assert!(state.update_complaint_status(s("C1"), s("UNDER_INVESTIGATION"), s("T2")));
    assert!(state.update_complaint_status(s("C1"), s("UNDER_INVESTIGATION"), s("T3")));
    assert!(state.update_complaint_status(s("C1"), s("FILED"), s("T4")));
    let c = state.get_complaint(s("C1")).unwrap();
    assert_eq!(c.status, ComplaintStatus::Filed);
    assert_eq!(c.last_status_update, "T4");
}

#[test]
fn empty_texts_are_taken_as_they_come() {
    let mut state = empty();
    assert!(state.complaint_register(s(""), s(""), s(""), s("")));
    assert!(!state.complaint_register(s(""), s("h"), s("u"), s("t")));
    assert_eq!(
        state.get_complaint(s("")),
        Some(complaint("", "", "", ComplaintStatus::Filed))
    );
}

#[test]
fn listing_is_in_identifier_order() {
    let mut state = empty();
    for id in ["b", "a", "ab", "B", "", "\u{e9}", "z", "a\u{0}", "\u{10000}", "\u{ffff}"] {
        assert!(state.complaint_register(s(id), s("h"), s("u"), s("t")));
    }
    assert_eq!(
        ids(&state),
        vec!["", "B", "a", "a\u{0}", "ab", "b", "z", "\u{e9}", "\u{ffff}", "\u{10000}"]
    );
    let mut by_std = ids(&state);
    by_std.sort();
    assert_eq!(ids(&state), by_std);
}

#[test]
fn listing_twice_gives_the_same() {
    let mut state = empty();
    assert!(state.complaint_register(s("C2"), s("h2"), s("u2"), s("T0")));
    assert!(state.complaint_register(s("C1"), s("h1"), s("u1"), s("T1")));
    assert!(state.register_proof(s("C2"), s("p"), s("k"), s("T2")));
    let first = state.get_complaints();
    let second = state.get_complaints();
    assert_eq!(first, second);
    assert_eq!(first.len(), 2);
    assert_eq!(first[0].0, "C1");
    assert_eq!(first[1].0, "C2");
    assert_eq!(first[1].1.proofs, vec![evidence("p", "k", "T2")]);
}

#[test]
fn results_are_copies() {
    let mut state = empty();
    assert!(state.complaint_register(s("C1"), s("h"), s("u"), s("T0")));
    let mut one = state.get_complaint(s("C1")).unwrap();
    let mut all = state.get_complaints();
    one.user_id = s("changed");
    all[0].1.proofs.push(evidence("p", "k", "t"));
    all.clear();
    assert!(state.register_proof(s("C1"), s("pa"), s("k1"), s("T1")));
    let now = state.get_complaint(s("C1")).unwrap();
    assert_eq!(now.user_id, "u");
    assert_eq!(now.proofs, vec![evidence("pa", "k1", "T1")]);
    assert_eq!(one.proofs.len(), 0);
}

#[test]
fn registry_is_rebuilt_from_its_listing() {
    let mut state = empty();
    assert!(state.complaint_register(s("C2"), s("h2"), s("u2"), s("T0")));
    assert!(state.complaint_register(s("C1"), s("h1"), s("u1"), s("T1")));
    assert!(state.register_proof(s("C1"), s("p"), s("k"), s("T2")));
    assert!(state.update_complaint_status(s("C2"), s("REJECTED"), s("T3")));

    let mut again = AuditLayerContractState::from_complaints(state.get_complaints());
    assert_eq!(again.get_complaints(), state.get_complaints());
    assert!(!again.register_proof(s("C2"), s("p"), s("k"), s("T4")));
    assert!(again.register_proof(s("C1"), s("pb"), s("k2"), s("T4")));
    assert_eq!(again.get_complaint(s("C1")).unwrap().proofs.len(), 2);
    assert_eq!(state.get_complaint(s("C1")).unwrap().proofs.len(), 1);
}

#[test]
fn cloned_registry_is_equal_and_apart() {
    let mut state = empty();
    assert!(state.complaint_register(s("C1"), s("h1"), s("u1"), s("T0")));
    let mut copy = state.clone();
    assert_eq!(copy.get_complaints(), state.get_complaints());
    assert!(copy.complaint_register(s("C2"), s("h2"), s("u2"), s("T1")));
    assert!(copy.update_complaint_status(s("C1"), s("REJECTED"), s("T2")));
    assert_eq!(state.get_complaints().len(), 1);
    assert_eq!(state.get_complaint(s("C1")).unwrap().status, ComplaintStatus::Filed);
    assert_eq!(copy.get_complaints().len(), 2);
}

#[test]
fn rebuilding_sorts_and_lets_the_later_entry_stand() {
    let state = AuditLayerContractState::from_complaints(vec![
        (s("b"), complaint("u1", "h1", "t1", ComplaintStatus::Filed)),
        (s("a"), complaint("u2", "h2", "t2", ComplaintStatus::Resolved)),
        (s("b"), complaint("u3", "h3", "t3", ComplaintStatus::UnderInvestigation)),
    ]);
    assert_eq!(
        state.get_complaints(),
        vec![
            (s("a"), complaint("u2", "h2", "t2", ComplaintStatus::Resolved)),
            (s("b"), complaint("u3", "h3", "t3", ComplaintStatus::UnderInvestigation)),
        ]
    );
    assert!(AuditLayerContractState::from_complaints(vec![]).get_complaints().is_empty());
}

#[test]
fn many_complaints_are_all_found() {
    let mut state = empty();
    let mut n = 0;
    while n < 200 {
        let id = format!("C{}", (n * 37) % 200);
        assert!(state.complaint_register(id, format!("h{}", n), s("u"), s("t")));
        n += 1;
    }
    assert_eq!(state.get_complaints().len(), 200);
    let mut n = 0;
    while n < 200 {
        let id = format!("C{}", (n * 37) % 200);
        assert_eq!(state.get_complaint(id).unwrap().complaint_hash, format!("h{}", n));
        n += 1;
    }
    assert_eq!(state.get_complaint(s("C200")), None);
    let listed = ids(&state);
    let mut sorted = listed.clone();
    sorted.sort();
    assert_eq!(listed, sorted);
}

#[test]
fn key_order_is_the_order_of_the_encodings() {
    assert!(key_precedes(&s("a"), &s("b")));
    assert!(!key_precedes(&s("b"), &s("a")));
    assert!(!key_precedes(&s("a"), &s("a")));
    assert!(key_precedes(&s(""), &s("a")));
    assert!(!key_precedes(&s(""), &s("")));
    assert!(key_precedes(&s("a"), &s("ab")));
    assert!(!key_precedes(&s("ab"), &s("a")));
    assert!(key_precedes(&s("Z"), &s("a")));
    assert!(key_precedes(&s("C10"), &s("C2")));
    assert!(key_precedes(&s("z"), &s("\u{e9}")));
    assert!(key_precedes(&s("\u{ffff}"), &s("\u{10000}")));
    assert!(!key_precedes(&s("\u{10000}"), &s("\u{ffff}")));
}

#[test]
fn key_order_agrees_with_the_order_of_strings() {
    let samples = ["", "a", "A", "ab", "abc", "b", "C1", "C10", "C2", "\u{e9}", "e\u{301}", "\u{7ff}", "\u{800}", "\u{ffff}", "\u{10000}", "~"];
    for x in samples {
        for y in samples {
            assert_eq!(key_precedes(&s(x), &s(y)), x < y);
        }
    }
}

#[test]
fn status_names() {
    assert_eq!(ComplaintStatus::Filed.name(), "FILED");
    assert_eq!(ComplaintStatus::UnderInvestigation.name(), "UNDER_INVESTIGATION");
    assert_eq!(ComplaintStatus::Resolved.name(), "RESOLVED");
    assert_eq!(ComplaintStatus::Rejected.name(), "REJECTED");
}

#[test]
fn status_is_read_from_its_name() {
    assert_eq!(ComplaintStatus::parse(&s("FILED")), Some(ComplaintStatus::Filed));
    assert_eq!(
        ComplaintStatus::parse(&s("UNDER_INVESTIGATION")),
        Some(ComplaintStatus::UnderInvestigation)
    );
    assert_eq!(ComplaintStatus::parse(&s("RESOLVED")), Some(ComplaintStatus::Resolved));
    assert_eq!(ComplaintStatus::parse(&s("REJECTED")), Some(ComplaintStatus::Rejected));
    assert_eq!(ComplaintStatus::parse(&s("")), None);
    assert_eq!(ComplaintStatus::parse(&s("filed")), None);
    assert_eq!(ComplaintStatus::parse(&s("Resolved")), None);
    assert_eq!(ComplaintStatus::parse(&s("REJECTED\n")), None);
    for status in [
        ComplaintStatus::Filed,
        ComplaintStatus::UnderInvestigation,
        ComplaintStatus::Resolved,
        ComplaintStatus::Rejected,
    ] {
        assert_eq!(ComplaintStatus::parse(&status.name()), Some(status));
    }
}

#[test]
fn terminal_states() {
    assert!(!ComplaintStatus::Filed.is_terminal());
    assert!(!ComplaintStatus::UnderInvestigation.is_terminal());
    assert!(ComplaintStatus::Resolved.is_terminal());
    assert!(ComplaintStatus::Rejected.is_terminal());
}

#[test]
fn clones_are_equal_and_apart() {
    let mut c = complaint("u", "h", "t", ComplaintStatus::UnderInvestigation);
    c.proofs.push(evidence("pa", "k1", "t1"));
    c.proofs.push(evidence("pb", "k2", "t2"));
    let mut d = c.clone();
    assert_eq!(c, d);
    d.proofs.push(evidence("pc", "k3", "t3"));
    assert_eq!(c.proofs.len(), 2);
    let p = evidence("x", "y", "z");
    assert_eq!(p.clone(), p);
}

fn param(name: &str) -> Parameter {
    Parameter { name: s(name), required: true }
}

#[test]
fn operations_and_their_parameters() {
    assert_eq!(
        Operation::all(),
        vec![
            Operation::ComplaintRegister,
            Operation::RegisterProof,
            Operation::UpdateComplaintStatus,
            Operation::GetComplaints,
            Operation::GetComplaint,
        ]
    );
    assert_eq!(Operation::ComplaintRegister.name(), "complaint_register");
    assert_eq!(Operation::RegisterProof.name(), "register_proof");
    assert_eq!(Operation::UpdateComplaintStatus.name(), "update_complaint_status");
    assert_eq!(Operation::GetComplaints.name(), "get_complaints");
    assert_eq!(Operation::GetComplaint.name(), "get_complaint");

    assert_eq!(
        Operation::ComplaintRegister.parameters(),
        vec![param("complaint_id"), param("complaint_hash"), param("user_id"), param("timestamp")]
    );
    assert_eq!(
        Operation::RegisterProof.parameters(),
        vec![param("complaint_id"), param("proof_hash"), param("proof_type"), param("timestamp")]
    );
    assert_eq!(
        Operation::UpdateComplaintStatus.parameters(),
        vec![param("complaint_id"), param("status"), param("timestamp")]
    );
    assert_eq!(Operation::GetComplaints.parameters(), vec![]);
    assert_eq!(Operation::GetComplaint.parameters(), vec![param("complaint_id")]);

    assert!(Operation::ComplaintRegister.is_mutating());
    assert!(Operation::RegisterProof.is_mutating());
    assert!(Operation::UpdateComplaintStatus.is_mutating());
    assert!(!Operation::GetComplaints.is_mutating());
    assert!(!Operation::GetComplaint.is_mutating());
}
