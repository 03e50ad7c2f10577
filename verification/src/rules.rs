//! The rules of the registry, stated on the map from identifiers to
//! records that a registry stands for.
//!
//! Each of the three changes is given by two functions: whether the call
//! is accepted, and the map that is left after it. A call that is not
//! accepted leaves the map as it was.

use vstd::prelude::*;
use crate::record::{ComplaintRecord, ProofRecord};
use crate::status::ComplaintStatus;

verus! {

/// A registration is accepted when the identifier is not in use.
pub open spec fn register_accepted(m: Map<Seq<char>, ComplaintRecord>, id: Seq<char>) -> bool {
    !m.contains_key(id)
}

/// The registry after a call to register a complaint.
pub open spec fn after_register(
    m: Map<Seq<char>, ComplaintRecord>,
    id: Seq<char>,
    complaint_hash: Seq<char>,
    user_id: Seq<char>,
    timestamp: Seq<char>,
) -> Map<Seq<char>, ComplaintRecord> {
    if register_accepted(m, id) {
        m.insert(id, ComplaintRecord::filed(complaint_hash, user_id, timestamp))
    } else {
        m
    }
}

/// Whether the complaint `id` exists and may still change.
pub open spec fn is_active(m: Map<Seq<char>, ComplaintRecord>, id: Seq<char>) -> bool {
    m.contains_key(id) && !m[id].frozen()
}

/// A proof is accepted for a complaint that exists and is not frozen.
pub open spec fn proof_accepted(m: Map<Seq<char>, ComplaintRecord>, id: Seq<char>) -> bool {
    is_active(m, id)
}

/// The registry after a call to attach a proof.
pub open spec fn after_proof(
    m: Map<Seq<char>, ComplaintRecord>,
    id: Seq<char>,
    proof: ProofRecord,
) -> Map<Seq<char>, ComplaintRecord> {
    if proof_accepted(m, id) {
        m.insert(id, m[id].with_proof(proof))
    } else {
        m
    }
}

/// A change of status is accepted for a complaint that exists and is not
/// frozen, when the text names one of the four states.
pub open spec fn status_accepted(
    m: Map<Seq<char>, ComplaintRecord>,
    id: Seq<char>,
    status: Seq<char>,
) -> bool {
    is_active(m, id) && ComplaintStatus::from_label(status) is Some
}

/// The registry after a call to change a status.
pub open spec fn after_status(
    m: Map<Seq<char>, ComplaintRecord>,
    id: Seq<char>,
    status: Seq<char>,
    timestamp: Seq<char>,
) -> Map<Seq<char>, ComplaintRecord> {
    if status_accepted(m, id, status) {
        m.insert(id, m[id].with_status(ComplaintStatus::from_label(status)->Some_0, timestamp))
    } else {
        m
    }
}

/// The record kept under `id`, if there is one.
pub open spec fn lookup(m: Map<Seq<char>, ComplaintRecord>, id: Seq<char>) -> Option<ComplaintRecord> {
    if m.contains_key(id) {
        Some(m[id])
    } else {
        None
    }
}

/// A call that may change the registry.
pub enum Request {
    Register { id: Seq<char>, complaint_hash: Seq<char>, user_id: Seq<char>, timestamp: Seq<char> },
    AttachProof { id: Seq<char>, proof: ProofRecord },
    UpdateStatus { id: Seq<char>, status: Seq<char>, timestamp: Seq<char> },
}

/// The registry after one call.
pub open spec fn after_request(
    m: Map<Seq<char>, ComplaintRecord>,
    request: Request,
) -> Map<Seq<char>, ComplaintRecord> {
    match request {
        Request::Register { id, complaint_hash, user_id, timestamp } => after_register(
            m,
            id,
            complaint_hash,
            user_id,
            timestamp,
        ),
        Request::AttachProof { id, proof } => after_proof(m, id, proof),
        Request::UpdateStatus { id, status, timestamp } => after_status(m, id, status, timestamp),
    }
}

/// The registry after a sequence of calls, made one after another.
pub open spec fn after_requests(
    m: Map<Seq<char>, ComplaintRecord>,
    requests: Seq<Request>,
) -> Map<Seq<char>, ComplaintRecord>
    decreases requests.len(),
{
    if requests.len() == 0 {
        m
    } else {
        after_request(after_requests(m, requests.drop_last()), requests.last())
    }
}

} // verus!
