//! What holds of the registry whatever calls are made, proved from the
//! rules.

use vstd::prelude::*;
use crate::listing::{
    collected, is_listing, lemma_collected_sorted, lemma_listing_determines_map,
    lemma_listing_unique,
};
use crate::record::{ComplaintInfo, ComplaintRecord, ProofRecord};
use crate::registry::entry_views;
use crate::rules::{
    after_proof, after_register, after_request, after_requests, after_status, is_active, lookup,
    proof_accepted, register_accepted, status_accepted, Request,
};
use crate::status::ComplaintStatus;

verus! {

/// Registering under an identifier that is in use is refused and changes
/// nothing: the complaint on file keeps every field, its time of filing
/// and its proofs among them.
pub proof fn law_register_refuses_known_id(
    m: Map<Seq<char>, ComplaintRecord>,
    id: Seq<char>,
    complaint_hash: Seq<char>,
    user_id: Seq<char>,
    timestamp: Seq<char>,
)
    requires
        m.contains_key(id),
    ensures
        !register_accepted(m, id),
        after_register(m, id, complaint_hash, user_id, timestamp) == m,
{
}

/// Whatever registrations are made, in whatever order and under whatever
/// identifiers, a complaint that is on file stays exactly as it is, and
/// registering under its identifier is still refused afterwards.
pub proof fn law_registrations_keep_complaints(
    m: Map<Seq<char>, ComplaintRecord>,
    id: Seq<char>,
    requests: Seq<Request>,
)
    requires
        m.contains_key(id),
        forall|i: int| 0 <= i < requests.len() ==> #[trigger] requests[i] is Register,
    ensures
        after_requests(m, requests).contains_key(id),
        after_requests(m, requests)[id] == m[id],
        !register_accepted(after_requests(m, requests), id),
    decreases requests.len(),
{
    if requests.len() > 0 {
        law_registrations_keep_complaints(m, id, requests.drop_last());
        assert(requests.last() is Register);
    }
}

/// For a complaint that is resolved or rejected, a proof and a change of
/// status are both refused, and neither changes anything in the registry.
pub proof fn law_frozen_refuses_changes(
    m: Map<Seq<char>, ComplaintRecord>,
    id: Seq<char>,
    proof: ProofRecord,
    status: Seq<char>,
    timestamp: Seq<char>,
)
    requires
        m.contains_key(id),
        m[id].status == ComplaintStatus::Resolved || m[id].status == ComplaintStatus::Rejected,
    ensures
        !proof_accepted(m, id),
        after_proof(m, id, proof) == m,
        !status_accepted(m, id, status),
        after_status(m, id, status, timestamp) == m,
{
}

/// No single call changes a complaint that is resolved or rejected.
pub proof fn law_frozen_survives_request(
    m: Map<Seq<char>, ComplaintRecord>,
    id: Seq<char>,
    request: Request,
)
    requires
        m.contains_key(id),
        m[id].frozen(),
    ensures
        after_request(m, request).contains_key(id),
        after_request(m, request)[id] == m[id],
{
}

/// Once a complaint is resolved or rejected it stays as it is for good,
/// whatever calls follow, and after them a proof and a change of status
/// are refused as before.
pub proof fn law_frozen_is_final(
    m: Map<Seq<char>, ComplaintRecord>,
    id: Seq<char>,
    requests: Seq<Request>,
)
    requires
        m.contains_key(id),
        m[id].frozen(),
    ensures
        after_requests(m, requests).contains_key(id),
        after_requests(m, requests)[id] == m[id],
        !proof_accepted(after_requests(m, requests), id),
        forall|status: Seq<char>| !status_accepted(after_requests(m, requests), id, status),
    decreases requests.len(),
{
    if requests.len() > 0 {
        law_frozen_is_final(m, id, requests.drop_last());
        law_frozen_survives_request(after_requests(m, requests.drop_last()), id, requests.last());
    }
}

/// Two proofs attached one after the other to an active complaint are both
/// accepted and stand at the end of its proofs in the order in which they
/// came; the proofs that were there stay in front of them, and no other
/// field changes.
pub proof fn law_proofs_keep_their_order(
    m: Map<Seq<char>, ComplaintRecord>,
    id: Seq<char>,
    first: ProofRecord,
    second: ProofRecord,
)
    requires
        is_active(m, id),
    ensures
        proof_accepted(m, id),
        proof_accepted(after_proof(m, id, first), id),
        lookup(after_proof(after_proof(m, id, first), id, second), id) == Some(
            ComplaintRecord { proofs: m[id].proofs.push(first).push(second), ..m[id] },
        ),
{
}

/// A call never removes a complaint, never changes who filed it, what was
/// filed or when, and never takes away or reorders a proof: the proofs
/// from before the call are the first proofs after it.
pub proof fn law_request_only_appends(
    m: Map<Seq<char>, ComplaintRecord>,
    id: Seq<char>,
    request: Request,
)
    requires
        m.contains_key(id),
    ensures
        after_request(m, request).contains_key(id),
        after_request(m, request)[id].user_id == m[id].user_id,
        after_request(m, request)[id].complaint_hash == m[id].complaint_hash,
        after_request(m, request)[id].filed_at == m[id].filed_at,
        m[id].proofs.is_prefix_of(after_request(m, request)[id].proofs),
{
}

/// The time of the last change of status moves only with an accepted
/// change of status of that complaint, and then to the time given.
pub proof fn law_status_time_follows_status(
    m: Map<Seq<char>, ComplaintRecord>,
    id: Seq<char>,
    request: Request,
)
    requires
        m.contains_key(id),
    ensures
        match request {
            Request::UpdateStatus { id: target, status, timestamp } if target == id
                && status_accepted(m, id, status) => {
                &&& after_request(m, request)[id].last_status_update == timestamp
                &&& Some(after_request(m, request)[id].status) == ComplaintStatus::from_label(status)
            },
            _ => {
                &&& after_request(m, request)[id].last_status_update == m[id].last_status_update
                &&& after_request(m, request)[id].status == m[id].status
            },
        },
{
}

/// After an accepted registration the complaint is on file as filed: with
/// the status `Filed`, the given time as its time of filing and of its last
/// change of status, and no proofs.
pub proof fn law_registered_reads_back(
    m: Map<Seq<char>, ComplaintRecord>,
    id: Seq<char>,
    complaint_hash: Seq<char>,
    user_id: Seq<char>,
    timestamp: Seq<char>,
)
    requires
        register_accepted(m, id),
    ensures
        lookup(after_register(m, id, complaint_hash, user_id, timestamp), id) == Some(
            ComplaintRecord {
                user_id,
                complaint_hash,
                filed_at: timestamp,
                status: ComplaintStatus::Filed,
                last_status_update: timestamp,
                proofs: Seq::empty(),
            },
        ),
{
}

/// Two listings of a registry that has not changed between them are the
/// same, entry for entry.
pub proof fn law_listings_agree(
    m: Map<Seq<char>, ComplaintRecord>,
    first: Seq<(String, ComplaintInfo)>,
    second: Seq<(String, ComplaintInfo)>,
)
    requires
        is_listing(entry_views(first), m),
        is_listing(entry_views(second), m),
    ensures
        entry_views(first) == entry_views(second),
{
    lemma_listing_unique(entry_views(first), entry_views(second), m);
}

/// A registry is rebuilt from its listing: entering the entries of the
/// listing one after another gives the registry that was listed.
pub proof fn law_listing_rebuilds_registry(
    m: Map<Seq<char>, ComplaintRecord>,
    listed: Seq<(String, ComplaintInfo)>,
)
    requires
        is_listing(entry_views(listed), m),
    ensures
        collected(entry_views(listed)) == m,
{
    lemma_listing_determines_map(entry_views(listed), m);
    lemma_collected_sorted(entry_views(listed));
}

} // verus!
