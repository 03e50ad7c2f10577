//! The registry itself: the complaints on file and the five operations on
//! them.

use vstd::prelude::*;
use crate::key_order::{
    key_before, key_precedes, lemma_key_before_connected, lemma_key_before_irreflexive,
    lemma_key_before_transitive,
};
use crate::listing::{
    collected, is_listing, lemma_listing_insert, lemma_listing_lookup, lemma_listing_update,
    lemma_sorted_is_listing, listing_has, listing_map, listing_sorted,
};
use crate::record::{proof_records, ComplaintInfo, ComplaintRecord, ProofInfo, ProofRecord};
use crate::rules::{
    after_proof, after_register, after_status, proof_accepted, register_accepted, status_accepted,
};
use crate::status::ComplaintStatus;

verus! {

/// What a sequence of stored entries stands for: each identifier with its
/// record, in the same order.
pub open spec fn entry_views(entries: Seq<(String, ComplaintInfo)>) -> Seq<(Seq<char>, ComplaintRecord)> {
    entries.map_values(|e: (String, ComplaintInfo)| (e.0@, e.1@))
}

/// Finds where `id` stands among the entries, or where it would have to
/// be put, and says which of the two it is.
fn locate(entries: &Vec<(String, ComplaintInfo)>, id: &String) -> (r: (usize, bool))
    requires
        listing_sorted(entry_views(entries@)),
    ensures
        r.0 <= entries.len(),
        r.1 == listing_map(entry_views(entries@)).contains_key(id@),
        r.1 ==> r.0 < entries.len() && entries[r.0 as int].0@ == id@,
        !r.1 ==> forall|j: int|
            0 <= j < r.0 ==> key_before((#[trigger] entry_views(entries@)[j]).0, id@),
        !r.1 ==> forall|j: int|
            r.0 <= j < entries.len() ==> key_before(
                id@,
                (#[trigger] entry_views(entries@)[j]).0,
            ),
{
    let ghost l = entry_views(entries@);
    let mut lo: usize = 0;
    let mut hi: usize = entries.len();
    while lo < hi
        invariant
            lo <= hi <= entries.len(),
            l == entry_views(entries@),
            listing_sorted(l),
            forall|j: int| 0 <= j < lo ==> key_before((#[trigger] l[j]).0, id@),
            forall|j: int| hi <= j < l.len() ==> !key_before((#[trigger] l[j]).0, id@),
        decreases hi - lo,
    {
        let mid = lo + (hi - lo) / 2;
        if key_precedes(&entries[mid].0, id) {
            proof {
                assert(l[mid as int].0 == entries[mid as int].0@);
                assert forall|j: int| 0 <= j < mid + 1 implies key_before((#[trigger] l[j]).0, id@) by {
                    if j < mid {
                        assert(key_before(l[j].0, l[mid as int].0));
                        lemma_key_before_transitive(l[j].0, l[mid as int].0, id@);
                    }
                }
            }
            lo = mid + 1;
        } else {
            proof {
                assert(l[mid as int].0 == entries[mid as int].0@);
                assert forall|j: int| mid <= j < l.len() implies !key_before((#[trigger] l[j]).0, id@) by {
                    if mid < j && key_before(l[j].0, id@) {
                        assert(key_before(l[mid as int].0, l[j].0));
                        lemma_key_before_transitive(l[mid as int].0, l[j].0, id@);
                    }
                }
            }
            hi = mid;
        }
    }
    let found = lo < entries.len() && entries[lo].0 == *id;
    proof {
        lemma_listing_lookup(l, id@);
        lemma_key_before_irreflexive(id@);
        if found {
            assert(l[lo as int].0 == id@);
        } else {
            assert forall|j: int| lo <= j < l.len() implies key_before(id@, (#[trigger] l[j]).0) by {
                assert(l[lo as int].0 == entries[lo as int].0@);
                lemma_key_before_connected(id@, l[lo as int].0);
                if lo < j {
                    assert(key_before(l[lo as int].0, l[j].0));
                    lemma_key_before_transitive(id@, l[lo as int].0, l[j].0);
                }
            }
            if listing_has(l, id@) {
                let j = choose|j: int| 0 <= j < l.len() && (#[trigger] l[j]).0 == id@;
                assert(key_before(l[j].0, id@) || key_before(id@, l[j].0));
            }
        }
    }
    (lo, found)
}

/// Enters a complaint under `id`, in place of the one that stands there if
/// there is one.
fn put_entry(entries: &mut Vec<(String, ComplaintInfo)>, id: String, info: ComplaintInfo)
    requires
        listing_sorted(entry_views(old(entries)@)),
    ensures
        listing_sorted(entry_views(final(entries)@)),
        listing_map(entry_views(final(entries)@)) == listing_map(entry_views(old(entries)@)).insert(
            id@,
            info@,
        ),
{
    let ghost l = entry_views(entries@);
    let (at, found) = locate(entries, &id);
    if found {
        proof {
            assert(l[at as int].0 == id@);
            lemma_listing_update(l, at as int, info@);
            assert(entry_views(entries@.update(at as int, (entries@[at as int].0, info))) =~= l.update(
                at as int,
                (id@, info@),
            ));
        }
        entries[at].1 = info;
    } else {
        proof {
            lemma_listing_insert(l, at as int, id@, info@);
            assert(entry_views(entries@.insert(at as int, (id, info))) =~= l.insert(
                at as int,
                (id@, info@),
            ));
        }
        entries.insert(at, (id, info));
    }
}

/// Copies entries one by one.
fn copy_entries(entries: &Vec<(String, ComplaintInfo)>) -> (copy: Vec<(String, ComplaintInfo)>)
    ensures
        copy.len() == entries.len(),
        forall|i: int|
            0 <= i < entries.len() ==> (#[trigger] copy[i]).0@ == entries[i].0@ && copy[i].1@
                == entries[i].1@,
{
    let mut copy: Vec<(String, ComplaintInfo)> = Vec::new();
    let mut i: usize = 0;
    while i < entries.len()
        invariant
            i <= entries.len(),
            copy.len() == i,
            forall|j: int|
                0 <= j < i ==> (#[trigger] copy[j]).0@ == entries[j].0@ && copy[j].1@
                    == entries[j].1@,
        decreases entries.len() - i,
    {
        copy.push((entries[i].0.clone(), entries[i].1.clone()));
        i += 1;
    }
    copy
}

/// The complaints on file.
///
/// The registry stands for a map from identifiers to records. It keeps its
/// entries in the order of their identifiers, so that no identifier occurs
/// twice and every listing of an unchanged registry is the same.
pub struct AuditLayerContractState {
    complaints: Vec<(String, ComplaintInfo)>,
}

impl View for AuditLayerContractState {
    type V = Map<Seq<char>, ComplaintRecord>;

    closed spec fn view(&self) -> Map<Seq<char>, ComplaintRecord> {
        listing_map(entry_views(self.complaints@))
    }
}

impl Clone for AuditLayerContractState {
    fn clone(&self) -> (r: Self)
        ensures
            r@ == self@,
    {
        proof {
            use_type_invariant(self);
        }
        let entries = copy_entries(&self.complaints);
        assert(entry_views(entries@) =~= entry_views(self.complaints@));
        AuditLayerContractState { complaints: entries }
    }
}

impl AuditLayerContractState {
    #[verifier::type_invariant]
    spec fn well_formed(&self) -> bool {
        listing_sorted(entry_views(self.complaints@))
    }

    /// An empty registry. This never fails.
    pub fn new() -> (r: Result<Self, String>)
        ensures
            r is Ok,
            r->Ok_0@ == Map::<Seq<char>, ComplaintRecord>::empty(),
    {
        Ok(AuditLayerContractState { complaints: Vec::new() })
    }

    /// The registry that holds the given complaints. Where an identifier
    /// comes twice, the later complaint stands.
    pub fn from_complaints(complaints: Vec<(String, ComplaintInfo)>) -> (r: Self)
        ensures
            r@ == collected(entry_views(complaints@)),
    {
        let mut entries: Vec<(String, ComplaintInfo)> = Vec::new();
        let mut i: usize = 0;
        while i < complaints.len()
            invariant
                i <= complaints.len(),
                listing_sorted(entry_views(entries@)),
                listing_map(entry_views(entries@)) == collected(
                    entry_views(complaints@).take(i as int),
                ),
            decreases complaints.len() - i,
        {
            proof {
                let all = entry_views(complaints@);
                assert(all.take(i + 1).drop_last() =~= all.take(i as int));
            }
            put_entry(&mut entries, complaints[i].0.clone(), complaints[i].1.clone());
            i += 1;
        }
        assert(entry_views(complaints@).take(i as int) =~= entry_views(complaints@));
        AuditLayerContractState { complaints: entries }
    }

    /// Hands out the entries to work on. Until the caller has put them
    /// back, the registry holds none.
    fn take_entries(&mut self) -> (entries: Vec<(String, ComplaintInfo)>)
        ensures
            entries@ == old(self).complaints@,
            listing_sorted(entry_views(entries@)),
            listing_map(entry_views(entries@)) == old(self)@,
    {
        proof {
            use_type_invariant(&*self);
        }
        let mut entries: Vec<(String, ComplaintInfo)> = Vec::new();
        core::mem::swap(&mut self.complaints, &mut entries);
        entries
    }

    /// Files a new complaint under `complaint_id`.
    ///
    /// The call is refused when the identifier is already in use; the
    /// complaint on file then stays as it is. Otherwise the complaint is
    /// filed with the status `Filed`, its time of filing and of its last
    /// change of status both `timestamp`, and no proofs. Identifiers, hashes
    /// and timestamps are taken as they come, whatever they hold.
    pub fn complaint_register(
        &mut self,
        complaint_id: String,
        complaint_hash: String,
        user_id: String,
        timestamp: String,
    ) -> (accepted: bool)
        ensures
            accepted == register_accepted(old(self)@, complaint_id@),
            final(self)@ == after_register(
                old(self)@,
                complaint_id@,
                complaint_hash@,
                user_id@,
                timestamp@,
            ),
    {
        let mut entries = self.take_entries();
        let (at, found) = locate(&entries, &complaint_id);
        if found {
            self.complaints = entries;
            return false;
        }
        let new_complaint = ComplaintInfo {
            user_id,
            complaint_hash,
            timestamp: timestamp.clone(),
            status: ComplaintStatus::Filed,
            last_status_update: timestamp,
            proofs: Vec::new(),
        };
        proof {
            let l = entry_views(entries@);
            assert(new_complaint@.proofs =~= Seq::empty());
            assert(new_complaint@ == ComplaintRecord::filed(complaint_hash@, user_id@, timestamp@));
            lemma_listing_insert(l, at as int, complaint_id@, new_complaint@);
            assert(entry_views(entries@.insert(at as int, (complaint_id, new_complaint)))
                =~= l.insert(at as int, (complaint_id@, new_complaint@)));
        }
        entries.insert(at, (complaint_id, new_complaint));
        self.complaints = entries;
        true
    }

    /// Attaches a proof to the complaint `complaint_id`.
    ///
    /// The call is refused when there is no such complaint, or when the
    /// complaint is resolved or rejected. Otherwise the proof is put at the
    /// end of the complaint's proofs, and nothing else changes.
    pub fn register_proof(
        &mut self,
        complaint_id: String,
        proof_hash: String,
        proof_type: String,
        timestamp: String,
    ) -> (accepted: bool)
        ensures
            accepted == proof_accepted(old(self)@, complaint_id@),
            final(self)@ == after_proof(
                old(self)@,
                complaint_id@,
                (ProofRecord { hash: proof_hash@, kind: proof_type@, submitted_at: timestamp@ }),
            ),
    {
        let mut entries = self.take_entries();
        let (at, found) = locate(&entries, &complaint_id);
        proof {
            lemma_listing_lookup(entry_views(entries@), complaint_id@);
            if found {
                assert(entry_views(entries@)[at as int].0 == complaint_id@);
            }
        }
        if !found || entries[at].1.status.is_terminal() {
            self.complaints = entries;
            return false;
        }
        let proof = ProofInfo { proof_hash, proof_type, timestamp };
        let ghost before = entries@;
        entries[at].1.proofs.push(proof);
        proof {
            let l = entry_views(before);
            let changed = l[at as int].1.with_proof(proof@);
            assert(proof_records(entries@[at as int].1.proofs@) =~= proof_records(
                before[at as int].1.proofs@,
            ).push(proof@));
            assert(entries@[at as int].1@ == changed);
            lemma_listing_update(l, at as int, changed);
            assert(entry_views(entries@) =~= l.update(at as int, (l[at as int].0, changed)));
        }
        self.complaints = entries;
        true
    }

    /// Changes the status of the complaint `complaint_id`.
    ///
    /// The call is refused when there is no such complaint, when the
    /// complaint is resolved or rejected, or when `status` is not the name
    /// of a status. Otherwise the complaint takes the status named, and
    /// `timestamp` as the time of its last change of status; to name the
    /// status that it already has is accepted too.
    pub fn update_complaint_status(
        &mut self,
        complaint_id: String,
        status: String,
        timestamp: String,
    ) -> (accepted: bool)
        ensures
            accepted == status_accepted(old(self)@, complaint_id@, status@),
            final(self)@ == after_status(old(self)@, complaint_id@, status@, timestamp@),
    {
        let mut entries = self.take_entries();
        let (at, found) = locate(&entries, &complaint_id);
        proof {
            lemma_listing_lookup(entry_views(entries@), complaint_id@);
            if found {
                assert(entry_views(entries@)[at as int].0 == complaint_id@);
            }
        }
        if !found || entries[at].1.status.is_terminal() {
            self.complaints = entries;
            return false;
        }
        match ComplaintStatus::parse(&status) {
            None => {
                self.complaints = entries;
                false
            },
            Some(new_status) => {
                let ghost before = entries@;
                entries[at].1.status = new_status;
                entries[at].1.last_status_update = timestamp;
                proof {
                    let l = entry_views(before);
                    let changed = l[at as int].1.with_status(new_status, timestamp@);
                    assert(entries@[at as int].1@ == changed);
                    lemma_listing_update(l, at as int, changed);
                    assert(entry_views(entries@) =~= l.update(at as int, (l[at as int].0, changed)));
                }
                self.complaints = entries;
                true
            },
        }
    }

    /// All complaints, each with its identifier, in the order of the
    /// identifiers. The result is a copy: later changes to the registry do
    /// not show in it.
    pub fn get_complaints(&self) -> (all: Vec<(String, ComplaintInfo)>)
        ensures
            is_listing(entry_views(all@), self@),
    {
        proof {
            use_type_invariant(self);
            lemma_sorted_is_listing(entry_views(self.complaints@));
        }
        let all = copy_entries(&self.complaints);
        assert(entry_views(all@) =~= entry_views(self.complaints@));
        all
    }

    /// The complaint kept under `complaint_id`, or `None` when there is
    /// none. The result is a copy.
    pub fn get_complaint(&self, complaint_id: String) -> (found: Option<ComplaintInfo>)
        ensures
            found is Some <==> self@.contains_key(complaint_id@),
            found matches Some(c) ==> c@ == self@[complaint_id@],
    {
        proof {
            use_type_invariant(self);
            lemma_listing_lookup(entry_views(self.complaints@), complaint_id@);
        }
        let (at, found) = locate(&self.complaints, &complaint_id);
        if found {
            assert(entry_views(self.complaints@)[at as int].0 == complaint_id@);
            Some(self.complaints[at].1.clone())
        } else {
            None
        }
    }
}

} // verus!
