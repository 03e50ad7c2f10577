//! Complaint and proof records, and the mathematical values they stand for.

use vstd::prelude::*;
use crate::status::ComplaintStatus;

verus! {

/// What a [`ProofInfo`] stands for: a piece of evidence, known by the
/// fingerprint of its content, its classification and the time at which it
/// was submitted.
pub struct ProofRecord {
    pub hash: Seq<char>,
    pub kind: Seq<char>,
    pub submitted_at: Seq<char>,
}

/// What a [`ComplaintInfo`] stands for.
pub struct ComplaintRecord {
    pub user_id: Seq<char>,
    pub complaint_hash: Seq<char>,
    pub filed_at: Seq<char>,
    pub status: ComplaintStatus,
    pub last_status_update: Seq<char>,
    pub proofs: Seq<ProofRecord>,
}

impl ComplaintRecord {
    /// The record of a complaint that has just been filed.
    pub open spec fn filed(
        complaint_hash: Seq<char>,
        user_id: Seq<char>,
        timestamp: Seq<char>,
    ) -> ComplaintRecord {
        ComplaintRecord {
            user_id,
            complaint_hash,
            filed_at: timestamp,
            status: ComplaintStatus::Filed,
            last_status_update: timestamp,
            proofs: Seq::empty(),
        }
    }

    /// The record with one more proof at the end of its proofs.
    pub open spec fn with_proof(self, proof: ProofRecord) -> ComplaintRecord {
        ComplaintRecord { proofs: self.proofs.push(proof), ..self }
    }

    /// The record after a change of status at the given time.
    pub open spec fn with_status(self, status: ComplaintStatus, timestamp: Seq<char>) -> ComplaintRecord {
        ComplaintRecord { status, last_status_update: timestamp, ..self }
    }

    /// Whether the record can no longer change.
    pub open spec fn frozen(self) -> bool {
        self.status.terminal()
    }
}

/// A piece of evidence attached to a complaint.
#[derive(Debug, PartialEq, Eq)]
pub struct ProofInfo {
    pub proof_hash: String,
    pub proof_type: String,
    pub timestamp: String,
}

impl View for ProofInfo {
    type V = ProofRecord;

    open spec fn view(&self) -> ProofRecord {
        ProofRecord {
            hash: self.proof_hash@,
            kind: self.proof_type@,
            submitted_at: self.timestamp@,
        }
    }
}

impl Clone for ProofInfo {
    fn clone(&self) -> (r: Self)
        ensures
            r@ == self@,
    {
        ProofInfo {
            proof_hash: self.proof_hash.clone(),
            proof_type: self.proof_type.clone(),
            timestamp: self.timestamp.clone(),
        }
    }
}

/// The records that a sequence of proofs stands for, in the same order.
pub open spec fn proof_records(proofs: Seq<ProofInfo>) -> Seq<ProofRecord> {
    proofs.map_values(|p: ProofInfo| p@)
}

/// A complaint as the registry keeps it.
#[derive(Debug, PartialEq, Eq)]
pub struct ComplaintInfo {
    pub user_id: String,
    pub complaint_hash: String,
    pub timestamp: String,
    pub status: ComplaintStatus,
    pub last_status_update: String,
    pub proofs: Vec<ProofInfo>,
}

impl View for ComplaintInfo {
    type V = ComplaintRecord;

    open spec fn view(&self) -> ComplaintRecord {
        ComplaintRecord {
            user_id: self.user_id@,
            complaint_hash: self.complaint_hash@,
            filed_at: self.timestamp@,
            status: self.status,
            last_status_update: self.last_status_update@,
            proofs: proof_records(self.proofs@),
        }
    }
}

impl Clone for ComplaintInfo {
    fn clone(&self) -> (r: Self)
        ensures
            r@ == self@,
    {
        let mut proofs: Vec<ProofInfo> = Vec::new();
        let mut i: usize = 0;
        while i < self.proofs.len()
            invariant
                i <= self.proofs.len(),
                proofs.len() == i,
                forall|j: int| 0 <= j < i ==> proofs[j]@ == self.proofs[j]@,
            decreases self.proofs.len() - i,
        {
            proofs.push(self.proofs[i].clone());
            i += 1;
        }
        assert(proof_records(proofs@) =~= proof_records(self.proofs@));
        ComplaintInfo {
            user_id: self.user_id.clone(),
            complaint_hash: self.complaint_hash.clone(),
            timestamp: self.timestamp.clone(),
            status: self.status,
            last_status_update: self.last_status_update.clone(),
            proofs,
        }
    }
}

} // verus!
