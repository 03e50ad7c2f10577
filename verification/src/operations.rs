//! The names of the five operations and of their parameters, for a host
//! that describes the registry to its callers.

use vstd::prelude::*;
use vstd::string::StringExecFns;

verus! {

/// One of the operations that the registry offers.
#[derive(Clone, Copy, Debug, PartialEq, Eq, Structural)]
pub enum Operation {
    ComplaintRegister,
    RegisterProof,
    UpdateComplaintStatus,
    GetComplaints,
    GetComplaint,
}

/// A parameter of an operation.
#[derive(Debug, PartialEq, Eq)]
pub struct Parameter {
    pub name: String,
    pub required: bool,
}

/// What a sequence of parameters stands for: each name with whether it
/// must be given, in the same order.
pub open spec fn parameter_views(parameters: Seq<Parameter>) -> Seq<(Seq<char>, bool)> {
    parameters.map_values(|p: Parameter| (p.name@, p.required))
}

impl Operation {
    /// The name under which the operation is called.
    pub open spec fn label(self) -> Seq<char> {
        match self {
            Operation::ComplaintRegister => "complaint_register"@,
            Operation::RegisterProof => "register_proof"@,
            Operation::UpdateComplaintStatus => "update_complaint_status"@,
            Operation::GetComplaints => "get_complaints"@,
            Operation::GetComplaint => "get_complaint"@,
        }
    }

    /// The names of the operation's parameters, in the order in which they
    /// are passed. Every parameter must be given.
    pub open spec fn parameter_labels(self) -> Seq<Seq<char>> {
        match self {
            Operation::ComplaintRegister => seq![
                "complaint_id"@,
                "complaint_hash"@,
                "user_id"@,
                "timestamp"@,
            ],
            Operation::RegisterProof => seq![
                "complaint_id"@,
                "proof_hash"@,
                "proof_type"@,
                "timestamp"@,
            ],
            Operation::UpdateComplaintStatus => seq!["complaint_id"@, "status"@, "timestamp"@],
            Operation::GetComplaints => seq![],
            Operation::GetComplaint => seq!["complaint_id"@],
        }
    }

    /// Whether the operation may change the registry.
    pub open spec fn mutating(self) -> bool {
        self is ComplaintRegister || self is RegisterProof || self is UpdateComplaintStatus
    }

    /// The five operations: first those that change the registry, then
    /// those that read it.
    pub fn all() -> (r: Vec<Operation>)
        ensures
            r@ == seq![
                Operation::ComplaintRegister,
                Operation::RegisterProof,
                Operation::UpdateComplaintStatus,
                Operation::GetComplaints,
                Operation::GetComplaint,
            ],
    {
        let mut r: Vec<Operation> = Vec::new();
        r.push(Operation::ComplaintRegister);
        r.push(Operation::RegisterProof);
        r.push(Operation::UpdateComplaintStatus);
        r.push(Operation::GetComplaints);
        r.push(Operation::GetComplaint);
        r
    }

    /// The operation's name as an owned string.
    pub fn name(self) -> (r: String)
        ensures
            r@ == self.label(),
    {
        match self {
            Operation::ComplaintRegister => String::from_str("complaint_register"),
            Operation::RegisterProof => String::from_str("register_proof"),
            Operation::UpdateComplaintStatus => String::from_str("update_complaint_status"),
            Operation::GetComplaints => String::from_str("get_complaints"),
            Operation::GetComplaint => String::from_str("get_complaint"),
        }
    }

    /// Whether the operation may change the registry.
    #[verifier::when_used_as_spec(mutating)]
    pub fn is_mutating(self) -> (r: bool)
        ensures
            r == self.mutating(),
    {
        match self {
            Operation::ComplaintRegister => true,
            Operation::RegisterProof => true,
            Operation::UpdateComplaintStatus => true,
            Operation::GetComplaints => false,
            Operation::GetComplaint => false,
        }
    }

    /// The operation's parameters in the order in which they are passed,
    /// each marked as required.
    pub fn parameters(self) -> (r: Vec<Parameter>)
        ensures
            parameter_views(r@) == self.parameter_labels().map_values(|n: Seq<char>| (n, true)),
    {
        let mut r: Vec<Parameter> = Vec::new();
        match self {
            Operation::ComplaintRegister => {
                r.push(required("complaint_id"));
                r.push(required("complaint_hash"));
                r.push(required("user_id"));
                r.push(required("timestamp"));
            },
            Operation::RegisterProof => {
                r.push(required("complaint_id"));
                r.push(required("proof_hash"));
                r.push(required("proof_type"));
                r.push(required("timestamp"));
            },
            Operation::UpdateComplaintStatus => {
                r.push(required("complaint_id"));
                r.push(required("status"));
                r.push(required("timestamp"));
            },
            Operation::GetComplaints => {},
            Operation::GetComplaint => {
                r.push(required("complaint_id"));
            },
        }
        r
    }
}

/// A parameter of the given name that must be given.
fn required(name: &str) -> (p: Parameter)
    ensures
        p.name@ == name@,
        p.required,
{
    Parameter { name: String::from_str(name), required: true }
}

} // verus!
