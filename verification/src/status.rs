//! The lifecycle states of a complaint and their textual names.

use vstd::prelude::*;
use vstd::string::StringExecFns;

verus! {

/// Lifecycle state of a complaint.
///
/// `Filed` and `UnderInvestigation` are the active states; `Resolved` and
/// `Rejected` are terminal.
#[derive(Clone, Copy, Debug, PartialEq, Eq, Structural)]
pub enum ComplaintStatus {
    Filed,
    UnderInvestigation,
    Resolved,
    Rejected,
}

impl ComplaintStatus {
    /// Whether the state is terminal, so that the complaint is frozen.
    pub open spec fn terminal(self) -> bool {
        self is Resolved || self is Rejected
    }

    /// The name under which callers refer to the state.
    pub open spec fn label(self) -> Seq<char> {
        match self {
            ComplaintStatus::Filed => "FILED"@,
            ComplaintStatus::UnderInvestigation => "UNDER_INVESTIGATION"@,
            ComplaintStatus::Resolved => "RESOLVED"@,
            ComplaintStatus::Rejected => "REJECTED"@,
        }
    }

    /// The state that a piece of text names, if it names one.
    pub open spec fn from_label(text: Seq<char>) -> Option<ComplaintStatus> {
        if text == ComplaintStatus::Filed.label() {
            Some(ComplaintStatus::Filed)
        } else if text == ComplaintStatus::UnderInvestigation.label() {
            Some(ComplaintStatus::UnderInvestigation)
        } else if text == ComplaintStatus::Resolved.label() {
            Some(ComplaintStatus::Resolved)
        } else if text == ComplaintStatus::Rejected.label() {
            Some(ComplaintStatus::Rejected)
        } else {
            None
        }
    }

    /// The four names are pairwise different, so reading a name back gives
    /// the state it was taken from.
    pub proof fn lemma_label_round_trip(self)
        ensures
            ComplaintStatus::from_label(self.label()) == Some(self),
    {
        reveal_strlit("FILED");
        reveal_strlit("UNDER_INVESTIGATION");
        reveal_strlit("RESOLVED");
        reveal_strlit("REJECTED");
        assert("FILED"@.len() == 5);
        assert("UNDER_INVESTIGATION"@.len() == 19);
        assert("RESOLVED"@.len() == 8);
        assert("REJECTED"@.len() == 8);
        assert("RESOLVED"@[2] == 'S' && "REJECTED"@[2] == 'J');
    }

    /// Text names a state exactly when it is that state's label.
    pub proof fn lemma_from_label_exact(text: Seq<char>)
        ensures
            match ComplaintStatus::from_label(text) {
                Some(s) => text == s.label(),
                None => forall|s: ComplaintStatus| text != #[trigger] s.label(),
            },
    {
    }

    /// Whether the state is terminal.
    #[verifier::when_used_as_spec(terminal)]
    pub fn is_terminal(self) -> (r: bool)
        ensures
            r == self.terminal(),
    {
        match self {
            ComplaintStatus::Filed => false,
            ComplaintStatus::UnderInvestigation => false,
            ComplaintStatus::Resolved => true,
            ComplaintStatus::Rejected => true,
        }
    }

    /// The state's name as an owned string.
    pub fn name(self) -> (r: String)
        ensures
            r@ == self.label(),
    {
        match self {
            ComplaintStatus::Filed => String::from_str("FILED"),
            ComplaintStatus::UnderInvestigation => String::from_str("UNDER_INVESTIGATION"),
            ComplaintStatus::Resolved => String::from_str("RESOLVED"),
            ComplaintStatus::Rejected => String::from_str("REJECTED"),
        }
    }

    /// Reads a state from its name. Anything but one of the four names,
    /// letter for letter, is refused.
    pub fn parse(text: &String) -> (r: Option<ComplaintStatus>)
        ensures
            r == ComplaintStatus::from_label(text@),
    {
        if *text == ComplaintStatus::Filed.name() {
            Some(ComplaintStatus::Filed)
        } else if *text == ComplaintStatus::UnderInvestigation.name() {
            Some(ComplaintStatus::UnderInvestigation)
        } else if *text == ComplaintStatus::Resolved.name() {
            Some(ComplaintStatus::Resolved)
        } else if *text == ComplaintStatus::Rejected.name() {
            Some(ComplaintStatus::Rejected)
        } else {
            None
        }
    }
}

} // verus!
