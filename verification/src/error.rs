//! The failures that an operation on an item can report.

use vstd::prelude::*;

verus! {

/// The two sides of a conflict that no automatic merge could settle, handed
/// back untouched so that a person can choose between them.
#[derive(Clone, Debug, PartialEq, Eq)]
pub struct Escalation {
    /// The identifier of the item in conflict.
    pub ident: String,
    /// The record of this side, as it was found.
    pub ours: Vec<u8>,
    /// The record of the other side, as it was found.
    pub theirs: Vec<u8>,
}

/// Why an operation failed. No failure ends the process: each is contained
/// by the session that asked for the operation.
#[derive(Clone, Debug, PartialEq, Eq)]
pub enum FanlingError {
    /// A kind tag that no policy is registered for.
    Configuration(String),
    /// User input that lacks a mandatory field or holds an invalid one.
    Validation(String),
    /// A persisted record that is malformed.
    Deserialize(String),
    /// A record that could not be written out as text.
    Encode(String),
    /// The view could not be rendered.
    Render(String),
    /// A conflict that needs a human decision.
    ConflictUnresolvable(Escalation),
    /// An action was invoked on a kind that has none: an integration bug.
    Programming(String),
    /// An action identifier that the dispatcher does not know.
    UnknownAction(String),
}

impl FanlingError {
    /// The text that the failure carries.
    pub open spec fn spec_message(&self) -> Seq<char> {
        match *self {
            FanlingError::Configuration(m) => m@,
            FanlingError::Validation(m) => m@,
            FanlingError::Deserialize(m) => m@,
            FanlingError::Encode(m) => m@,
            FanlingError::Render(m) => m@,
            FanlingError::ConflictUnresolvable(e) => e.ident@,
            FanlingError::Programming(m) => m@,
            FanlingError::UnknownAction(m) => m@,
        }
    }

    /// The text that the failure carries; for an escalated conflict, the
    /// identifier of the item.
    pub fn message(&self) -> (res: String)
        ensures
            res@ == self.spec_message(),
    {
        match self {
            FanlingError::Configuration(m) => m.clone(),
            FanlingError::Validation(m) => m.clone(),
            FanlingError::Deserialize(m) => m.clone(),
            FanlingError::Encode(m) => m.clone(),
            FanlingError::Render(m) => m.clone(),
            FanlingError::ConflictUnresolvable(e) => e.ident.clone(),
            FanlingError::Programming(m) => m.clone(),
            FanlingError::UnknownAction(m) => m.clone(),
        }
    }
}

} // verus!
