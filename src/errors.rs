//! The error a failed round transition reports.
use std::sync::Arc;
use vstd::prelude::*;

use crate::distribute::DistributeError;

verus! {

/// Why a transition of a round failed.
#[derive(Debug)]
pub enum TransitionError {
    /// A call to the chat platform failed.
    Serenity,
    /// The roles could not be distributed.
    Distribute(DistributeError),
    /// Any other failure, with its description.
    WithReason { reason: String },
}

impl TransitionError {
    /// A failure described by `reason`.
    pub fn new(reason: String) -> (r: Self)
        ensures
            r matches TransitionError::WithReason { reason: s } && s@ == reason@,
    {
        TransitionError::WithReason { reason }
    }

    /// The error behind a shared pointer.
    pub fn arced(self) -> (r: Arc<Self>)
        ensures
            *r == self,
    {
        Arc::new(self)
    }
}

/// A failure carried as its text.
#[derive(Debug)]
pub struct StringError(String);

impl StringError {
    /// The failure described by `text`.
    pub fn new(text: String) -> (r: Self)
        ensures
            r.text_spec() == text@,
    {
        StringError(text)
    }

    pub closed spec fn text_spec(&self) -> Seq<char> {
        self.0@
    }

    /// The description of the failure.
    pub fn text(&self) -> (r: &str)
        ensures
            r@ == self.text_spec(),
    {
        self.0.as_str()
    }
}

/// Setting up a channel category failed.
#[derive(Debug, PartialEq, Eq, Structural)]
pub enum GetCategoryError {
    CreatingCategory,
}

} // verus!
