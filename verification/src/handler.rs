use vstd::prelude::*;

use crate::errors::Error;

verus! {

/// The error-reporting policy of one copy operation.
///
/// Exactly one value of this type governs a whole top-level call. Every
/// non-fatal per-entry failure is passed to [`Handler::handle`]; the policy
/// decides whether the error is kept, and the walk goes on either way.
#[derive(Debug)]
pub enum Handler {
    /// Append every reported error to this vector, in the order reported.
    Vector(Vec<Error>),
    /// Retains and emits nothing: the library performs no logging itself,
    /// as the backend is a side-effecting collaborator outside it. A caller
    /// that wants each error forwarded to a logging backend runs the copy
    /// with [`Handler::Vector`] and logs the collected errors afterward.
    Log,
    /// Silently swallow errors.
    Ignore,
}

impl Handler {
    /// The errors this policy has retained so far: the accumulated vector
    /// for [`Handler::Vector`], nothing for the other policies.
    pub open spec fn recorded(&self) -> Seq<Error> {
        match self {
            Handler::Vector(v) => v@,
            _ => Seq::empty(),
        }
    }

    pub open spec fn is_vector(&self) -> bool {
        self matches Handler::Vector(_)
    }

    pub open spec fn is_log(&self) -> bool {
        self matches Handler::Log
    }

    pub open spec fn is_ignore(&self) -> bool {
        self matches Handler::Ignore
    }

    /// Report one error to the policy. Never fails and never halts the walk:
    /// an accumulating policy appends the error, the others drop it.
    pub fn handle(&mut self, error: Error)
        ensures
            final(self).is_vector() == old(self).is_vector(),
            final(self).is_log() == old(self).is_log(),
            final(self).is_ignore() == old(self).is_ignore(),
            old(self).is_vector() ==> final(self).recorded() == old(self).recorded().push(error),
            !old(self).is_vector() ==> *final(self) == *old(self),
    {
        match self {
            Handler::Vector(vec) => vec.push(error),
            _ => (),
        }
    }
}

} // verus!
