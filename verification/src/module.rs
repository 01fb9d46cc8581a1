//! The contract between the engine and an information provider.

use vstd::prelude::*;
use crate::error::{BarError, BarErrorView};
use crate::message::{ModuleOutput, ModuleOutputView};

verus! {

/// What a provider hands back when it is queried, as a mathematical
/// value.
pub type Outcome = Result<ModuleOutputView, BarErrorView>;

/// The mathematical value of what a provider hands back.
pub open spec fn outcome_view(r: Result<ModuleOutput, BarError>) -> Outcome {
    match r {
        Ok(b) => Ok(b@),
        Err(e) => Err(e@),
    }
}

/// An information provider: it has a name and produces one block each
/// time it is queried.
pub trait Module {
    /// The provider's name. A provider that is verified says here what
    /// its name is; of another nothing is known.
    open spec fn label(&self) -> Seq<char> {
        arbitrary()
    }

    /// Whether `outcome` is what the provider, in the state it is in now,
    /// has just handed back. A provider says here what it promises of its
    /// blocks and errors; one that says nothing promises nothing.
    open spec fn yields(&self, outcome: Outcome) -> bool {
        true
    }

    /// The provider's name: stable and not empty.
    fn name(&self) -> (r: &'static str)
        ensures
            r@ == self.label(),
            r@.len() > 0,
    ;

    /// Queries the provider once: a block, or the reason why there is
    /// none. The provider may change; its name does not.
    fn output(&mut self) -> (r: Result<ModuleOutput, BarError>)
        ensures
            final(self).yields(outcome_view(r)),
            final(self).label() == old(self).label(),
    ;
}

} // verus!
