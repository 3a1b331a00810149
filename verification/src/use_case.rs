//! The application-level operation shape: every use case executes one
//! input against its repository and yields one output or one error.

use vstd::prelude::*;

verus! {

/// A single application operation. Each implementation fixes, as spec
/// functions, what it requires of its state and input (`pre`) and how the
/// outcome and next state relate to the prior state and input (`post`);
/// `execute` is then proved against exactly that contract.
pub trait UseCase<Input, Output, Error>: Sized {
    /// What must hold of the use case's state and input before execution.
    spec fn pre(&self, input: Input) -> bool;

    /// How the outcome `r` and the state `next` after execution relate to
    /// the state `self` and the `input` before it.
    spec fn post(&self, next: Self, input: Input, r: Result<Output, Error>) -> bool;

    /// Runs the operation once: validates the input, delegates to the
    /// repository, and maps any storage error into `Error`.
    fn execute(&mut self, input: Input) -> (r: Result<Output, Error>)
        requires
            old(self).pre(input),
        ensures
            old(self).post(*final(self), input, r),
    ;
}

} // verus!
