use vstd::prelude::*;

verus! {

/// What can go wrong in selecting an interpreter or running code through it.
#[derive(Clone, Debug, PartialEq, Eq)]
pub enum SniprunError {
    /// The code could not be compiled.
    CompilationError,
    /// The user's code failed; holds the actionable line of its error output.
    RuntimeError(String),
    /// An internal failure of the interpreter, independent of the user's code.
    InterpreterError,
    /// The interpreter cannot do what was asked.
    InterpreterLimitationError(String),
    /// Selection or setup failed.
    CustomError(String),
}

} // verus!
