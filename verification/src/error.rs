use vstd::prelude::*;

verus! {

/// The Ruby exception class an error is raised as.
#[derive(Clone, Copy, Debug, PartialEq, Eq, Structural)]
pub enum ErrorKind {
    /// `ArgumentError`
    ArgumentError,
    /// `TypeError`
    TypeError,
    /// `Wasmtime::Error`
    WasmtimeError,
}

/// An error to be raised in Ruby: its exception class and its message.
#[derive(Debug)]
pub struct RbError {
    pub kind: ErrorKind,
    pub message: String,
}

impl View for RbError {
    type V = (ErrorKind, Seq<char>);

    open spec fn view(&self) -> (ErrorKind, Seq<char>) {
        (self.kind, self.message@)
    }
}

impl RbError {
    pub fn new(kind: ErrorKind, message: String) -> (e: RbError)
        ensures
            e@ == (kind, message@),
    {
        RbError { kind, message }
    }
}

} // verus!
