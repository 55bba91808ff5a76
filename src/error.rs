use vstd::prelude::*;

verus! {

/// The ways in which encoding a value for the kernel can fail.
#[derive(Debug, Clone, Copy, PartialEq, Eq)]
pub enum ErrorKind {
    /// The caller handed over a value that cannot be encoded; the text names the cause.
    InvalidArgument(&'static str),
}

} // verus!
