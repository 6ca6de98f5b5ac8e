//! The fatal errors of the execution engine.  Every kind is a contract
//! violation — bad decoder output or an unknown mnemonic — so none is
//! recoverable: the first one stops the run.

use vstd::prelude::*;
use crate::parser::Mnemonic;

verus! {

/// An error of the engine, carrying the offending text or register id so
/// the failure is diagnosable without re-running.
#[derive(Debug, PartialEq, Eq)]
pub enum ExecutionError {
    /// The mnemonic (given in full) starts with no recognized base.
    UnrecognizedMnemonic(String),
    /// The remainder after a valid base is not a legal condition code.
    UnknownCondition(String),
    /// The operand list fits no legal shape of the named base mnemonic.
    OperandShapeMismatch(Mnemonic),
    /// A register id falls outside the 17-slot file.
    UnknownRegister(u8),
    /// The source of MRS is not the status register.
    InvalidOperand(u8),
}

/// The mathematical image of an [`ExecutionError`]: the same five kinds,
/// with each carried string seen as its character sequence.
pub enum ErrorKind {
    UnrecognizedMnemonic(Seq<char>),
    UnknownCondition(Seq<char>),
    OperandShapeMismatch(Mnemonic),
    UnknownRegister(u8),
    InvalidOperand(u8),
}

impl View for ExecutionError {
    type V = ErrorKind;

    open spec fn view(&self) -> ErrorKind {
        match self {
            ExecutionError::UnrecognizedMnemonic(s) => ErrorKind::UnrecognizedMnemonic(s@),
            ExecutionError::UnknownCondition(s) => ErrorKind::UnknownCondition(s@),
            ExecutionError::OperandShapeMismatch(m) => ErrorKind::OperandShapeMismatch(*m),
            ExecutionError::UnknownRegister(id) => ErrorKind::UnknownRegister(*id),
            ExecutionError::InvalidOperand(id) => ErrorKind::InvalidOperand(*id),
        }
    }
}

/// An executable result agrees with a specification-level one: equal values
/// on success, and an error whose image is the specified kind on failure.
pub open spec fn res_matches<T>(r: Result<T, ExecutionError>, s: Result<T, ErrorKind>) -> bool {
    match (r, s) {
        (Ok(a), Ok(b)) => a == b,
        (Err(e), Err(k)) => e@ == k,
        _ => false,
    }
}

} // verus!
