//! Semantic core of a small ARMv4 instruction interpreter.
//!
//! Given a sequence of already-decoded instructions, the engine updates a
//! simulated register file and status word exactly as the hardware would for
//! the arithmetic, logical, shift, compare and move-status operations it
//! supports.  Assembling, object-file handling and instruction decoding are
//! outside collaborators; the library only consumes their plain-value output.

pub mod alu;
pub mod bits;
pub mod engine;
pub mod error;
pub mod flags;
pub mod parser;
pub mod registers;
pub mod shifter;
