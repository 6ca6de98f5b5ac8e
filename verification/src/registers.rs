//! The simulated register file: seventeen 32-bit cells, indexed 0 to 16.
//! Slots 0 to 12 are R0 to R12, then SP, LR, PC, and the status word at
//! slot 16.  Every architectural register id maps to exactly one slot; an
//! id outside the file is a decoder-contract violation.

use vstd::prelude::*;
use crate::error::ExecutionError;

verus! {

/// The slot that holds the packed status word.  The architectural APSR and
/// SPSR names both address this slot.
pub const STATUS_SLOT: u8 = 16;

/// The register file.  Its view is the sequence of the seventeen cells.
pub struct Registers {
    cells: [i32; 17],
}

impl View for Registers {
    type V = Seq<i32>;

    closed spec fn view(&self) -> Seq<i32> {
        self.cells@
    }
}

/// A register file always has exactly seventeen cells.
pub broadcast proof fn lemma_registers_len(r: &Registers)
    ensures
        (#[trigger] r@).len() == 17,
{
}

impl Registers {
    /// A fresh file with every cell zero.
    pub fn new() -> (r: Registers)
        ensures
            r@.len() == 17,
            forall|i: int| 0 <= i < 17 ==> r@[i] == 0i32,
    {
        Registers { cells: [0i32; 17] }
    }

    /// The value of slot `id`, or `UnknownRegister` if the id falls outside
    /// the file.
    pub fn get(&self, id: u8) -> (r: Result<i32, ExecutionError>)
        ensures
            id < 17 ==> r == Ok::<i32, ExecutionError>(self@[id as int]),
            id >= 17 ==> r == Err::<i32, ExecutionError>(ExecutionError::UnknownRegister(id)),
    {
        if id < 17 {
            Ok(self.cells[id as usize])
        } else {
            Err(ExecutionError::UnknownRegister(id))
        }
    }

    /// Writes slot `id`, or fails with `UnknownRegister` leaving the file
    /// unchanged.
    pub fn set(&mut self, id: u8, v: i32) -> (r: Result<(), ExecutionError>)
        ensures
            id < 17 ==> r == Ok::<(), ExecutionError>(()) && final(self)@ == old(self)@.update(
                id as int,
                v,
            ),
            id >= 17 ==> r == Err::<(), ExecutionError>(ExecutionError::UnknownRegister(id))
                && final(self)@ == old(self)@,
    {
        if id < 17 {
            self.cells[id as usize] = v;
            Ok(())
        } else {
            Err(ExecutionError::UnknownRegister(id))
        }
    }
}

} // verus!
