//! The faults of the core.
use vstd::prelude::*;

verus! {

/// The conditions that abort the step in progress.
///
/// None of them is recovered from inside the core: the function that meets one
/// stops where it stands and hands the fault to its caller.
#[derive(Debug, Clone, Copy, PartialEq, Eq, Structural)]
pub enum Fault {
    /// The opcode, or one of its fields, is a reserved or unknown bit pattern.
    DecodeFailure,
    /// The bus answered "absent" to a read or write that the step needed.
    BusAbsent,
    /// An operand was used in a way its kind does not allow, such as a long
    /// displacement of the program counter or a store to a constant.
    IllegalStateUse,
    /// The instruction or addressing form is recognised but the engine does
    /// not carry it out.
    Unimplemented,
}

} // verus!
