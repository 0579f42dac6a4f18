//! What can stop the machine.

use vstd::prelude::*;

verus! {

/// The opcode table that a byte was looked up in.
#[derive(Clone, Copy, Debug, PartialEq, Eq, Structural)]
pub enum OpcodePage {
    Plain,
    Prefixed,
}

/// Every failure the engine and the bus report. All of them are fatal to the
/// session: none is recovered from internally.
#[derive(Clone, Copy, Debug, PartialEq, Eq, Structural)]
pub enum EmulatorError {
    /// The table of `page` has no entry for `byte`.
    UnimplementedOpcode { byte: u8, page: OpcodePage },
    /// The instruction decoded, but this form of it has no execution rule.
    UnimplementedInstructionForm,
    /// A bus access fell outside every declared region.
    AddressOutOfRange { address: u16 },
    /// A boot or cartridge image of the wrong size was supplied.
    ConfigurationError,
}

} // verus!
