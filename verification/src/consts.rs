use vstd::prelude::*;

verus! {

/// Address of the well-known sysvar owner program
/// (`Sysvar1111111111111111111111111111111111111`).
pub const SYSVAR_PROGRAM_ID: [u8; 32] = [
    6, 167, 213, 23, 24, 117, 247, 41, 199, 61, 147, 64, 143, 33, 97, 32, 6, 126, 216, 140, 118,
    224, 140, 40, 127, 193, 148, 96, 0, 0, 0, 0,
];

/// Address of the system program, also the owner sentinel of a closed account.
pub const SYSTEM_PROGRAM_ID: [u8; 32] = [
    0, 0, 0, 0, 0, 0, 0, 0, 0, 0, 0, 0, 0, 0, 0, 0, 0, 0, 0, 0, 0, 0, 0, 0, 0, 0, 0, 0, 0, 0, 0,
    0,
];

/// Fixed discriminator byte of the event envelope; record types keep 0-254.
pub const EMIT_EVENT_DISCRIMINATOR: u8 = 255;

/// Longest event payload: the runtime's self-call return-data buffer is 1024
/// bytes and one byte is taken by the envelope discriminator.
pub const MAX_CPI_INSTRUCTION_DATA_LEN: usize = 1024 - 1;

/// Greatest number of byte-string slots a derivation hash input may use.
pub const MAX_SEEDS: usize = 16;

/// Domain-separation marker appended to every derivation hash input: the
/// bytes of `ProgramDerivedAddress`. It keeps derived addresses from being
/// confused with hashes over seed material alone.
pub const PDA_MARKER: [u8; 21] = [
    80, 114, 111, 103, 114, 97, 109, 68, 101, 114, 105, 118, 101, 100, 65, 100, 100, 114, 101,
    115, 115,
];

} // verus!
