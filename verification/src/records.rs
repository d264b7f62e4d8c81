use vstd::prelude::*;

use crate::consts::EMIT_EVENT_DISCRIMINATOR;
use crate::deserialize::{Account, Discriminator, Instruction};

verus! {

/// Discriminator of the [`Counter`] record type.
pub const COUNTER_DISCRIMINATOR: u8 = 1;

/// A minimal PDA-backed record showing the layout conventions: byte 0 is the
/// type's discriminator, byte 1 by convention holds the bump of the record's
/// derived address, and a fixed-width payload follows.
#[derive(Clone, Copy, Debug, PartialEq, Eq)]
pub struct Counter {
    /// The record's tag byte, always [`COUNTER_DISCRIMINATOR`].
    pub discriminator: u8,
    /// The bump of the account's derived address.
    pub bump: u8,
    /// The counter's value.
    pub value: u64,
}

impl Discriminator for Counter {
    open spec fn spec_discriminator() -> u8 {
        COUNTER_DISCRIMINATOR
    }

    fn discriminator() -> (d: u8) {
        COUNTER_DISCRIMINATOR
    }
}

impl Account for Counter {

}

/// The one-byte header of an event envelope: the fixed event discriminator
/// followed by the event's untyped payload as the trailing body.
#[derive(Clone, Copy, Debug, PartialEq, Eq)]
pub struct EventHeader {
    /// The envelope's tag byte, always [`EMIT_EVENT_DISCRIMINATOR`].
    pub discriminator: u8,
}

impl Discriminator for EventHeader {
    open spec fn spec_discriminator() -> u8 {
        EMIT_EVENT_DISCRIMINATOR
    }

    fn discriminator() -> (d: u8) {
        EMIT_EVENT_DISCRIMINATOR
    }
}

impl Account for EventHeader {

}

/// A minimal instruction payload for [`Counter`]: the amount to add.
#[derive(Clone, Copy, Debug, PartialEq, Eq)]
pub struct AdjustCounter {
    /// The amount to add to the counter's value.
    pub amount: u64,
}

impl Instruction for AdjustCounter {

}

} // verus!
