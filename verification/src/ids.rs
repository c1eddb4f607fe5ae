//! 256-bit identifiers of actors and messages, held as two 128-bit halves.

use vstd::prelude::*;

verus! {

/// Identifier of a user or of a program.
#[derive(Clone, Copy, Debug, PartialEq, Eq, Hash, Structural)]
pub struct ActorId {
    /// The upper 128 bits.
    pub hi: u128,
    /// The lower 128 bits.
    pub lo: u128,
}

/// Identifier of a message.
#[derive(Clone, Copy, Debug, PartialEq, Eq, Hash, Structural)]
pub struct MessageId {
    /// The upper 128 bits.
    pub hi: u128,
    /// The lower 128 bits.
    pub lo: u128,
}

impl ActorId {
    pub fn new(hi: u128, lo: u128) -> (id: ActorId)
        ensures
            id == (ActorId { hi, lo }),
    {
        ActorId { hi, lo }
    }
}

impl MessageId {
    /// The identifier with all bits clear: it stands for "no message".
    pub open spec fn spec_zero() -> MessageId {
        MessageId { hi: 0, lo: 0 }
    }

    #[verifier::when_used_as_spec(spec_zero)]
    pub fn zero() -> (id: MessageId)
        ensures
            id == MessageId::spec_zero(),
    {
        MessageId { hi: 0, lo: 0 }
    }

    pub fn new(hi: u128, lo: u128) -> (id: MessageId)
        ensures
            id == (MessageId { hi, lo }),
    {
        MessageId { hi, lo }
    }

    pub fn is_zero(&self) -> (zero: bool)
        ensures
            zero == (*self == MessageId::spec_zero()),
    {
        self.hi == 0 && self.lo == 0
    }
}

} // verus!
