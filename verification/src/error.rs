//! The conditions under which decoding stops.

use vstd::prelude::*;

verus! {

/// The stage of the pipeline at which a decoding step was made.
#[derive(Clone, Copy, Debug, PartialEq, Eq)]
pub enum Stage {
    /// The arguments of the outer call.
    OuterCall,
    /// The 32-byte execution mode.
    Mode,
    /// The payload that carries the inner calls.
    Payload,
    /// The call data of one inner call.
    InnerCall,
}

/// Why a byte string was not decoded. A variant carries what was found (a
/// length, a selector) and, where the variant alone does not tell it, the
/// stage, so that a caller can log both.
#[derive(Clone, Copy, Debug, PartialEq, Eq)]
pub enum DecodeError {
    /// The execution mode is not 32 bytes long.
    MalformedMode { len: usize },
    /// The ABI codec rejected a buffer of `len` bytes, or returned values of
    /// another shape than the layout asked for.
    MalformedAbi { stage: Stage, len: usize },
    /// A packed single payload is shorter than address and value together.
    TruncatedPayload { len: usize },
    /// Call data is shorter than a selector.
    TruncatedSelector { stage: Stage, len: usize },
    /// The three parallel arrays are not of one length.
    ArrayLengthMismatch { targets: usize, values: usize, calldatas: usize },
    /// An inner call does not start with the selector of the expected kind.
    SelectorMismatch { expected: [u8; 4], found: [u8; 4] },
    /// The outer selector belongs to no known account convention.
    UnsupportedProfile { selector: [u8; 4] },
    /// A buffer, or a decoded array, is longer than this crate accepts.
    TooLarge { stage: Stage, len: usize, limit: usize },
    /// The payload codec computes with offsets that need a `usize` of 64 bits,
    /// and this target has a narrower one.
    UnsupportedTarget { stage: Stage },
}

impl DecodeError {
    /// The stage at which decoding stopped.
    pub open spec fn spec_stage(self) -> Stage {
        match self {
            DecodeError::MalformedMode { .. } => Stage::Mode,
            DecodeError::MalformedAbi { stage, .. } => stage,
            DecodeError::TruncatedPayload { .. } => Stage::Payload,
            DecodeError::TruncatedSelector { stage, .. } => stage,
            DecodeError::ArrayLengthMismatch { .. } => Stage::Payload,
            DecodeError::SelectorMismatch { .. } => Stage::InnerCall,
            DecodeError::UnsupportedProfile { .. } => Stage::OuterCall,
            DecodeError::TooLarge { stage, .. } => stage,
            DecodeError::UnsupportedTarget { stage } => stage,
        }
    }

    /// The stage at which decoding stopped.
    pub fn stage(&self) -> (stage: Stage)
        ensures
            stage == self.spec_stage(),
    {
        match self {
            DecodeError::MalformedMode { .. } => Stage::Mode,
            DecodeError::MalformedAbi { stage, .. } => *stage,
            DecodeError::TruncatedPayload { .. } => Stage::Payload,
            DecodeError::TruncatedSelector { stage, .. } => *stage,
            DecodeError::ArrayLengthMismatch { .. } => Stage::Payload,
            DecodeError::SelectorMismatch { .. } => Stage::InnerCall,
            DecodeError::UnsupportedProfile { .. } => Stage::OuterCall,
            DecodeError::TooLarge { stage, .. } => *stage,
            DecodeError::UnsupportedTarget { stage } => *stage,
        }
    }
}

} // verus!
