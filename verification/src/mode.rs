//! The 32-byte execution mode of a packed account call.
//!
//! Layout of the word: byte 0 is the call type, byte 1 the execution type,
//! bytes 2..6 the mode selector, bytes 6..10 are reserved, bytes 10..32 are the
//! mode payload. A mode is acted on only if its call type is single or batch
//! and every other field is zero.

use vstd::prelude::*;
use crate::bytes::{is_zero, take_array, zeros};
use crate::error::DecodeError;

verus! {

/// Length of the mode word in bytes.
pub const MODE_LEN: usize = 32;

/// Call type of a mode that carries one call.
pub const CALLTYPE_SINGLE: u8 = 0x00;

/// Call type of a mode that carries a batch of calls.
pub const CALLTYPE_BATCH: u8 = 0x01;

/// Call type of a delegate call: known, and not acted on.
pub const CALLTYPE_DELEGATE: u8 = 0xFF;

/// The one execution type that is acted on.
pub const EXECTYPE_DEFAULT: u8 = 0x00;

/// What the call type byte names.
#[derive(Clone, Copy, Debug, PartialEq, Eq)]
pub enum CallTypeTag {
    Single,
    Batch,
    Delegate,
    Unrecognized,
}

/// The shape of the payload that a mode announces.
#[derive(Clone, Copy, Debug, PartialEq, Eq)]
pub enum CallShape {
    /// One packed call.
    Single,
    /// An ABI-encoded array of calls.
    Batch,
    /// A mode of the right length that is not acted on.
    Unknown,
}

/// The tag that a call type byte stands for.
pub open spec fn call_type_tag(byte: u8) -> CallTypeTag {
    if byte == CALLTYPE_SINGLE {
        CallTypeTag::Single
    } else if byte == CALLTYPE_BATCH {
        CallTypeTag::Batch
    } else if byte == CALLTYPE_DELEGATE {
        CallTypeTag::Delegate
    } else {
        CallTypeTag::Unrecognized
    }
}

/// The mode word as a record of its five fields.
#[derive(Clone, Copy, Debug, PartialEq, Eq)]
pub struct ExecutionMode {
    pub call_type: u8,
    pub exec_type: u8,
    pub mode_selector: [u8; 4],
    pub mode_unused: [u8; 4],
    pub mode_payload: [u8; 22],
}

impl View for ExecutionMode {
    type V = Seq<u8>;

    /// The 32 bytes of the word, field after field.
    open spec fn view(&self) -> Seq<u8> {
        seq![self.call_type, self.exec_type] + self.mode_selector@ + self.mode_unused@
            + self.mode_payload@
    }
}

impl ExecutionMode {
    /// All fields but the call type hold their required constant.
    pub open spec fn is_default(self) -> bool {
        &&& self.exec_type == EXECTYPE_DEFAULT
        &&& self.mode_selector@ == zeros(4)
        &&& self.mode_unused@ == zeros(4)
        &&& self.mode_payload@ == zeros(22)
    }

    /// The shape that this mode announces.
    pub open spec fn spec_shape(self) -> CallShape {
        if !self.is_default() {
            CallShape::Unknown
        } else {
            match call_type_tag(self.call_type) {
                CallTypeTag::Single => CallShape::Single,
                CallTypeTag::Batch => CallShape::Batch,
                _ => CallShape::Unknown,
            }
        }
    }

    /// Splits a mode word into its fields. Only the length can be wrong.
    pub fn parse(bytes: &[u8]) -> (r: Result<ExecutionMode, DecodeError>)
        ensures
            match r {
                Ok(mode) => bytes@.len() == MODE_LEN && mode@ == bytes@,
                Err(e) => bytes@.len() != MODE_LEN && e == (DecodeError::MalformedMode {
                    len: bytes.len(),
                }),
            },
    {
        if bytes.len() != MODE_LEN {
            return Err(DecodeError::MalformedMode { len: bytes.len() });
        }
        let mode = ExecutionMode {
            call_type: bytes[0],
            exec_type: bytes[1],
            mode_selector: take_array::<4>(bytes, 2),
            mode_unused: take_array::<4>(bytes, 6),
            mode_payload: take_array::<22>(bytes, 10),
        };
        assert(mode@ =~= bytes@);
        Ok(mode)
    }

    /// The tag of the call type byte.
    pub fn call_type_tag(&self) -> (tag: CallTypeTag)
        ensures
            tag == call_type_tag(self.call_type),
    {
        if self.call_type == CALLTYPE_SINGLE {
            CallTypeTag::Single
        } else if self.call_type == CALLTYPE_BATCH {
            CallTypeTag::Batch
        } else if self.call_type == CALLTYPE_DELEGATE {
            CallTypeTag::Delegate
        } else {
            CallTypeTag::Unrecognized
        }
    }

    /// Classifies the mode: single or batch on a full match, unknown otherwise.
    pub fn shape(&self) -> (shape: CallShape)
        ensures
            shape == self.spec_shape(),
            shape == mode_shape(self@),
    {
        proof {
            lemma_shape_of_word(*self);
        }
        let default = self.exec_type == EXECTYPE_DEFAULT && is_zero(self.mode_selector.as_slice())
            && is_zero(self.mode_unused.as_slice()) && is_zero(self.mode_payload.as_slice());
        if !default {
            return CallShape::Unknown;
        }
        match self.call_type_tag() {
            CallTypeTag::Single => CallShape::Single,
            CallTypeTag::Batch => CallShape::Batch,
            _ => CallShape::Unknown,
        }
    }
}

/// The shape that a 32-byte mode word announces: single or batch if the call
/// type says so and all 31 bytes after it are zero, unknown otherwise.
pub open spec fn mode_shape(word: Seq<u8>) -> CallShape {
    if word.subrange(1, 32) != zeros(31) {
        CallShape::Unknown
    } else if word[0] == CALLTYPE_SINGLE {
        CallShape::Single
    } else if word[0] == CALLTYPE_BATCH {
        CallShape::Batch
    } else {
        CallShape::Unknown
    }
}

/// The field-by-field classification of a mode is the classification of its
/// word.
pub proof fn lemma_shape_of_word(mode: ExecutionMode)
    ensures
        mode.spec_shape() == mode_shape(mode@),
{
    let word = mode@;
    assert(word.len() == 32);
    if mode.is_default() {
        assert(word.subrange(1, 32) =~= zeros(31)) by {
            assert forall|i: int| 0 <= i < 31 implies word.subrange(1, 32)[i] == 0u8 by {
                if i == 0 {
                } else if i < 5 {
                    assert(word[i + 1] == mode.mode_selector@[i - 1]);
                    assert(zeros(4)[i - 1] == 0u8);
                } else if i < 9 {
                    assert(word[i + 1] == mode.mode_unused@[i - 5]);
                    assert(zeros(4)[i - 5] == 0u8);
                } else {
                    assert(word[i + 1] == mode.mode_payload@[i - 9]);
                    assert(zeros(22)[i - 9] == 0u8);
                }
            }
        }
    } else {
        if word.subrange(1, 32) == zeros(31) {
            assert forall|i: int| 1 <= i < 32 implies word[i] == 0u8 by {
                assert(word.subrange(1, 32)[i - 1] == word[i]);
                assert(zeros(31)[i - 1] == 0u8);
            }
            assert(mode.exec_type == word[1]);
            assert(mode.mode_selector@ =~= zeros(4)) by {
                assert forall|i: int| 0 <= i < 4 implies mode.mode_selector@[i] == 0u8 by {
                    assert(word[i + 2] == mode.mode_selector@[i]);
                }
            }
            assert(mode.mode_unused@ =~= zeros(4)) by {
                assert forall|i: int| 0 <= i < 4 implies mode.mode_unused@[i] == 0u8 by {
                    assert(word[i + 6] == mode.mode_unused@[i]);
                }
            }
            assert(mode.mode_payload@ =~= zeros(22)) by {
                assert forall|i: int| 0 <= i < 22 implies mode.mode_payload@[i] == 0u8 by {
                    assert(word[i + 10] == mode.mode_payload@[i]);
                }
            }
            assert(false);
        }
    }
}

/// Validates and classifies a mode word.
///
/// A word of another length than 32 bytes is malformed. A word of 32 bytes is
/// never an error: it is single or batch on a full match, and unknown
/// otherwise, also where the call type is a known one.
pub fn decode_mode(bytes: &[u8]) -> (r: Result<CallShape, DecodeError>)
    ensures
        bytes@.len() == MODE_LEN ==> r == Ok::<CallShape, DecodeError>(mode_shape(bytes@)),
        bytes@.len() != MODE_LEN ==> r == Err::<CallShape, DecodeError>(
            DecodeError::MalformedMode { len: bytes.len() },
        ),
{
    match ExecutionMode::parse(bytes) {
        Ok(mode) => Ok(mode.shape()),
        Err(e) => Err(e),
    }
}

/// A word whose call type is single or batch and whose other 31 bytes are
/// zero is classified by its call type.
pub proof fn lemma_full_match_is_classified(word: Seq<u8>)
    requires
        word.len() == MODE_LEN,
        word[0] == CALLTYPE_SINGLE || word[0] == CALLTYPE_BATCH,
        forall|i: int| 1 <= i < 32 ==> word[i] == 0,
    ensures
        word[0] == CALLTYPE_SINGLE ==> mode_shape(word) == CallShape::Single,
        word[0] == CALLTYPE_BATCH ==> mode_shape(word) == CallShape::Batch,
{
    assert(word.subrange(1, 32) =~= zeros(31));
}

/// One byte that is not zero, anywhere in the four fields after the call
/// type, makes the mode unknown, whatever the call type.
pub proof fn lemma_any_deviation_is_unknown(word: Seq<u8>, at: int)
    requires
        word.len() == MODE_LEN,
        1 <= at < 32,
        word[at] != 0,
    ensures
        mode_shape(word) == CallShape::Unknown,
{
    assert(word.subrange(1, 32)[at - 1] == word[at]);
    assert(zeros(31)[at - 1] == 0u8);
}

/// A call type other than single and batch makes the mode unknown, the
/// delegate call type included.
pub proof fn lemma_other_call_type_is_unknown(word: Seq<u8>)
    requires
        word.len() == MODE_LEN,
        word[0] != CALLTYPE_SINGLE,
        word[0] != CALLTYPE_BATCH,
    ensures
        mode_shape(word) == CallShape::Unknown,
{
}

} // verus!
