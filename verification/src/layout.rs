//! The two parameter lists that this crate asks the payload codec for, and
//! the guarded call of the codec.

use vstd::prelude::*;
use crate::abi::{
    abi_decoded,
    ethabi_decode,
    layout_view,
    decodable,
    nests_within,
    type_model,
    values_view,
    AbiType,
    AbiTypeView,
    AbiValue,
    AbiValueView,
};
use crate::error::{DecodeError, Stage};

verus! {

/// The longest buffer that is handed to the payload codec, in bytes.
///
/// The codec sizes what it allocates by length words that it reads from the
/// buffer. With the buffer bounded, so are the number of elements of a decoded
/// array (one word each at least) and the length of each decoded byte string.
pub const MAX_CALL_DATA_LEN: usize = 65536;

/// The largest number of inner calls that one outer call may carry.
pub const MAX_ENTRIES: usize = 256;

/// The width of the unsigned integers of the account conventions, in bits.
pub const UINT_BITS: usize = 256;

/// `(address, uint256, bytes)[]`: the payload of a packed batch.
pub open spec fn call_array_layout() -> Seq<AbiTypeView> {
    seq![
        AbiTypeView::Array(
            Box::new(
                AbiTypeView::Tuple(
                    seq![AbiTypeView::Address, AbiTypeView::Uint(UINT_BITS), AbiTypeView::Bytes],
                ),
            ),
        ),
    ]
}

/// `(address[], uint256[], bytes[])`: three parallel arrays.
pub open spec fn parallel_arrays_layout() -> Seq<AbiTypeView> {
    seq![
        AbiTypeView::Array(Box::new(AbiTypeView::Address)),
        AbiTypeView::Array(Box::new(AbiTypeView::Uint(UINT_BITS))),
        AbiTypeView::Array(Box::new(AbiTypeView::Bytes)),
    ]
}

/// Every parameter of the list is of a type that the codec is asked for.
pub open spec fn layout_is_decodable(layout: Seq<AbiType>) -> bool {
    forall|i: int| 0 <= i < layout.len() ==> decodable(#[trigger] layout[i]@)
}

/// Builds the parameter list `(address, uint256, bytes)[]`.
pub fn call_array() -> (layout: Vec<AbiType>)
    ensures
        layout_view(layout@) == call_array_layout(),
        layout_is_decodable(layout@),
{
    let mut fields: Vec<AbiType> = Vec::new();
    fields.push(AbiType::Address);
    fields.push(AbiType::Uint(UINT_BITS));
    fields.push(AbiType::Bytes);
    let tuple = AbiType::Tuple(fields);
    proof {
        reveal_with_fuel(type_model, 2);
        reveal_with_fuel(nests_within, 3);
        let want = seq![AbiTypeView::Address, AbiTypeView::Uint(UINT_BITS), AbiTypeView::Bytes];
        assert(type_model(tuple)->Tuple_0 =~= want);
        assert(nests_within(type_model(tuple), 3));
    }
    let mut layout: Vec<AbiType> = Vec::new();
    layout.push(AbiType::Array(Box::new(tuple)));
    proof {
        reveal_with_fuel(type_model, 2);
        reveal_with_fuel(nests_within, 3);
        assert(layout_view(layout@) =~= call_array_layout());
    }
    layout
}

/// Builds the parameter list `(address[], uint256[], bytes[])`.
pub fn parallel_arrays() -> (layout: Vec<AbiType>)
    ensures
        layout_view(layout@) == parallel_arrays_layout(),
        layout_is_decodable(layout@),
{
    let mut layout: Vec<AbiType> = Vec::new();
    layout.push(AbiType::Array(Box::new(AbiType::Address)));
    layout.push(AbiType::Array(Box::new(AbiType::Uint(UINT_BITS))));
    layout.push(AbiType::Array(Box::new(AbiType::Bytes)));
    proof {
        reveal_with_fuel(type_model, 2);
        reveal_with_fuel(nests_within, 3);
        assert(layout_view(layout@) =~= parallel_arrays_layout());
    }
    layout
}

/// What the guarded call of the payload codec gives for a parameter list and
/// a buffer.
///
/// The codec is asked only on a target with a `usize` of 64 bits and for a
/// buffer within `MAX_CALL_DATA_LEN`. What it then returns is `abi_decoded`;
/// where it fails, the error names the stage and the length of the buffer.
pub open spec fn spec_decode_values(layout: Seq<AbiTypeView>, data: Seq<u8>, stage: Stage) -> Result<
    Seq<AbiValueView>,
    DecodeError,
> {
    if usize::BITS != 64 {
        Err(DecodeError::UnsupportedTarget { stage })
    } else if data.len() > MAX_CALL_DATA_LEN {
        Err(DecodeError::TooLarge { stage, len: data.len() as usize, limit: MAX_CALL_DATA_LEN })
    } else {
        match abi_decoded(layout, data) {
            Some(values) => Ok(values),
            None => Err(DecodeError::MalformedAbi { stage, len: data.len() as usize }),
        }
    }
}

/// The view of a decoding result.
pub open spec fn decoded_view(r: Result<Vec<AbiValue>, DecodeError>) -> Result<
    Seq<AbiValueView>,
    DecodeError,
> {
    match r {
        Ok(values) => Ok(values_view(values@)),
        Err(e) => Err(e),
    }
}

/// Decodes a buffer against a parameter list, within the limits of this
/// crate.
pub(crate) fn decode_values(layout: &Vec<AbiType>, data: &[u8], stage: Stage) -> (r: Result<
    Vec<AbiValue>,
    DecodeError,
>)
    requires
        layout_is_decodable(layout@),
    ensures
        decoded_view(r) == spec_decode_values(layout_view(layout@), data@, stage),
{
    if usize::BITS != 64 {
        return Err(DecodeError::UnsupportedTarget { stage });
    }
    if data.len() > MAX_CALL_DATA_LEN {
        return Err(DecodeError::TooLarge { stage, len: data.len(), limit: MAX_CALL_DATA_LEN });
    }
    match ethabi_decode(layout, data) {
        Ok(values) => Ok(values),
        Err(_) => Err(DecodeError::MalformedAbi { stage, len: data.len() }),
    }
}

} // verus!
