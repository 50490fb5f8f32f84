//! The boundary to the ABI codecs.
//!
//! Two outside decoders are called from here and nowhere else. What they
//! return is not proved in this crate: the contracts of the items marked
//! `external_body` are taken on trust, and the rest of the crate is proved
//! from them. Layouts and decoded values cross the boundary as values of this
//! crate, `AbiType` and `AbiValue`, which mirror the codec's own.

use vstd::prelude::*;
use alloy_sol_types::{sol_data, SolType};
use ethabi::{ParamType, Token};
use crate::types::{be_nat, Address, U256};

verus! {

/// The type of one ABI parameter, as far as this crate asks a codec for it.
#[derive(Debug, PartialEq, Eq)]
pub enum AbiType {
    /// `address`
    Address,
    /// `uintN`
    Uint(usize),
    /// `bytes`
    Bytes,
    /// `T[]`
    Array(Box<AbiType>),
    /// `(T1, .., Tn)`
    Tuple(Vec<AbiType>),
}

/// What an `AbiType` stands for.
pub enum AbiTypeView {
    Address,
    Uint(usize),
    Bytes,
    Array(Box<AbiTypeView>),
    Tuple(Seq<AbiTypeView>),
}

/// The view of a type, field by field.
pub open spec fn type_model(t: AbiType) -> AbiTypeView
    decreases t,
{
    match t {
        AbiType::Address => AbiTypeView::Address,
        AbiType::Uint(bits) => AbiTypeView::Uint(bits),
        AbiType::Bytes => AbiTypeView::Bytes,
        AbiType::Array(inner) => AbiTypeView::Array(Box::new(type_model(*inner))),
        AbiType::Tuple(fields) => AbiTypeView::Tuple(
            Seq::new(
                fields@.len(),
                |i: int|
                    if 0 <= i < fields@.len() {
                        type_model(fields@[i])
                    } else {
                        AbiTypeView::Bytes
                    },
            ),
        ),
    }
}

impl View for AbiType {
    type V = AbiTypeView;

    open spec fn view(&self) -> AbiTypeView {
        type_model(*self)
    }
}

/// The views of a parameter list, in order.
pub open spec fn layout_view(layout: Seq<AbiType>) -> Seq<AbiTypeView> {
    Seq::new(layout.len(), |i: int| type_model(layout[i]))
}

/// The deepest nesting of arrays and tuples that is handed to the payload
/// codec. The codec, and the conversion of what it returns, recurse once for
/// each level.
pub const MAX_NESTING: usize = 4;

/// The type nests arrays and tuples at most `depth` deep, and no tuple in it
/// is empty.
pub open spec fn nests_within(t: AbiTypeView, depth: nat) -> bool
    decreases depth,
{
    match t {
        AbiTypeView::Array(inner) => depth > 0 && nests_within(*inner, (depth - 1) as nat),
        AbiTypeView::Tuple(fields) => depth > 0 && fields.len() > 0 && forall|i: int|
            0 <= i < fields.len() ==> nests_within(#[trigger] fields[i], (depth - 1) as nat),
        _ => true,
    }
}

/// A type that the payload codec is asked for: nested within `MAX_NESTING`,
/// and without an empty tuple. An element of such a type takes at least one
/// word of the buffer; a dynamic array of empty tuples would let a length
/// word alone decide how long decoding runs.
pub open spec fn decodable(t: AbiTypeView) -> bool {
    nests_within(t, MAX_NESTING as nat)
}

/// A decoded ABI value: one variant for each `AbiType`, and one for what no
/// `AbiType` asks for.
#[derive(Debug, PartialEq, Eq)]
pub enum AbiValue {
    /// `address`
    Address(Address),
    /// `uintN`
    Uint(U256),
    /// `bytes`
    Bytes(Vec<u8>),
    /// `T[]`
    Array(Vec<AbiValue>),
    /// `(T1, .., Tn)`
    Tuple(Vec<AbiValue>),
    /// A value of a type that no `AbiType` names: a signed integer, a boolean,
    /// a string, a byte string or an array of fixed length.
    Other,
}

/// What an `AbiValue` stands for.
pub enum AbiValueView {
    Address(Seq<u8>),
    Uint(nat),
    Bytes(Seq<u8>),
    Array(Seq<AbiValueView>),
    Tuple(Seq<AbiValueView>),
    Other,
}

/// The view of a value, field by field.
pub open spec fn value_model(v: AbiValue) -> AbiValueView
    decreases v,
{
    match v {
        AbiValue::Address(a) => AbiValueView::Address(a@),
        AbiValue::Uint(w) => AbiValueView::Uint(w@),
        AbiValue::Bytes(b) => AbiValueView::Bytes(b@),
        AbiValue::Array(items) => AbiValueView::Array(
            Seq::new(
                items@.len(),
                |i: int|
                    if 0 <= i < items@.len() {
                        value_model(items@[i])
                    } else {
                        AbiValueView::Other
                    },
            ),
        ),
        AbiValue::Tuple(items) => AbiValueView::Tuple(
            Seq::new(
                items@.len(),
                |i: int|
                    if 0 <= i < items@.len() {
                        value_model(items@[i])
                    } else {
                        AbiValueView::Other
                    },
            ),
        ),
        AbiValue::Other => AbiValueView::Other,
    }
}

impl View for AbiValue {
    type V = AbiValueView;

    open spec fn view(&self) -> AbiValueView {
        value_model(*self)
    }
}

/// The views of a list of values, in order.
pub open spec fn values_view(values: Seq<AbiValue>) -> Seq<AbiValueView> {
    Seq::new(values.len(), |i: int| value_model(values[i]))
}

/// The view of an array is the array of the views of its elements.
pub proof fn lemma_array_view(items: Vec<AbiValue>)
    ensures
        value_model(AbiValue::Array(items)) == AbiValueView::Array(values_view(items@)),
{
    assert(value_model(AbiValue::Array(items))->Array_0 =~= values_view(items@));
}

/// The view of a tuple is the tuple of the views of its fields.
pub proof fn lemma_tuple_view(items: Vec<AbiValue>)
    ensures
        value_model(AbiValue::Tuple(items)) == AbiValueView::Tuple(values_view(items@)),
{
    assert(value_model(AbiValue::Tuple(items))->Tuple_0 =~= values_view(items@));
}

/// `ethabi::ParamType`, the codec's own type descriptor. Opaque here.
#[verifier::external_type_specification]
#[verifier::external_body]
pub struct ExParamType(ParamType);

/// `ethabi::Token`, the codec's own decoded value. Opaque here.
#[verifier::external_type_specification]
#[verifier::external_body]
pub struct ExToken(Token);

/// `ethabi::Error`. Opaque here: the crate maps it to `MalformedAbi`.
#[verifier::external_type_specification]
#[verifier::external_body]
pub struct ExEthabiError(ethabi::Error);

/// `alloy_sol_types::Error`. Opaque here: the crate maps it to
/// `MalformedAbi`.
#[verifier::external_type_specification]
#[verifier::external_body]
pub struct ExAlloyError(alloy_sol_types::Error);

/// The `ethabi::ParamType` that an `AbiType` mirrors, variant for variant.
/// Nothing is claimed of the result here: `ethabi_decode` speaks for the whole
/// call.
#[verifier::external_body]
fn param_type(t: &AbiType) -> ParamType {
    match t {
        AbiType::Address => ParamType::Address,
        AbiType::Uint(bits) => ParamType::Uint(*bits),
        AbiType::Bytes => ParamType::Bytes,
        AbiType::Array(inner) => ParamType::Array(Box::new(param_type(inner))),
        AbiType::Tuple(fields) => ParamType::Tuple(fields.iter().map(param_type).collect()),
    }
}

/// The `AbiValue` that mirrors an `ethabi::Token`, variant for variant. An
/// unsigned integer is kept as the 32 big-endian bytes of its word. A token of
/// a variant that no `AbiType` asks for becomes `Other`. Nothing is claimed of
/// the result here: `ethabi_decode` speaks for the whole call.
#[verifier::external_body]
fn abi_value(token: Token) -> AbiValue {
    match token {
        Token::Address(a) => AbiValue::Address(Address { bytes: a.to_fixed_bytes() }),
        Token::Uint(w) => AbiValue::Uint(U256 { bytes: w.into() }),
        Token::Bytes(b) => AbiValue::Bytes(b),
        Token::Array(v) => AbiValue::Array(v.into_iter().map(abi_value).collect()),
        Token::Tuple(v) => AbiValue::Tuple(v.into_iter().map(abi_value).collect()),
        _ => AbiValue::Other,
    }
}

/// What `ethabi::decode` returns for a parameter list and a buffer: the
/// decoded values, one for each parameter, or `None` where it fails.
pub uninterp spec fn abi_decoded(layout: Seq<AbiTypeView>, data: Seq<u8>) -> Option<
    Seq<AbiValueView>,
>;

/// `ethabi::decode`, the lenient decoder: bytes after the last value are
/// ignored. The call is a function of its two arguments, and `abi_decoded` is
/// the name of its result.
///
/// Of the two arguments only the buffer gives the decoder a number to compute
/// with: a type of this crate carries the width of an integer, which the
/// decoder does not read, and no length. The decoder adds offsets and lengths
/// that it read from the buffer, each below 2^32, in `usize`; with 64 bits
/// these sums cannot overflow. It runs a loop for each dynamic array as often
/// as the array's length word says, and stops at the first element that lies
/// outside the buffer; an element of a `decodable` type reads at least one
/// word, so the loop ends with the buffer. It recurses once for each level
/// of the type, as `param_type` and `abi_value` do.
#[verifier::external_body]
pub(crate) fn ethabi_decode(layout: &Vec<AbiType>, data: &[u8]) -> (r: Result<
    Vec<AbiValue>,
    ethabi::Error,
>)
    requires
        usize::BITS == 64,
        forall|i: int| 0 <= i < layout@.len() ==> decodable(#[trigger] layout@[i]@),
    ensures
        match r {
            Ok(values) => abi_decoded(layout_view(layout@), data@) == Some(values_view(values@)),
            Err(_) => abi_decoded(layout_view(layout@), data@) is None,
        },
{
    let kinds: Vec<ParamType> = layout.iter().map(param_type).collect();
    Ok(ethabi::decode(&kinds, data)?.into_iter().map(abi_value).collect())
}

/// The offset or length that the word decoder reads from a 32-byte word with
/// validation off, where `usize` has 64 bits: the last 8 bytes, big-endian.
/// The 24 bytes before them are not looked at.
pub open spec fn word_offset(word: Seq<u8>) -> nat {
    be_nat(word.subrange(24, 32))
}

/// The word and the byte string that the parameters `(bytes32, bytes)`
/// decode to, or `None` where they do not.
///
/// The first word is the `bytes32`. The second word holds the offset of the
/// byte string, counted from the start of the buffer. At that offset stands
/// a length word, and after it as many bytes as it says. Each of the three
/// must lie within the buffer. Nothing asks that the offset is 64, that
/// parts do not overlap, or that the buffer ends with the byte string.
pub open spec fn word_then_bytes(data: Seq<u8>) -> Option<(Seq<u8>, Seq<u8>)> {
    if data.len() < 64 {
        None
    } else {
        let offset = word_offset(data.subrange(32, 64)) as int;
        if offset + 32 > data.len() {
            None
        } else {
            let len = word_offset(data.subrange(offset, offset + 32)) as int;
            if offset + 32 + len > data.len() {
                None
            } else {
                Some((data.subrange(0, 32), data.subrange(offset + 32, offset + 32 + len)))
            }
        }
    }
}

/// The length word of the byte string, where the buffer holds one, is small
/// enough to have 32 added to it in `usize`.
pub open spec fn length_word_is_safe(data: Seq<u8>) -> bool {
    data.len() >= 64 && word_offset(data.subrange(32, 64)) + 32 <= data.len() ==> {
        let offset = word_offset(data.subrange(32, 64)) as int;
        word_offset(data.subrange(offset, offset + 32)) + 32 <= usize::MAX
    }
}

/// `SolType::abi_decode_sequence` of alloy-sol-types for the parameters
/// `(bytes32, bytes)`, with validation off.
///
/// The decoder takes the first word, reads the second as an offset, and at
/// that offset a length word and the bytes after it, as `word_then_bytes`
/// says; it fails where one of them lies outside the buffer. It adds 32 to
/// the length that it read, unchecked: the `requires` leaves out the buffers
/// on which that sum would overflow.
#[verifier::external_body]
pub(crate) fn decode_word_bytes(data: &[u8]) -> (r: Result<
    ([u8; 32], Vec<u8>),
    alloy_sol_types::Error,
>)
    requires
        usize::BITS == 64,
        length_word_is_safe(data@),
    ensures
        match r {
            Ok(pair) => word_then_bytes(data@) == Some((pair.0@, pair.1@)),
            Err(_) => word_then_bytes(data@) is None,
        },
{
    let (word, bytes) =
        <(sol_data::FixedBytes<32>, sol_data::Bytes)>::abi_decode_sequence(data, false)?;
    Ok((word.0, bytes.to_vec()))
}

/// `SolType::abi_decode_sequence` of alloy-sol-types for the parameters
/// `(address, uint256)`, with validation off.
///
/// The decoder takes two words from the front of the buffer and fails only
/// where the buffer is shorter than that. With validation off it does not look
/// at the first 12 bytes of the address word, nor at what follows the second
/// word. The address is the last 20 bytes of the first word, the integer is the
/// second word read big-endian.
#[verifier::external_body]
pub(crate) fn decode_address_uint(data: &[u8]) -> (r: Result<
    (Address, U256),
    alloy_sol_types::Error,
>)
    ensures
        r is Ok <==> data@.len() >= 64,
        r matches Ok(pair) ==> pair.0.bytes@ == data@.subrange(12, 32) && pair.1.bytes@
            == data@.subrange(32, 64),
{
    let (to, amount) =
        <(sol_data::Address, sol_data::Uint<256>)>::abi_decode_sequence(data, false)?;
    Ok((Address { bytes: to.into_array() }, U256 { bytes: amount.to_be_bytes() }))
}

/// `SolType::abi_decode_sequence` of alloy-sol-types for the parameters
/// `(address, address, uint256)`, with validation off.
///
/// As for two words: three words are taken from the front of the buffer, the
/// call fails only where the buffer is shorter, and each address is the last
/// 20 bytes of its word.
#[verifier::external_body]
pub(crate) fn decode_address_address_uint(data: &[u8]) -> (r: Result<
    (Address, Address, U256),
    alloy_sol_types::Error,
>)
    ensures
        r is Ok <==> data@.len() >= 96,
        r matches Ok(triple) ==> triple.0.bytes@ == data@.subrange(12, 32) && triple.1.bytes@
            == data@.subrange(44, 64) && triple.2.bytes@ == data@.subrange(64, 96),
{
    let (from, to, id) =
        <(sol_data::Address, sol_data::Address, sol_data::Uint<256>)>::abi_decode_sequence(
            data,
            false,
        )?;
    Ok(
        (
            Address { bytes: from.into_array() },
            Address { bytes: to.into_array() },
            U256 { bytes: id.to_be_bytes() },
        ),
    )
}

} // verus!
