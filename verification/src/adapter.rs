//! The account-profile adapter: from an outer call to its inner calls.
//!
//! The outer selector alone decides which account convention is read. For the
//! packed convention the mode word then decides between one packed call and
//! an ABI-encoded batch. Whatever the profile, the result is one list of
//! entries in the order of the wire.

use vstd::prelude::*;
use vstd::slice::{slice_subrange, slice_to_vec};
use crate::abi::{
    decode_word_bytes,
    lemma_array_view,
    lemma_tuple_view,
    length_word_is_safe,
    values_view,
    word_offset,
    word_then_bytes,
    AbiValue,
    AbiValueView,
};
use crate::bytes::take_array;
use crate::error::{DecodeError, Stage};
use crate::layout::{
    call_array,
    call_array_layout,
    decode_values,
    parallel_arrays,
    parallel_arrays_layout,
    spec_decode_values,
    MAX_CALL_DATA_LEN,
    MAX_ENTRIES,
};
use crate::mode::{decode_mode, mode_shape, CallShape, MODE_LEN};
use crate::selector::{convention_of, select_convention, Convention};
use crate::types::{
    be_nat,
    entries_view,
    lemma_be_nat_step,
    Address,
    EntryView,
    ExecutionEntry,
    U256,
};

verus! {

/// Length of the target and the value at the front of a packed single
/// payload: 20 bytes of address, 32 bytes of value.
pub const SINGLE_HEADER_LEN: usize = 52;

/// The shape of an outer call.
#[derive(Clone, Copy, Debug, PartialEq, Eq)]
pub enum AccountProfile {
    /// A mode word and one call packed at fixed offsets.
    PackedSingle,
    /// A mode word and an ABI-encoded array of calls.
    PackedBatch,
    /// Three parallel arrays of targets, values and call data.
    ParallelArrays,
}

/// What the adapter found in an outer call.
#[derive(Clone, Debug, PartialEq, Eq)]
pub struct Adapted {
    /// The profile that was read. `None` says that the outer call is a packed
    /// one whose mode is unknown: no entry was read, and that is no error.
    pub profile: Option<AccountProfile>,
    /// The inner calls, in the order of the wire.
    pub entries: Vec<ExecutionEntry>,
}

/// What an `Adapted` stands for.
pub struct AdaptedView {
    pub profile: Option<AccountProfile>,
    pub entries: Seq<EntryView>,
}

impl View for Adapted {
    type V = AdaptedView;

    open spec fn view(&self) -> AdaptedView {
        AdaptedView { profile: self.profile, entries: entries_view(self.entries@) }
    }
}

/// The entry that a packed single payload holds: the target in bytes 0..20,
/// the value big-endian in bytes 20..52, the inner call data from byte 52 on.
pub open spec fn spec_decode_single(payload: Seq<u8>) -> Result<EntryView, DecodeError> {
    if payload.len() < SINGLE_HEADER_LEN {
        Err(DecodeError::TruncatedPayload { len: payload.len() as usize })
    } else {
        Ok(
            EntryView {
                target: payload.subrange(0, 20),
                value: be_nat(payload.subrange(20, 52)),
                inner_calldata: payload.subrange(52, payload.len() as int),
            },
        )
    }
}

/// Splits a packed single payload at its fixed offsets.
pub fn decode_single_call_data(execution_calldata: &[u8]) -> (r: Result<
    ExecutionEntry,
    DecodeError,
>)
    ensures
        match r {
            Ok(entry) => spec_decode_single(execution_calldata@) == Ok::<EntryView, DecodeError>(
                entry@,
            ),
            Err(e) => spec_decode_single(execution_calldata@) == Err::<EntryView, DecodeError>(e),
        },
{
    let len = execution_calldata.len();
    if len < SINGLE_HEADER_LEN {
        return Err(DecodeError::TruncatedPayload { len });
    }
    let target = Address { bytes: take_array::<20>(execution_calldata, 0) };
    let value = U256 { bytes: take_array::<32>(execution_calldata, 20) };
    let inner_calldata = slice_to_vec(slice_subrange(execution_calldata, SINGLE_HEADER_LEN, len));
    Ok(ExecutionEntry { target, value, inner_calldata })
}

/// The least length of the arguments of a packed call: the mode word, the
/// offset word of the payload and its length word.
pub const EXECUTE_ARGS_MIN_LEN: usize = 96;

/// The mode word and the payload that the arguments `(bytes32, bytes)` of a
/// packed call hold.
///
/// Arguments longer than `MAX_CALL_DATA_LEN` are not decoded, nor any on a
/// target whose `usize` is narrower than 64 bits. Arguments shorter than
/// `EXECUTE_ARGS_MIN_LEN`, and those that `word_then_bytes` does not decode,
/// are malformed.
pub open spec fn spec_execute_args(data: Seq<u8>) -> Result<(Seq<u8>, Seq<u8>), DecodeError> {
    if usize::BITS != 64 {
        Err(DecodeError::UnsupportedTarget { stage: Stage::OuterCall })
    } else if data.len() > MAX_CALL_DATA_LEN {
        Err(
            DecodeError::TooLarge {
                stage: Stage::OuterCall,
                len: data.len() as usize,
                limit: MAX_CALL_DATA_LEN,
            },
        )
    } else if data.len() < EXECUTE_ARGS_MIN_LEN {
        Err(DecodeError::MalformedAbi { stage: Stage::OuterCall, len: data.len() as usize })
    } else {
        match word_then_bytes(data) {
            Some(pair) => Ok(pair),
            None => Err(
                DecodeError::MalformedAbi { stage: Stage::OuterCall, len: data.len() as usize },
            ),
        }
    }
}

/// Reads the offset or length that the word at `at` holds: its last 8 bytes,
/// big-endian.
fn read_word_offset(data: &[u8], at: usize) -> (r: usize)
    requires
        usize::BITS == 64,
        at + 32 <= data@.len(),
    ensures
        r == word_offset(data@.subrange(at as int, at + 32)),
{
    let ghost tail = data@.subrange(at as int, at + 32).subrange(24, 32);
    let mut acc: usize = 0;
    let mut i: usize = 0;
    proof {
        assert(tail.subrange(0, 0) =~= Seq::<u8>::empty());
    }
    while i < 8
        invariant
            i <= 8,
            usize::BITS == 64,
            at + 32 <= data.len(),
            tail == data@.subrange(at as int, at + 32).subrange(24, 32),
            acc == be_nat(tail.subrange(0, i as int)),
            i == 0 ==> acc == 0,
            i == 1 ==> acc <= 0xff,
            i == 2 ==> acc <= 0xffff,
            i == 3 ==> acc <= 0xff_ffff,
            i == 4 ==> acc <= 0xffff_ffff,
            i == 5 ==> acc <= 0xff_ffff_ffff,
            i == 6 ==> acc <= 0xffff_ffff_ffff,
            i == 7 ==> acc <= 0xff_ffff_ffff_ffff,
        decreases 8 - i,
    {
        let byte = data[at + 24 + i];
        proof {
            assert(tail[i as int] == byte);
            lemma_be_nat_step(tail, i as int);
        }
        acc = acc * 256 + byte as usize;
        i += 1;
    }
    proof {
        assert(tail.subrange(0, 8) =~= tail);
    }
    acc
}

/// Decodes the arguments of a packed call into the mode word and the
/// payload.
pub fn decode_execute_args(outer_payload: &[u8]) -> (r: Result<([u8; 32], Vec<u8>), DecodeError>)
    ensures
        match r {
            Ok(pair) => spec_execute_args(outer_payload@) == Ok::<
                (Seq<u8>, Seq<u8>),
                DecodeError,
            >((pair.0@, pair.1@)),
            Err(e) => spec_execute_args(outer_payload@) == Err::<
                (Seq<u8>, Seq<u8>),
                DecodeError,
            >(e),
        },
{
    let len = outer_payload.len();
    if usize::BITS != 64 {
        return Err(DecodeError::UnsupportedTarget { stage: Stage::OuterCall });
    }
    if len > MAX_CALL_DATA_LEN {
        return Err(
            DecodeError::TooLarge { stage: Stage::OuterCall, len, limit: MAX_CALL_DATA_LEN },
        );
    }
    if len < EXECUTE_ARGS_MIN_LEN {
        return Err(DecodeError::MalformedAbi { stage: Stage::OuterCall, len });
    }
    let offset = read_word_offset(outer_payload, 32);
    if offset <= len - 32 {
        let length = read_word_offset(outer_payload, offset);
        if length > len - 32 - offset {
            return Err(DecodeError::MalformedAbi { stage: Stage::OuterCall, len });
        }
    }
    assert(length_word_is_safe(outer_payload@));
    match decode_word_bytes(outer_payload) {
        Ok(pair) => Ok(pair),
        Err(_) => Err(DecodeError::MalformedAbi { stage: Stage::OuterCall, len }),
    }
}

/// The entry that one decoded tuple `(address, uint256, bytes)` stands for.
pub open spec fn tuple_entry(value: AbiValueView) -> Option<EntryView> {
    match value {
        AbiValueView::Tuple(fields) => if fields.len() == 3 && fields[0] is Address && fields[1]
            is Uint && fields[2] is Bytes {
            Some(
                EntryView {
                    target: fields[0]->Address_0,
                    value: fields[1]->Uint_0,
                    inner_calldata: fields[2]->Bytes_0,
                },
            )
        } else {
            None
        },
        _ => None,
    }
}

/// The entries that the decoded payload of a packed batch stands for: one
/// for each tuple of the array, in the array's order. `len` is the length of
/// the buffer the values were decoded from.
pub open spec fn spec_entries_from_tuples(values: Seq<AbiValueView>, len: usize) -> Result<
    Seq<EntryView>,
    DecodeError,
> {
    if values.len() == 1 && values[0] is Array {
        let items = values[0]->Array_0;
        if items.len() > MAX_ENTRIES {
            Err(
                DecodeError::TooLarge {
                    stage: Stage::Payload,
                    len: items.len() as usize,
                    limit: MAX_ENTRIES,
                },
            )
        } else if forall|i: int| 0 <= i < items.len() ==> (#[trigger] tuple_entry(items[i])) is Some {
            Ok(Seq::new(items.len(), |i: int| tuple_entry(items[i])->Some_0))
        } else {
            Err(DecodeError::MalformedAbi { stage: Stage::Payload, len })
        }
    } else {
        Err(DecodeError::MalformedAbi { stage: Stage::Payload, len })
    }
}

/// The view of a result that holds entries.
pub open spec fn entries_result_view(r: Result<Vec<ExecutionEntry>, DecodeError>) -> Result<
    Seq<EntryView>,
    DecodeError,
> {
    match r {
        Ok(entries) => Ok(entries_view(entries@)),
        Err(e) => Err(e),
    }
}

/// Reads one decoded tuple as an entry.
fn entry_from_tuple(value: &AbiValue) -> (r: Option<ExecutionEntry>)
    ensures
        match r {
            Some(entry) => tuple_entry(value@) == Some(entry@),
            None => tuple_entry(value@) is None,
        },
{
    match value {
        AbiValue::Tuple(fields) => {
            proof {
                lemma_tuple_view(*fields);
            }
            if fields.len() != 3 {
                return None;
            }
            match (&fields[0], &fields[1], &fields[2]) {
                (AbiValue::Address(target), AbiValue::Uint(value), AbiValue::Bytes(data)) => Some(
                    ExecutionEntry {
                        target: *target,
                        value: *value,
                        inner_calldata: slice_to_vec(data.as_slice()),
                    },
                ),
                _ => None,
            }
        },
        _ => None,
    }
}

/// Turns the decoded payload of a packed batch into entries.
///
/// The values must be one array of tuples `(address, uint256, bytes)`, at most
/// `MAX_ENTRIES` long. Each tuple becomes one entry, and the entries stand in
/// the order of the array. A value of another shape is rejected; none is
/// skipped.
pub fn entries_from_tuples(values: &Vec<AbiValue>, len: usize) -> (r: Result<
    Vec<ExecutionEntry>,
    DecodeError,
>)
    ensures
        entries_result_view(r) == spec_entries_from_tuples(values_view(values@), len),
{
    if values.len() != 1 {
        return Err(DecodeError::MalformedAbi { stage: Stage::Payload, len });
    }
    match &values[0] {
        AbiValue::Array(items) => {
            proof {
                lemma_array_view(*items);
            }
            let ghost views = values_view(items@);
            if items.len() > MAX_ENTRIES {
                return Err(
                    DecodeError::TooLarge {
                        stage: Stage::Payload,
                        len: items.len(),
                        limit: MAX_ENTRIES,
                    },
                );
            }
            let mut entries: Vec<ExecutionEntry> = Vec::new();
            let mut i: usize = 0;
            while i < items.len()
                invariant
                    i <= items@.len(),
                    views == values_view(items@),
                    views.len() <= MAX_ENTRIES,
                    values_view(values@).len() == 1,
                    values_view(values@)[0] == AbiValueView::Array(views),
                    entries@.len() == i,
                    forall|k: int| 0 <= k < i ==> tuple_entry(views[k]) == Some(entries@[k]@),
                decreases items@.len() - i,
            {
                match entry_from_tuple(&items[i]) {
                    Some(entry) => {
                        entries.push(entry);
                    },
                    None => {
                        assert(tuple_entry(views[i as int]) is None);
                        return Err(DecodeError::MalformedAbi { stage: Stage::Payload, len });
                    },
                }
                i += 1;
            }
            assert(entries_view(entries@) =~= Seq::new(
                views.len(),
                |i: int| tuple_entry(views[i])->Some_0,
            ));
            Ok(entries)
        },
        _ => Err(DecodeError::MalformedAbi { stage: Stage::Payload, len }),
    }
}

/// The entries that three decoded parallel arrays stand for: position `i` of
/// the three arrays together is entry `i`. `len` is the length of the buffer
/// the values were decoded from.
pub open spec fn spec_entries_from_arrays(values: Seq<AbiValueView>, len: usize) -> Result<
    Seq<EntryView>,
    DecodeError,
> {
    if values.len() == 3 && values[0] is Array && values[1] is Array && values[2] is Array {
        let targets = values[0]->Array_0;
        let amounts = values[1]->Array_0;
        let calls = values[2]->Array_0;
        if targets.len() != amounts.len() || targets.len() != calls.len() {
            Err(
                DecodeError::ArrayLengthMismatch {
                    targets: targets.len() as usize,
                    values: amounts.len() as usize,
                    calldatas: calls.len() as usize,
                },
            )
        } else if targets.len() > MAX_ENTRIES {
            Err(
                DecodeError::TooLarge {
                    stage: Stage::Payload,
                    len: targets.len() as usize,
                    limit: MAX_ENTRIES,
                },
            )
        } else if forall|i: int|
            0 <= i < targets.len() ==> (#[trigger] targets[i]) is Address && amounts[i] is Uint
                && calls[i] is Bytes {
            Ok(
                Seq::new(
                    targets.len(),
                    |i: int|
                        EntryView {
                            target: targets[i]->Address_0,
                            value: amounts[i]->Uint_0,
                            inner_calldata: calls[i]->Bytes_0,
                        },
                ),
            )
        } else {
            Err(DecodeError::MalformedAbi { stage: Stage::Payload, len })
        }
    } else {
        Err(DecodeError::MalformedAbi { stage: Stage::Payload, len })
    }
}

/// Zips three decoded parallel arrays into entries.
///
/// The values must be three arrays: of addresses, of unsigned integers and of
/// byte strings. Arrays of unequal length are an `ArrayLengthMismatch`; more
/// than `MAX_ENTRIES` positions are `TooLarge`. Otherwise position `i` of the
/// three arrays becomes entry `i`.
pub fn entries_from_arrays(values: &Vec<AbiValue>, len: usize) -> (r: Result<
    Vec<ExecutionEntry>,
    DecodeError,
>)
    ensures
        entries_result_view(r) == spec_entries_from_arrays(values_view(values@), len),
{
    if values.len() != 3 {
        return Err(DecodeError::MalformedAbi { stage: Stage::Payload, len });
    }
    match (&values[0], &values[1], &values[2]) {
        (AbiValue::Array(targets), AbiValue::Array(amounts), AbiValue::Array(calls)) => {
            proof {
                lemma_array_view(*targets);
                lemma_array_view(*amounts);
                lemma_array_view(*calls);
            }
            let ghost target_views = values_view(targets@);
            let ghost amount_views = values_view(amounts@);
            let ghost call_views = values_view(calls@);
            let count = targets.len();
            if count != amounts.len() || count != calls.len() {
                return Err(
                    DecodeError::ArrayLengthMismatch {
                        targets: count,
                        values: amounts.len(),
                        calldatas: calls.len(),
                    },
                );
            }
            if count > MAX_ENTRIES {
                return Err(
                    DecodeError::TooLarge { stage: Stage::Payload, len: count, limit: MAX_ENTRIES },
                );
            }
            let mut entries: Vec<ExecutionEntry> = Vec::new();
            let mut i: usize = 0;
            while i < count
                invariant
                    i <= count,
                    count == targets@.len(),
                    count == amounts@.len(),
                    count == calls@.len(),
                    count <= MAX_ENTRIES,
                    target_views == values_view(targets@),
                    amount_views == values_view(amounts@),
                    call_views == values_view(calls@),
                    values_view(values@).len() == 3,
                    values_view(values@)[0] == AbiValueView::Array(target_views),
                    values_view(values@)[1] == AbiValueView::Array(amount_views),
                    values_view(values@)[2] == AbiValueView::Array(call_views),
                    entries@.len() == i,
                    forall|k: int|
                        0 <= k < i ==> (#[trigger] target_views[k]) is Address && amount_views[k]
                            is Uint && call_views[k] is Bytes,
                    forall|k: int|
                        0 <= k < i ==> (#[trigger] entries@[k])@ == (EntryView {
                            target: target_views[k]->Address_0,
                            value: amount_views[k]->Uint_0,
                            inner_calldata: call_views[k]->Bytes_0,
                        }),
                decreases count - i,
            {
                match (&targets[i], &amounts[i], &calls[i]) {
                    (AbiValue::Address(target), AbiValue::Uint(value), AbiValue::Bytes(data)) => {
                        entries.push(
                            ExecutionEntry {
                                target: *target,
                                value: *value,
                                inner_calldata: slice_to_vec(data.as_slice()),
                            },
                        );
                    },
                    _ => {
                        assert(!(target_views[i as int] is Address && amount_views[i as int]
                            is Uint && call_views[i as int] is Bytes));
                        return Err(DecodeError::MalformedAbi { stage: Stage::Payload, len });
                    },
                }
                i += 1;
            }
            assert(entries_view(entries@) =~= Seq::new(
                target_views.len(),
                |i: int|
                    EntryView {
                        target: target_views[i]->Address_0,
                        value: amount_views[i]->Uint_0,
                        inner_calldata: call_views[i]->Bytes_0,
                    },
            ));
            Ok(entries)
        },
        _ => Err(DecodeError::MalformedAbi { stage: Stage::Payload, len }),
    }
}

/// The entries of a packed batch payload: what the payload codec decodes as
/// `(address, uint256, bytes)[]`, tuple by tuple.
pub open spec fn spec_decode_batch(payload: Seq<u8>) -> Result<Seq<EntryView>, DecodeError> {
    match spec_decode_values(call_array_layout(), payload, Stage::Payload) {
        Ok(values) => spec_entries_from_tuples(values, payload.len() as usize),
        Err(e) => Err(e),
    }
}

/// Decodes the payload of a packed batch into its entries, in the order of
/// the encoded array.
pub fn decode_batch_call_data(execution_calldata: &[u8]) -> (r: Result<
    Vec<ExecutionEntry>,
    DecodeError,
>)
    ensures
        entries_result_view(r) == spec_decode_batch(execution_calldata@),
{
    let layout = call_array();
    match decode_values(&layout, execution_calldata, Stage::Payload) {
        Ok(values) => entries_from_tuples(&values, execution_calldata.len()),
        Err(e) => Err(e),
    }
}

/// The entries of three parallel arrays: what the payload codec decodes as
/// `(address[], uint256[], bytes[])`, position by position.
pub open spec fn spec_decode_parallel(payload: Seq<u8>) -> Result<Seq<EntryView>, DecodeError> {
    match spec_decode_values(parallel_arrays_layout(), payload, Stage::Payload) {
        Ok(values) => spec_entries_from_arrays(values, payload.len() as usize),
        Err(e) => Err(e),
    }
}

/// Decodes three parallel arrays into entries, position by position.
pub fn decode_parallel_arrays(outer_payload: &[u8]) -> (r: Result<Vec<ExecutionEntry>, DecodeError>)
    ensures
        entries_result_view(r) == spec_decode_parallel(outer_payload@),
{
    let layout = parallel_arrays();
    match decode_values(&layout, outer_payload, Stage::Payload) {
        Ok(values) => entries_from_arrays(&values, outer_payload.len()),
        Err(e) => Err(e),
    }
}

/// What a packed call with the given mode word and payload holds.
pub open spec fn spec_adapt_packed(mode: Seq<u8>, payload: Seq<u8>) -> Result<
    AdaptedView,
    DecodeError,
> {
    if mode.len() != MODE_LEN {
        Err(DecodeError::MalformedMode { len: mode.len() as usize })
    } else {
        match mode_shape(mode) {
            CallShape::Unknown => Ok(AdaptedView { profile: None, entries: Seq::empty() }),
            CallShape::Single => match spec_decode_single(payload) {
                Ok(entry) => Ok(
                    AdaptedView {
                        profile: Some(AccountProfile::PackedSingle),
                        entries: seq![entry],
                    },
                ),
                Err(e) => Err(e),
            },
            CallShape::Batch => match spec_decode_batch(payload) {
                Ok(entries) => Ok(
                    AdaptedView { profile: Some(AccountProfile::PackedBatch), entries },
                ),
                Err(e) => Err(e),
            },
        }
    }
}

/// The view of an adapter result.
pub open spec fn adapted_view(r: Result<Adapted, DecodeError>) -> Result<AdaptedView, DecodeError> {
    match r {
        Ok(adapted) => Ok(adapted@),
        Err(e) => Err(e),
    }
}

/// Reads a packed call from its mode word and its payload.
///
/// An unknown mode is no error: the result then holds no profile and no
/// entry.
pub fn adapt_packed(mode: &[u8], payload: &[u8]) -> (r: Result<Adapted, DecodeError>)
    ensures
        adapted_view(r) == spec_adapt_packed(mode@, payload@),
{
    let shape = match decode_mode(mode) {
        Ok(shape) => shape,
        Err(e) => { return Err(e); },
    };
    match shape {
        CallShape::Unknown => {
            let entries: Vec<ExecutionEntry> = Vec::new();
            assert(entries_view(entries@) =~= Seq::<EntryView>::empty());
            Ok(Adapted { profile: None, entries })
        },
        CallShape::Single => match decode_single_call_data(payload) {
            Ok(entry) => {
                let mut entries: Vec<ExecutionEntry> = Vec::new();
                entries.push(entry);
                assert(entries_view(entries@) =~= seq![entry@]);
                Ok(Adapted { profile: Some(AccountProfile::PackedSingle), entries })
            },
            Err(e) => Err(e),
        },
        CallShape::Batch => match decode_batch_call_data(payload) {
            Ok(entries) => Ok(Adapted { profile: Some(AccountProfile::PackedBatch), entries }),
            Err(e) => Err(e),
        },
    }
}

/// What the adapter gives for an outer selector and the bytes after it.
pub open spec fn spec_adapt(selector: [u8; 4], payload: Seq<u8>) -> Result<
    AdaptedView,
    DecodeError,
> {
    match convention_of(selector) {
        None => Err(DecodeError::UnsupportedProfile { selector }),
        Some(Convention::ParallelArrays) => match spec_decode_parallel(payload) {
            Ok(entries) => Ok(
                AdaptedView { profile: Some(AccountProfile::ParallelArrays), entries },
            ),
            Err(e) => Err(e),
        },
        Some(Convention::PackedMode) => match spec_execute_args(payload) {
            Ok((mode, inner)) => spec_adapt_packed(mode, inner),
            Err(e) => Err(e),
        },
    }
}

/// Extracts the inner calls of an outer call.
///
/// `outer_selector` is matched against the table of known selectors; a
/// selector that is not in it is an `UnsupportedProfile`. `outer_payload` is
/// what follows the selector. The result depends on these two arguments
/// alone.
pub fn adapt(outer_selector: &[u8; 4], outer_payload: &[u8]) -> (r: Result<Adapted, DecodeError>)
    ensures
        adapted_view(r) == spec_adapt(*outer_selector, outer_payload@),
{
    let convention = match select_convention(outer_selector) {
        Ok(convention) => convention,
        Err(e) => { return Err(e); },
    };
    match convention {
        Convention::ParallelArrays => match decode_parallel_arrays(outer_payload) {
            Ok(entries) => Ok(Adapted { profile: Some(AccountProfile::ParallelArrays), entries }),
            Err(e) => Err(e),
        },
        Convention::PackedMode => match decode_execute_args(outer_payload) {
            Ok((mode, payload)) => adapt_packed(mode.as_slice(), payload.as_slice()),
            Err(e) => Err(e),
        },
    }
}

/// The decoded values that hold a list of entries as one array of tuples
/// `(address, uint256, bytes)`.
pub open spec fn tuples_of(entries: Seq<EntryView>) -> Seq<AbiValueView> {
    seq![
        AbiValueView::Array(
            Seq::new(
                entries.len(),
                |i: int|
                    AbiValueView::Tuple(
                        seq![
                            AbiValueView::Address(entries[i].target),
                            AbiValueView::Uint(entries[i].value),
                            AbiValueView::Bytes(entries[i].inner_calldata),
                        ],
                    ),
            ),
        ),
    ]
}

/// A list of entries that the codec hands back as an array of tuples comes
/// out of the batch path as the same list, in the same order. The list must
/// be within `MAX_ENTRIES`; a longer one is `TooLarge`.
pub proof fn lemma_entries_survive_as_tuples(entries: Seq<EntryView>, len: usize)
    requires
        entries.len() <= MAX_ENTRIES,
    ensures
        spec_entries_from_tuples(tuples_of(entries), len) == Ok::<Seq<EntryView>, DecodeError>(
            entries,
        ),
{
    let items = tuples_of(entries)[0]->Array_0;
    assert forall|i: int| 0 <= i < items.len() implies (#[trigger] tuple_entry(items[i]))
        == Some(entries[i]) by {}
    assert(Seq::new(items.len(), |i: int| tuple_entry(items[i])->Some_0) =~= entries);
}

/// Where the batch path succeeds, it has made one entry of each tuple of the
/// decoded array, at the tuple's position: none is dropped, none is moved.
pub proof fn lemma_tuples_keep_their_order(values: Seq<AbiValueView>, len: usize)
    requires
        spec_entries_from_tuples(values, len) is Ok,
    ensures
        values[0] is Array,
        spec_entries_from_tuples(values, len)->Ok_0.len() == values[0]->Array_0.len(),
        forall|i: int|
            0 <= i < values[0]->Array_0.len() ==> tuple_entry(#[trigger] values[0]->Array_0[i])
                == Some(spec_entries_from_tuples(values, len)->Ok_0[i]),
{
}

/// Where the parallel-arrays path succeeds, the three arrays are of one
/// length, and entry `i` holds position `i` of each.
pub proof fn lemma_arrays_are_zipped(values: Seq<AbiValueView>, len: usize)
    requires
        spec_entries_from_arrays(values, len) is Ok,
    ensures
        ({
            let entries = spec_entries_from_arrays(values, len)->Ok_0;
            &&& values[0]->Array_0.len() == entries.len()
            &&& values[1]->Array_0.len() == entries.len()
            &&& values[2]->Array_0.len() == entries.len()
            &&& forall|i: int|
                0 <= i < entries.len() ==> {
                    &&& values[0]->Array_0[i] == AbiValueView::Address((#[trigger] entries[i]).target)
                    &&& values[1]->Array_0[i] == AbiValueView::Uint(entries[i].value)
                    &&& values[2]->Array_0[i] == AbiValueView::Bytes(entries[i].inner_calldata)
                }
        }),
{
    let targets = values[0]->Array_0;
    assert forall|i: int| 0 <= i < targets.len() implies (#[trigger] targets[i]) is Address by {}
}

/// Arrays of unequal length are never zipped: the parallel-arrays path then
/// fails with `ArrayLengthMismatch` and gives no entry.
pub proof fn lemma_unequal_arrays_are_a_mismatch(
    targets: Seq<AbiValueView>,
    amounts: Seq<AbiValueView>,
    calls: Seq<AbiValueView>,
    len: usize,
)
    requires
        targets.len() != amounts.len() || targets.len() != calls.len(),
    ensures
        spec_entries_from_arrays(
            seq![
                AbiValueView::Array(targets),
                AbiValueView::Array(amounts),
                AbiValueView::Array(calls),
            ],
            len,
        ) == Err::<Seq<EntryView>, DecodeError>(
            DecodeError::ArrayLengthMismatch {
                targets: targets.len() as usize,
                values: amounts.len() as usize,
                calldatas: calls.len() as usize,
            },
        ),
{
}

/// The adapter is a function of the bytes it is given: two calls of `adapt`
/// on the same selector and on payloads of the same bytes return results
/// that stand for the same profile and the same entries, or the same error.
pub proof fn lemma_adapt_is_a_function(
    selector: &[u8; 4],
    payload: &[u8],
    again: &[u8],
    first: Result<Adapted, DecodeError>,
    second: Result<Adapted, DecodeError>,
)
    requires
        payload@ == again@,
        call_ensures(adapt, (selector, payload), first),
        call_ensures(adapt, (selector, again), second),
    ensures
        adapted_view(first) == adapted_view(second),
{
}

/// An outer selector that is not in the table is an `UnsupportedProfile`,
/// whatever the payload.
pub proof fn lemma_unknown_selector_is_unsupported(selector: [u8; 4], payload: Seq<u8>)
    requires
        convention_of(selector) is None,
    ensures
        spec_adapt(selector, payload) == Err::<AdaptedView, DecodeError>(
            DecodeError::UnsupportedProfile { selector },
        ),
{
}

/// A packed call of unknown mode is no error and holds no entry, whatever
/// its payload.
pub proof fn lemma_unknown_mode_is_empty(mode: Seq<u8>, payload: Seq<u8>)
    requires
        mode.len() == MODE_LEN,
        mode_shape(mode) == CallShape::Unknown,
    ensures
        spec_adapt_packed(mode, payload) == Ok::<AdaptedView, DecodeError>(
            AdaptedView { profile: None, entries: Seq::empty() },
        ),
{
}

/// Whatever the outer call, the adapter gives at most `MAX_ENTRIES` entries.
pub proof fn lemma_entries_are_bounded(selector: [u8; 4], payload: Seq<u8>)
    requires
        spec_adapt(selector, payload) is Ok,
    ensures
        spec_adapt(selector, payload)->Ok_0.entries.len() <= MAX_ENTRIES,
{
}

} // verus!
