use calldata_inspector::abi::AbiValue;
use calldata_inspector::adapter::{
    adapt, adapt_packed, decode_batch_call_data, decode_execute_args, decode_parallel_arrays,
    decode_single_call_data, entries_from_arrays, entries_from_tuples, AccountProfile, Adapted,
    EXECUTE_ARGS_MIN_LEN,
};
use calldata_inspector::error::{DecodeError, Stage};
use calldata_inspector::layout::{MAX_CALL_DATA_LEN, MAX_ENTRIES};
use calldata_inspector::selector::{
    EXECUTE_BATCH_SELECTOR, EXECUTE_MODE_SELECTOR, EXECUTE_SELECTOR,
};
use calldata_inspector::types::{Address, ExecutionEntry, U256};
use ethabi::Token;

fn target(seed: u8) -> Address {
    let mut bytes = [0u8; 20];
    for (i, byte) in bytes.iter_mut().enumerate() {
        *byte = seed.wrapping_add(i as u8);
    }
    Address { bytes }
}

fn wei(value: u64) -> U256 {
    let mut bytes = [0u8; 32];
    bytes[24..].copy_from_slice(&value.to_be_bytes());
    U256 { bytes }
}

fn entry(seed: u8, value: u64, inner: &[u8]) -> ExecutionEntry {
    ExecutionEntry { target: target(seed), value: wei(value), inner_calldata: inner.to_vec() }
}

fn target_token(a: &Address) -> Token {
    Token::Address(ethabi::Address::from(a.bytes))
}

fn wei_token(n: &U256) -> Token {
    Token::Uint(ethabi::Uint::from_big_endian(&n.bytes))
}

fn encode_batch(entries: &[ExecutionEntry]) -> Vec<u8> {
    let tuples = entries
        .iter()
        .map(|e| {
            Token::Tuple(vec![
                target_token(&e.target),
                wei_token(&e.value),
                Token::Bytes(e.inner_calldata.clone()),
            ])
        })
        .collect();
    ethabi::encode(&[Token::Array(tuples)])
}

fn encode_arrays(targets: &[Address], values: &[U256], calls: &[Vec<u8>]) -> Vec<u8> {
    ethabi::encode(&[
        Token::Array(targets.iter().map(target_token).collect()),
        Token::Array(values.iter().map(wei_token).collect()),
        Token::Array(calls.iter().map(|c| Token::Bytes(c.clone())).collect()),
    ])
}

fn encode_execute_args(mode: &[u8], payload: &[u8]) -> Vec<u8> {
    ethabi::encode(&[Token::FixedBytes(mode.to_vec()), Token::Bytes(payload.to_vec())])
}

fn pack_single(e: &ExecutionEntry) -> Vec<u8> {
    let mut payload = e.target.bytes.to_vec();
    payload.extend(e.value.bytes);
    payload.extend(&e.inner_calldata);
    payload
}

fn mode_word(call_type: u8) -> Vec<u8> {
    let mut word = vec![0u8; 32];
    word[0] = call_type;
    word
}

#[test]
fn single_payload_is_split_at_20_and_52() {
    let payload: Vec<u8> = (0u8..60).collect();
    let decoded = decode_single_call_data(&payload).unwrap();
    assert_eq!(decoded.target.bytes.to_vec(), (0u8..20).collect::<Vec<u8>>());
    assert_eq!(decoded.value.bytes.to_vec(), (20u8..52).collect::<Vec<u8>>());
    assert_eq!(decoded.inner_calldata, (52u8..60).collect::<Vec<u8>>());
}

#[test]
fn single_payload_of_52_bytes_has_empty_call_data() {
    let e = entry(3, 17, &[]);
    assert_eq!(decode_single_call_data(&pack_single(&e)), Ok(e));
}

#[test]
fn single_payload_of_51_bytes_is_truncated() {
    assert_eq!(
        decode_single_call_data(&[0u8; 51]),
        Err(DecodeError::TruncatedPayload { len: 51 })
    );
    assert_eq!(decode_single_call_data(&[]), Err(DecodeError::TruncatedPayload { len: 0 }));
}

#[test]
fn batch_round_trip_keeps_every_entry_in_order() {
    let entries = vec![
        entry(1, 0, &[0xa9, 0x05, 0x9c, 0xbb, 1, 2, 3]),
        entry(50, u64::MAX, &[]),
        entry(200, 7, &[9; 100]),
    ];
    assert_eq!(decode_batch_call_data(&encode_batch(&entries)), Ok(entries));
}

#[test]
fn batch_round_trip_of_reversed_input_is_reversed() {
    let mut entries = vec![entry(1, 1, &[1]), entry(2, 2, &[2, 2]), entry(3, 3, &[3, 3, 3])];
    let forward = decode_batch_call_data(&encode_batch(&entries)).unwrap();
    entries.reverse();
    let mut backward = decode_batch_call_data(&encode_batch(&entries)).unwrap();
    backward.reverse();
    assert_eq!(forward, backward);
    assert_eq!(forward[0], entry(1, 1, &[1]));
}

#[test]
fn batch_round_trip_of_no_entry_and_of_one() {
    assert_eq!(decode_batch_call_data(&encode_batch(&[])), Ok(vec![]));
    let one = vec![entry(9, 42, &[0xde, 0xad])];
    assert_eq!(decode_batch_call_data(&encode_batch(&one)), Ok(one));
}

#[test]
fn batch_payload_that_the_codec_rejects_is_malformed_abi() {
    assert_eq!(
        decode_batch_call_data(&[0xff; 32]),
        Err(DecodeError::MalformedAbi { stage: Stage::Payload, len: 32 })
    );
    assert_eq!(
        decode_batch_call_data(&[]),
        Err(DecodeError::MalformedAbi { stage: Stage::Payload, len: 0 })
    );
    let mut cut = encode_batch(&[entry(1, 2, &[3])]);
    cut.truncate(cut.len() - 33);
    assert_eq!(
        decode_batch_call_data(&cut),
        Err(DecodeError::MalformedAbi { stage: Stage::Payload, len: cut.len() })
    );
}

#[test]
fn batch_payload_over_the_size_limit_is_too_large() {
    let payload = vec![0u8; MAX_CALL_DATA_LEN + 1];
    assert_eq!(
        decode_batch_call_data(&payload),
        Err(DecodeError::TooLarge { stage: Stage::Payload, len: MAX_CALL_DATA_LEN + 1, limit: MAX_CALL_DATA_LEN })
    );
}

#[test]
fn batch_payload_at_the_size_limit_is_decoded() {
    let payload = vec![0u8; MAX_CALL_DATA_LEN];
    assert_eq!(decode_batch_call_data(&payload), Ok(vec![]));
}

#[test]
fn batch_of_more_than_the_entry_limit_is_too_large() {
    let many: Vec<ExecutionEntry> = (0..MAX_ENTRIES + 1).map(|i| entry(i as u8, 1, &[])).collect();
    assert_eq!(
        decode_batch_call_data(&encode_batch(&many)),
        Err(DecodeError::TooLarge { stage: Stage::Payload, len: MAX_ENTRIES + 1, limit: MAX_ENTRIES })
    );
    let full = &many[..MAX_ENTRIES];
    assert_eq!(decode_batch_call_data(&encode_batch(full)), Ok(full.to_vec()));
}

#[test]
fn tuples_of_another_shape_are_rejected_and_none_is_skipped() {
    let good = AbiValue::Tuple(vec![
        AbiValue::Address(target(1)),
        AbiValue::Uint(wei(2)),
        AbiValue::Bytes(vec![3]),
    ]);
    let short = AbiValue::Tuple(vec![AbiValue::Address(target(1)), AbiValue::Uint(wei(2))]);
    let swapped = AbiValue::Tuple(vec![
        AbiValue::Uint(wei(2)),
        AbiValue::Address(target(1)),
        AbiValue::Bytes(vec![3]),
    ]);
    let malformed = Err(DecodeError::MalformedAbi { stage: Stage::Payload, len: 640 });
    assert_eq!(entries_from_tuples(&vec![AbiValue::Array(vec![good, short])], 640), malformed);
    assert_eq!(entries_from_tuples(&vec![AbiValue::Array(vec![swapped])], 640), malformed);
    assert_eq!(entries_from_tuples(&vec![AbiValue::Array(vec![AbiValue::Other])], 640), malformed);
    assert_eq!(entries_from_tuples(&vec![AbiValue::Bytes(vec![])], 640), malformed);
    assert_eq!(entries_from_tuples(&vec![], 640), malformed);
    assert_eq!(
        entries_from_tuples(&vec![AbiValue::Array(vec![]), AbiValue::Array(vec![])], 640),
        malformed
    );
}

#[test]
fn tuples_become_entries_field_by_field() {
    let values = vec![AbiValue::Array(vec![
        AbiValue::Tuple(vec![
            AbiValue::Address(target(1)),
            AbiValue::Uint(wei(2)),
            AbiValue::Bytes(vec![3]),
        ]),
        AbiValue::Tuple(vec![
            AbiValue::Address(target(4)),
            AbiValue::Uint(wei(5)),
            AbiValue::Bytes(vec![]),
        ]),
    ])];
    assert_eq!(entries_from_tuples(&values, 0), Ok(vec![entry(1, 2, &[3]), entry(4, 5, &[])]));
}

#[test]
fn parallel_arrays_are_zipped_by_position() {
    let targets = [target(1), target(2), target(3)];
    let values = [wei(10), wei(20), wei(30)];
    let calls = [vec![1u8], vec![], vec![3u8; 40]];
    assert_eq!(
        decode_parallel_arrays(&encode_arrays(&targets, &values, &calls)),
        Ok(vec![entry(1, 10, &[1]), entry(2, 20, &[]), entry(3, 30, &[3; 40])])
    );
    assert_eq!(decode_parallel_arrays(&encode_arrays(&[], &[], &[])), Ok(vec![]));
}

#[test]
fn parallel_arrays_of_lengths_2_2_1_are_a_mismatch() {
    let payload = encode_arrays(&[target(1), target(2)], &[wei(1), wei(2)], &[vec![1u8]]);
    assert_eq!(
        decode_parallel_arrays(&payload),
        Err(DecodeError::ArrayLengthMismatch { targets: 2, values: 2, calldatas: 1 })
    );
}

#[test]
fn parallel_arrays_of_other_unequal_lengths_are_a_mismatch() {
    let payload = encode_arrays(&[target(1)], &[wei(1), wei(2)], &[vec![1u8], vec![2u8]]);
    assert_eq!(
        decode_parallel_arrays(&payload),
        Err(DecodeError::ArrayLengthMismatch { targets: 1, values: 2, calldatas: 2 })
    );
    let payload = encode_arrays(&[target(1)], &[], &[vec![1u8]]);
    assert_eq!(
        decode_parallel_arrays(&payload),
        Err(DecodeError::ArrayLengthMismatch { targets: 1, values: 0, calldatas: 1 })
    );
}

#[test]
fn parallel_arrays_that_the_codec_rejects_are_malformed_abi() {
    assert_eq!(
        decode_parallel_arrays(&[0u8; 64]),
        Err(DecodeError::MalformedAbi { stage: Stage::Payload, len: 64 })
    );
}

#[test]
fn arrays_of_another_shape_are_rejected() {
    let malformed = Err(DecodeError::MalformedAbi { stage: Stage::Payload, len: 7 });
    let addresses = || AbiValue::Array(vec![AbiValue::Address(target(1))]);
    let numbers = || AbiValue::Array(vec![AbiValue::Uint(wei(1))]);
    let calls = || AbiValue::Array(vec![AbiValue::Bytes(vec![1])]);
    assert_eq!(
        entries_from_arrays(&vec![addresses(), numbers(), calls()], 7),
        Ok(vec![entry(1, 1, &[1])])
    );
    assert_eq!(entries_from_arrays(&vec![numbers(), addresses(), calls()], 7), malformed);
    assert_eq!(entries_from_arrays(&vec![addresses(), numbers()], 7), malformed);
    assert_eq!(entries_from_arrays(&vec![addresses(), numbers(), AbiValue::Other], 7), malformed);
    assert_eq!(
        entries_from_arrays(
            &vec![AbiValue::Array(vec![]), numbers(), calls()],
            7
        ),
        Err(DecodeError::ArrayLengthMismatch { targets: 0, values: 1, calldatas: 1 })
    );
}

#[test]
fn more_positions_than_the_entry_limit_are_too_large() {
    let count = MAX_ENTRIES + 1;
    let values = vec![
        AbiValue::Array((0..count).map(|_| AbiValue::Address(target(1))).collect()),
        AbiValue::Array((0..count).map(|_| AbiValue::Uint(wei(1))).collect()),
        AbiValue::Array((0..count).map(|_| AbiValue::Bytes(vec![])).collect()),
    ];
    assert_eq!(
        entries_from_arrays(&values, 0),
        Err(DecodeError::TooLarge { stage: Stage::Payload, len: count, limit: MAX_ENTRIES })
    );
}

fn word(value: u64) -> [u8; 32] {
    let mut bytes = [0u8; 32];
    bytes[24..].copy_from_slice(&value.to_be_bytes());
    bytes
}

fn raw_args(mode: [u8; 32], offset: [u8; 32], middle: &[u8], len: [u8; 32], payload: &[u8]) -> Vec<u8> {
    let mut data = mode.to_vec();
    data.extend(offset);
    data.extend(middle);
    data.extend(len);
    data.extend(payload);
    data
}

#[test]
fn execute_arguments_are_the_mode_and_the_payload() {
    let mode: Vec<u8> = (1u8..=32).collect();
    let payload: Vec<u8> = (100u8..160).collect();
    let (word, bytes) = decode_execute_args(&encode_execute_args(&mode, &payload)).unwrap();
    assert_eq!(word.to_vec(), mode);
    assert_eq!(bytes, payload);
}

#[test]
fn execute_arguments_with_an_empty_payload() {
    let data = encode_execute_args(&[7u8; 32], &[]);
    assert_eq!(data.len(), EXECUTE_ARGS_MIN_LEN);
    assert_eq!(decode_execute_args(&data), Ok(([7u8; 32], vec![])));
}

#[test]
fn execute_arguments_are_read_at_the_offset_the_second_word_gives() {
    let data = raw_args([1; 32], word(96), &[0xee; 32], word(3), &[9, 8, 7, 6, 5]);
    assert_eq!(decode_execute_args(&data), Ok(([1; 32], vec![9, 8, 7])));
}

#[test]
fn upper_bytes_of_an_offset_word_are_not_looked_at() {
    let mut offset = word(64);
    offset[0] = 0xff;
    offset[23] = 0x01;
    let mut len = word(2);
    len[5] = 0x80;
    let data = raw_args([1; 32], offset, &[], len, &[9, 8, 7]);
    assert_eq!(decode_execute_args(&data), Ok(([1; 32], vec![9, 8])));
}

#[test]
fn execute_arguments_under_three_words_are_malformed() {
    for len in [0usize, 31, 64, 95] {
        assert_eq!(
            decode_execute_args(&vec![0u8; len]),
            Err(DecodeError::MalformedAbi { stage: Stage::OuterCall, len })
        );
    }
}

#[test]
fn offset_outside_the_arguments_is_malformed() {
    for offset in [65u64, 96, 97, 1 << 40, u64::MAX] {
        let data = raw_args([1; 32], word(offset), &[], word(0), &[]);
        assert_eq!(
            decode_execute_args(&data),
            Err(DecodeError::MalformedAbi { stage: Stage::OuterCall, len: 96 })
        );
    }
}

#[test]
fn length_beyond_the_arguments_is_malformed() {
    for len in [4u64, 1 << 32, u64::MAX - 32, u64::MAX - 31, u64::MAX] {
        let data = raw_args([1; 32], word(64), &[], word(len), &[9, 8, 7]);
        assert_eq!(
            decode_execute_args(&data),
            Err(DecodeError::MalformedAbi { stage: Stage::OuterCall, len: 99 })
        );
    }
    let data = raw_args([1; 32], word(64), &[], [0xff; 32], &[9, 8, 7]);
    assert_eq!(
        decode_execute_args(&data),
        Err(DecodeError::MalformedAbi { stage: Stage::OuterCall, len: 99 })
    );
}

#[test]
fn execute_arguments_over_the_size_limit_are_too_large() {
    assert_eq!(
        decode_execute_args(&vec![0u8; MAX_CALL_DATA_LEN + 1]),
        Err(DecodeError::TooLarge {
            stage: Stage::OuterCall,
            len: MAX_CALL_DATA_LEN + 1,
            limit: MAX_CALL_DATA_LEN
        })
    );
}

#[test]
fn packed_call_with_a_loose_offset_word_is_still_read() {
    let e = entry(7, 1000, &[1, 2, 3, 4, 5]);
    let mut offset = word(64);
    offset[3] = 0x44;
    let packed = pack_single(&e);
    let data = raw_args(word_of_mode(0x00), offset, &[], word(packed.len() as u64), &packed);
    assert_eq!(
        adapt(&EXECUTE_MODE_SELECTOR, &data),
        Ok(Adapted { profile: Some(AccountProfile::PackedSingle), entries: vec![e] })
    );
}

fn word_of_mode(call_type: u8) -> [u8; 32] {
    let mut bytes = [0u8; 32];
    bytes[0] = call_type;
    bytes
}

#[test]
fn packed_single_call_gives_one_entry() {
    let e = entry(7, 1000, &[1, 2, 3, 4, 5]);
    let payload = encode_execute_args(&mode_word(0x00), &pack_single(&e));
    assert_eq!(
        adapt(&EXECUTE_MODE_SELECTOR, &payload),
        Ok(Adapted { profile: Some(AccountProfile::PackedSingle), entries: vec![e] })
    );
}

#[test]
fn packed_single_call_with_a_short_payload_is_truncated() {
    let payload = encode_execute_args(&mode_word(0x00), &[0u8; 40]);
    assert_eq!(
        adapt(&EXECUTE_MODE_SELECTOR, &payload),
        Err(DecodeError::TruncatedPayload { len: 40 })
    );
}

#[test]
fn packed_batch_call_gives_its_entries_in_order() {
    let entries = vec![entry(1, 1, &[1]), entry(2, 2, &[2])];
    let payload = encode_execute_args(&mode_word(0x01), &encode_batch(&entries));
    assert_eq!(
        adapt(&EXECUTE_MODE_SELECTOR, &payload),
        Ok(Adapted { profile: Some(AccountProfile::PackedBatch), entries })
    );
}

#[test]
fn packed_call_of_unknown_mode_gives_no_entry_and_no_error() {
    let e = entry(7, 1000, &[1, 2, 3, 4, 5]);
    let mut dirty = mode_word(0x00);
    dirty[31] = 1;
    for mode in [mode_word(0xff), mode_word(0x02), dirty] {
        let payload = encode_execute_args(&mode, &pack_single(&e));
        assert_eq!(
            adapt(&EXECUTE_MODE_SELECTOR, &payload),
            Ok(Adapted { profile: None, entries: vec![] })
        );
    }
}

#[test]
fn packed_call_whose_arguments_the_codec_rejects_is_malformed_abi() {
    assert_eq!(
        adapt(&EXECUTE_MODE_SELECTOR, &[0u8; 40]),
        Err(DecodeError::MalformedAbi { stage: Stage::OuterCall, len: 40 })
    );
    assert_eq!(
        adapt(&EXECUTE_MODE_SELECTOR, &[]),
        Err(DecodeError::MalformedAbi { stage: Stage::OuterCall, len: 0 })
    );
}

#[test]
fn packed_call_over_the_size_limit_is_too_large() {
    let payload = vec![0u8; MAX_CALL_DATA_LEN + 1];
    assert_eq!(
        adapt(&EXECUTE_MODE_SELECTOR, &payload),
        Err(DecodeError::TooLarge {
            stage: Stage::OuterCall,
            len: MAX_CALL_DATA_LEN + 1,
            limit: MAX_CALL_DATA_LEN
        })
    );
}

#[test]
fn mode_of_a_wrong_length_is_malformed() {
    assert_eq!(adapt_packed(&[0u8; 31], &[0u8; 60]), Err(DecodeError::MalformedMode { len: 31 }));
    assert_eq!(adapt_packed(&[0u8; 33], &[0u8; 60]), Err(DecodeError::MalformedMode { len: 33 }));
}

#[test]
fn parallel_arrays_profile_is_selected_by_both_selectors() {
    let payload = encode_arrays(&[target(1)], &[wei(5)], &[vec![1u8, 2]]);
    for selector in [EXECUTE_SELECTOR, EXECUTE_BATCH_SELECTOR] {
        assert_eq!(
            adapt(&selector, &payload),
            Ok(Adapted {
                profile: Some(AccountProfile::ParallelArrays),
                entries: vec![entry(1, 5, &[1, 2])]
            })
        );
    }
}

#[test]
fn profile_follows_the_selector_not_the_payload() {
    let arrays = encode_arrays(&[target(1)], &[wei(5)], &[vec![1u8, 2]]);
    let packed = encode_execute_args(&mode_word(0x00), &pack_single(&entry(1, 5, &[1, 2])));
    assert_eq!(
        adapt(&EXECUTE_MODE_SELECTOR, &arrays),
        Ok(Adapted { profile: None, entries: vec![] })
    );
    assert_eq!(
        adapt(&EXECUTE_BATCH_SELECTOR, &packed),
        Err(DecodeError::MalformedAbi { stage: Stage::Payload, len: packed.len() })
    );
}

#[test]
fn unknown_outer_selector_is_an_unsupported_profile() {
    let payload = encode_arrays(&[target(1)], &[wei(5)], &[vec![1u8, 2]]);
    assert_eq!(
        adapt(&[1, 2, 3, 4], &payload),
        Err(DecodeError::UnsupportedProfile { selector: [1, 2, 3, 4] })
    );
}

#[test]
fn adapt_gives_the_same_entries_for_the_same_bytes() {
    let entries = vec![entry(1, 1, &[1]), entry(2, 2, &[2])];
    let payload = encode_execute_args(&mode_word(0x01), &encode_batch(&entries));
    assert_eq!(adapt(&EXECUTE_MODE_SELECTOR, &payload), adapt(&EXECUTE_MODE_SELECTOR, &payload));
}
