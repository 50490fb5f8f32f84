use calldata_inspector::error::{DecodeError, Stage};
use calldata_inspector::mode::{
    decode_mode, CallShape, CallTypeTag, ExecutionMode, CALLTYPE_BATCH, CALLTYPE_DELEGATE,
    CALLTYPE_SINGLE,
};

fn word(call_type: u8) -> Vec<u8> {
    let mut bytes = vec![0u8; 32];
    bytes[0] = call_type;
    bytes
}

#[test]
fn zero_word_is_single() {
    assert_eq!(decode_mode(&word(CALLTYPE_SINGLE)), Ok(CallShape::Single));
}

#[test]
fn batch_call_type_with_zero_rest_is_batch() {
    assert_eq!(decode_mode(&word(CALLTYPE_BATCH)), Ok(CallShape::Batch));
}

#[test]
fn delegate_call_type_is_unknown_and_no_error() {
    assert_eq!(decode_mode(&word(CALLTYPE_DELEGATE)), Ok(CallShape::Unknown));
}

#[test]
fn every_other_call_type_is_unknown() {
    for call_type in 2u8..=255 {
        assert_eq!(decode_mode(&word(call_type)), Ok(CallShape::Unknown));
    }
}

#[test]
fn any_single_deviating_byte_makes_the_mode_unknown() {
    for call_type in [CALLTYPE_SINGLE, CALLTYPE_BATCH] {
        for position in 1..32 {
            for value in [0x01u8, 0x80, 0xff] {
                let mut bytes = word(call_type);
                bytes[position] = value;
                assert_eq!(decode_mode(&bytes), Ok(CallShape::Unknown), "byte {position}");
            }
        }
    }
}

#[test]
fn try_execution_type_is_unknown() {
    let mut bytes = word(CALLTYPE_SINGLE);
    bytes[1] = 0x01;
    assert_eq!(decode_mode(&bytes), Ok(CallShape::Unknown));
}

#[test]
fn mode_of_31_bytes_is_malformed() {
    assert_eq!(decode_mode(&[0u8; 31]), Err(DecodeError::MalformedMode { len: 31 }));
}

#[test]
fn mode_of_33_bytes_is_malformed() {
    assert_eq!(decode_mode(&[0u8; 33]), Err(DecodeError::MalformedMode { len: 33 }));
}

#[test]
fn empty_mode_is_malformed() {
    assert_eq!(decode_mode(&[]), Err(DecodeError::MalformedMode { len: 0 }));
}

#[test]
fn parse_splits_the_word_at_its_offsets() {
    let bytes: Vec<u8> = (1u8..=32).collect();
    let mode = ExecutionMode::parse(&bytes).unwrap();
    assert_eq!(mode.call_type, 1);
    assert_eq!(mode.exec_type, 2);
    assert_eq!(mode.mode_selector, [3, 4, 5, 6]);
    assert_eq!(mode.mode_unused, [7, 8, 9, 10]);
    let payload: Vec<u8> = (11u8..=32).collect();
    assert_eq!(mode.mode_payload.to_vec(), payload);
    assert_eq!(mode.shape(), CallShape::Unknown);
}

#[test]
fn parse_rejects_a_wrong_length() {
    assert_eq!(ExecutionMode::parse(&[0u8; 30]), Err(DecodeError::MalformedMode { len: 30 }));
}

#[test]
fn call_type_tags() {
    let tag = |call_type: u8| ExecutionMode::parse(&word(call_type)).unwrap().call_type_tag();
    assert_eq!(tag(0x00), CallTypeTag::Single);
    assert_eq!(tag(0x01), CallTypeTag::Batch);
    assert_eq!(tag(0xff), CallTypeTag::Delegate);
    assert_eq!(tag(0x02), CallTypeTag::Unrecognized);
    assert_eq!(tag(0xfe), CallTypeTag::Unrecognized);
}

#[test]
fn shape_of_a_parsed_mode_is_the_shape_of_its_word() {
    for call_type in [0x00u8, 0x01, 0x02, 0xff] {
        for dirty in [None, Some(1usize), Some(5), Some(9), Some(31)] {
            let mut bytes = word(call_type);
            if let Some(position) = dirty {
                bytes[position] = 7;
            }
            let mode = ExecutionMode::parse(&bytes).unwrap();
            assert_eq!(Ok(mode.shape()), decode_mode(&bytes));
        }
    }
}

#[test]
fn every_error_names_its_stage() {
    let cases = [
        (DecodeError::MalformedMode { len: 3 }, Stage::Mode),
        (DecodeError::MalformedAbi { stage: Stage::OuterCall, len: 3 }, Stage::OuterCall),
        (DecodeError::MalformedAbi { stage: Stage::InnerCall, len: 3 }, Stage::InnerCall),
        (DecodeError::TruncatedPayload { len: 3 }, Stage::Payload),
        (DecodeError::TruncatedSelector { stage: Stage::OuterCall, len: 3 }, Stage::OuterCall),
        (DecodeError::TruncatedSelector { stage: Stage::InnerCall, len: 3 }, Stage::InnerCall),
        (
            DecodeError::ArrayLengthMismatch { targets: 2, values: 2, calldatas: 1 },
            Stage::Payload,
        ),
        (
            DecodeError::SelectorMismatch { expected: [1, 2, 3, 4], found: [5, 6, 7, 8] },
            Stage::InnerCall,
        ),
        (DecodeError::UnsupportedProfile { selector: [1, 2, 3, 4] }, Stage::OuterCall),
        (DecodeError::TooLarge { stage: Stage::Payload, len: 9, limit: 8 }, Stage::Payload),
        (DecodeError::UnsupportedTarget { stage: Stage::OuterCall }, Stage::OuterCall),
    ];
    for (error, stage) in cases {
        assert_eq!(error.stage(), stage);
    }
}
