//! The inner-call classifier.
//!
//! The caller says which kind of token operation it expects an inner call to
//! be. The classifier checks that the call starts with the selector of that
//! kind and decodes the parameters. It never picks a kind by itself: call data
//! of the other kind is rejected, not reclassified.

use vstd::prelude::*;
use crate::abi::{decode_address_address_uint, decode_address_uint};
use crate::bytes::take_array;
use crate::error::{DecodeError, Stage};
use crate::selector::{
    expected_selector,
    selector_at,
    selector_eq,
    selector_of,
    SELECTOR_LEN,
    TRANSFER_FROM_SELECTOR,
    TRANSFER_SELECTOR,
};
use crate::types::{be_nat, TokenKind, TokenOperation, TokenOperationView};
use vstd::slice::slice_subrange;

verus! {

/// Length of the encoded parameters `(address, uint256)`.
pub const TRANSFER_PARAMS_LEN: usize = 64;

/// Length of the encoded parameters `(address, address, uint256)`.
pub const TRANSFER_FROM_PARAMS_LEN: usize = 96;

/// The operation that the parameters of a call of the given kind encode.
///
/// Each parameter is one 32-byte word. An address is the last 20 bytes of its
/// word; what stands in the 12 bytes before it is not looked at, nor what
/// follows the last word.
pub open spec fn spec_decode_params(params: Seq<u8>, kind: TokenKind) -> Result<
    TokenOperationView,
    DecodeError,
> {
    match kind {
        TokenKind::Erc20 => if params.len() >= TRANSFER_PARAMS_LEN {
            Ok(
                TokenOperationView::Transfer20 {
                    to: params.subrange(12, 32),
                    amount: be_nat(params.subrange(32, 64)),
                },
            )
        } else {
            Err(DecodeError::MalformedAbi { stage: Stage::InnerCall, len: params.len() as usize })
        },
        TokenKind::Erc721 => if params.len() >= TRANSFER_FROM_PARAMS_LEN {
            Ok(
                TokenOperationView::TransferFrom721 {
                    from: params.subrange(12, 32),
                    to: params.subrange(44, 64),
                    token_id: be_nat(params.subrange(64, 96)),
                },
            )
        } else {
            Err(DecodeError::MalformedAbi { stage: Stage::InnerCall, len: params.len() as usize })
        },
    }
}

/// What classifying an inner call against an expected kind gives.
pub open spec fn spec_classify(data: Seq<u8>, kind: TokenKind) -> Result<
    TokenOperationView,
    DecodeError,
> {
    if data.len() < SELECTOR_LEN {
        Err(DecodeError::TruncatedSelector { stage: Stage::InnerCall, len: data.len() as usize })
    } else if data.subrange(0, 4) != selector_of(kind)@ {
        Err(DecodeError::SelectorMismatch { expected: selector_of(kind), found: selector_at(data) })
    } else {
        spec_decode_params(data.subrange(4, data.len() as int), kind)
    }
}

/// The view of a classification result.
pub open spec fn classified_view(r: Result<TokenOperation, DecodeError>) -> Result<
    TokenOperationView,
    DecodeError,
> {
    match r {
        Ok(op) => Ok(op@),
        Err(e) => Err(e),
    }
}

/// Checks that `call_data` starts with `expected` and returns what follows
/// the selector.
fn strip_selector<'a>(call_data: &'a [u8], expected: &[u8; 4]) -> (r: Result<&'a [u8], DecodeError>)
    ensures
        match r {
            Ok(params) => call_data@.len() >= SELECTOR_LEN && call_data@.subrange(0, 4)
                == expected@ && params@ == call_data@.subrange(4, call_data@.len() as int),
            Err(e) => if call_data@.len() < SELECTOR_LEN {
                e == (DecodeError::TruncatedSelector {
                    stage: Stage::InnerCall,
                    len: call_data.len(),
                })
            } else {
                call_data@.subrange(0, 4) != expected@ && e == (DecodeError::SelectorMismatch {
                    expected: *expected,
                    found: selector_at(call_data@),
                })
            },
        },
{
    if call_data.len() < SELECTOR_LEN {
        return Err(
            DecodeError::TruncatedSelector { stage: Stage::InnerCall, len: call_data.len() },
        );
    }
    let found = take_array::<4>(call_data, 0);
    proof {
        assert(found =~= selector_at(call_data@));
    }
    if !selector_eq(&found, expected) {
        return Err(DecodeError::SelectorMismatch { expected: *expected, found });
    }
    Ok(slice_subrange(call_data, SELECTOR_LEN, call_data.len()))
}

/// Reads a fungible-token transfer: this is where a limit on the amount
/// applies.
///
/// The call must start with the selector of `transfer(address,uint256)`; what
/// follows is decoded as its two parameters.
pub fn limit_erc20_value(call_data: &[u8]) -> (r: Result<TokenOperation, DecodeError>)
    ensures
        classified_view(r) == spec_classify(call_data@, TokenKind::Erc20),
{
    let expected = expected_selector(TokenKind::Erc20);
    let params = match strip_selector(call_data, &expected) {
        Ok(params) => params,
        Err(e) => { return Err(e); },
    };
    match decode_address_uint(params) {
        Ok((to, amount)) => Ok(TokenOperation::Transfer20 { to, amount }),
        Err(_) => Err(DecodeError::MalformedAbi { stage: Stage::InnerCall, len: params.len() }),
    }
}

/// Reads a non-fungible-token transfer: this is where a limit on the token
/// applies.
///
/// The call must start with the selector of
/// `transferFrom(address,address,uint256)`; what follows is decoded as its
/// three parameters.
pub fn limit_erc721_value(call_data: &[u8]) -> (r: Result<TokenOperation, DecodeError>)
    ensures
        classified_view(r) == spec_classify(call_data@, TokenKind::Erc721),
{
    let expected = expected_selector(TokenKind::Erc721);
    let params = match strip_selector(call_data, &expected) {
        Ok(params) => params,
        Err(e) => { return Err(e); },
    };
    match decode_address_address_uint(params) {
        Ok((from, to, token_id)) => Ok(TokenOperation::TransferFrom721 { from, to, token_id }),
        Err(_) => Err(DecodeError::MalformedAbi { stage: Stage::InnerCall, len: params.len() }),
    }
}

/// Classifies an inner call against the kind that the caller expects.
///
/// Fails with `TruncatedSelector` on fewer than four bytes, with
/// `SelectorMismatch` where the first four bytes are not the selector of
/// `expected_kind`, and with `MalformedAbi` where the parameters are cut
/// short. Otherwise the operation holds the decoded parameters.
pub fn classify(inner_calldata: &[u8], expected_kind: TokenKind) -> (r: Result<
    TokenOperation,
    DecodeError,
>)
    ensures
        classified_view(r) == spec_classify(inner_calldata@, expected_kind),
{
    match expected_kind {
        TokenKind::Erc20 => limit_erc20_value(inner_calldata),
        TokenKind::Erc721 => limit_erc721_value(inner_calldata),
    }
}

/// The encoding of the parameters `(address, uint256)`: the address padded on
/// the left to a word, then the integer's word.
pub open spec fn encode_address_uint(to: Seq<u8>, amount: Seq<u8>) -> Seq<u8> {
    crate::bytes::zeros(12) + to + amount
}

/// Call data made of the transfer selector and the encoding of a recipient
/// and an amount classifies, as a fungible-token transfer, to that recipient
/// and that amount.
pub proof fn lemma_transfer_is_read_back(to: Seq<u8>, amount: Seq<u8>)
    requires
        to.len() == 20,
        amount.len() == 32,
    ensures
        spec_classify(TRANSFER_SELECTOR@ + encode_address_uint(to, amount), TokenKind::Erc20)
            == Ok::<TokenOperationView, DecodeError>(
            TokenOperationView::Transfer20 { to, amount: be_nat(amount) },
        ),
{
    let params = encode_address_uint(to, amount);
    let data = TRANSFER_SELECTOR@ + params;
    assert(data.subrange(0, 4) =~= TRANSFER_SELECTOR@);
    assert(data.subrange(4, data.len() as int) =~= params);
    assert(params.subrange(12, 32) =~= to);
    assert(params.subrange(32, 64) =~= amount);
}

/// Call data that starts with the transfer selector is rejected with
/// `SelectorMismatch` where the non-fungible kind is expected, whatever
/// follows the selector.
pub proof fn lemma_transfer_is_no_transfer_from(data: Seq<u8>)
    requires
        data.len() >= SELECTOR_LEN,
        data.subrange(0, 4) == TRANSFER_SELECTOR@,
    ensures
        spec_classify(data, TokenKind::Erc721) == Err::<TokenOperationView, DecodeError>(
            DecodeError::SelectorMismatch {
                expected: TRANSFER_FROM_SELECTOR,
                found: TRANSFER_SELECTOR,
            },
        ),
{
    crate::selector::lemma_inner_selectors_differ();
    assert(selector_at(data) =~= TRANSFER_SELECTOR) by {
        assert forall|i: int| 0 <= i < 4 implies selector_at(data)[i] == TRANSFER_SELECTOR[i] by {
            assert(data.subrange(0, 4)[i] == data[i]);
        }
    }
}

/// No call data classifies under both kinds.
pub proof fn lemma_kinds_exclude_each_other(data: Seq<u8>)
    ensures
        !(spec_classify(data, TokenKind::Erc20) is Ok && spec_classify(data, TokenKind::Erc721)
            is Ok),
{
    crate::selector::lemma_inner_selectors_differ();
}

} // verus!
