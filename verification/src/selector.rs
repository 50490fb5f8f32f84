//! The table of function selectors.
//!
//! A selector is the first four bytes of the Keccak-256 hash of a function's
//! canonical signature. The table holds the constants; nothing here hashes.

use vstd::prelude::*;
use crate::error::DecodeError;
use crate::types::TokenKind;

verus! {

/// Length of a selector in bytes.
pub const SELECTOR_LEN: usize = 4;

/// `execute(bytes32,bytes)`: a mode word and a payload.
pub const EXECUTE_MODE_SELECTOR: [u8; 4] = [0xe9, 0xae, 0x5c, 0x53];

/// `execute(address,uint256,bytes)`: the single call of the convention whose
/// wire format is three parallel arrays.
pub const EXECUTE_SELECTOR: [u8; 4] = [0xb6, 0x1d, 0x27, 0xf6];

/// `executeBatch(address[],uint256[],bytes[])`: the batch call of the same
/// convention.
pub const EXECUTE_BATCH_SELECTOR: [u8; 4] = [0x47, 0xe1, 0xda, 0x2a];

/// `transfer(address,uint256)`.
pub const TRANSFER_SELECTOR: [u8; 4] = [0xa9, 0x05, 0x9c, 0xbb];

/// `transferFrom(address,address,uint256)`.
pub const TRANSFER_FROM_SELECTOR: [u8; 4] = [0x23, 0xb8, 0x72, 0xdd];

/// The account convention that an outer call follows.
#[derive(Clone, Copy, Debug, PartialEq, Eq)]
pub enum Convention {
    /// A mode word, then a payload whose shape the mode announces.
    PackedMode,
    /// Three parallel arrays: targets, values, call data.
    ParallelArrays,
}

/// The convention that an outer selector stands for, if it is in the table.
pub open spec fn convention_of(selector: [u8; 4]) -> Option<Convention> {
    if selector@ == EXECUTE_MODE_SELECTOR@ {
        Some(Convention::PackedMode)
    } else if selector@ == EXECUTE_SELECTOR@ || selector@ == EXECUTE_BATCH_SELECTOR@ {
        Some(Convention::ParallelArrays)
    } else {
        None
    }
}

/// The selector that an inner call of the given kind starts with.
pub open spec fn selector_of(kind: TokenKind) -> [u8; 4] {
    match kind {
        TokenKind::Erc20 => TRANSFER_SELECTOR,
        TokenKind::Erc721 => TRANSFER_FROM_SELECTOR,
    }
}

/// The first four bytes of a byte string, as a selector.
pub open spec fn selector_at(data: Seq<u8>) -> [u8; 4] {
    [data[0], data[1], data[2], data[3]]
}

/// Whether two selectors are the same four bytes.
pub fn selector_eq(a: &[u8; 4], b: &[u8; 4]) -> (r: bool)
    ensures
        r <==> a@ == b@,
        r <==> *a == *b,
{
    let r = a[0] == b[0] && a[1] == b[1] && a[2] == b[2] && a[3] == b[3];
    proof {
        if r {
            assert(a@ =~= b@);
            assert(*a =~= *b);
        }
    }
    r
}

/// Selects the account convention by exact match of the outer selector.
pub fn select_convention(selector: &[u8; 4]) -> (r: Result<Convention, DecodeError>)
    ensures
        match convention_of(*selector) {
            Some(c) => r == Ok::<Convention, DecodeError>(c),
            None => r == Err::<Convention, DecodeError>(
                DecodeError::UnsupportedProfile { selector: *selector },
            ),
        },
{
    if selector_eq(selector, &EXECUTE_MODE_SELECTOR) {
        Ok(Convention::PackedMode)
    } else if selector_eq(selector, &EXECUTE_SELECTOR) || selector_eq(
        selector,
        &EXECUTE_BATCH_SELECTOR,
    ) {
        Ok(Convention::ParallelArrays)
    } else {
        Err(DecodeError::UnsupportedProfile { selector: *selector })
    }
}

/// The selector that an inner call of the given kind must start with.
pub fn expected_selector(kind: TokenKind) -> (r: [u8; 4])
    ensures
        r == selector_of(kind),
{
    match kind {
        TokenKind::Erc20 => TRANSFER_SELECTOR,
        TokenKind::Erc721 => TRANSFER_FROM_SELECTOR,
    }
}

/// The two inner selectors differ, so no call data passes for both kinds.
pub proof fn lemma_inner_selectors_differ()
    ensures
        selector_of(TokenKind::Erc20)@ != selector_of(TokenKind::Erc721)@,
{
    assert(TRANSFER_SELECTOR@[0] == 0xa9u8);
    assert(TRANSFER_FROM_SELECTOR@[0] == 0x23u8);
}

} // verus!
