//! Inspection of the call data that a smart-contract account is asked to
//! execute: which account convention the outer call follows, which execution
//! mode it names, which inner calls it carries, and which token transfer each
//! inner call encodes.
//!
//! The crate executes nothing and signs nothing. It turns bytes into typed
//! values. Every function states in its contract which bytes give which value
//! or which error; where an ABI codec of another crate decides, the contract
//! speaks of what that codec returns, and `abi` says what is taken on trust.
//!
//! - `mode`: the 32-byte execution mode and its classification.
//! - `selector`: the table of function selectors.
//! - `classifier`: from an inner call and an expected kind to a token
//!   operation.
//! - `layout`, `abi`: the parameter lists asked of the payload codec, and the
//!   calls into the codecs.
//! - `adapter`: from an outer call to its list of inner calls.
//! - `pipeline`: adapter and classifier together, and the list of reports.
//! - `types`, `error`, `bytes`: the values, the errors, and byte helpers.

pub mod bytes;
pub mod types;
pub mod error;
pub mod abi;
pub mod mode;
pub mod selector;
pub mod classifier;
pub mod layout;
pub mod adapter;
pub mod pipeline;
