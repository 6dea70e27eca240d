//! Authorization checks for delegated operations on token streams.
//!
//! Two operations of the stream contract act on a signature made away from the ledger: a withdrawal
//! that a relayer submits for the recipient, and a cancellation that a witness attests. This
//! library holds the checks on their parameters and the message that the witness signs.
//!
//! - [`delegation`]: the checks and the message.
//! - [`storage`]: the streams and nonces that the checks read.
//! - [`laws`]: properties of the checks and of the message as a whole.
//! - [`big_endian`]: the fixed-width encoding of integers.
//! - [`host`]: the ledger host, through `soroban_sdk`.
//! - [`layout`]: the number of storage keys in each contract version.
pub mod big_endian;
pub mod delegation;
pub mod error;
pub mod host;
pub mod laws;
pub mod layout;
pub mod storage;

pub use delegation::{
    build_witnessed_cancel_message, check_deadline, check_delegation_params,
    validate_delegation_params, validate_witness_cancel_deadline, WITNESSED_CANCEL_DOMAIN,
};
pub use error::ContractError;
pub use layout::expected_datakey_count_for_version;
pub use storage::{Address, ContractStorage, Stream};
