//! Checks on the parameters of delegated operations, and the message that a witness signs.
use soroban_sdk::ledger::Ledger;
use soroban_sdk::{Bytes, Env};
use vstd::prelude::*;

use crate::big_endian::u64_to_be_bytes;
use crate::error::ContractError;
use crate::host::ledger_time;
use crate::storage::{ContractStorage, Stream};

verus! {

use crate::big_endian::{be_bytes, be_bytes_width};
use crate::host::{byte_contents, is_ledger_time};
use crate::storage::StorageView;

/// Domain-separation tag of witnessed cancellation signatures: the ASCII bytes of
/// `fluxora_witnessed_cancel`.
///
/// It stands in front of the signed payload and keeps attestations apart from the messages of
/// delegated withdrawals, as [`crate::laws::attestation_is_no_withdrawal`] states.
pub const WITNESSED_CANCEL_DOMAIN: [u8; 24] = [
    102, 108, 117, 120, 111, 114, 97, 95, 119, 105, 116, 110, 101, 115, 115, 101, 100, 95, 99, 97,
    110, 99, 101, 108,
];

/// The bytes of an ASCII text.
pub open spec fn ascii(text: Seq<char>) -> Seq<u8> {
    text.map_values(|c: char| c as u8)
}

/// The text that the tag spells.
pub open spec fn witnessed_cancel_domain() -> Seq<u8> {
    ascii("fluxora_witnessed_cancel"@)
}

/// The tag spells its text.
pub proof fn witnessed_cancel_domain_bytes()
    ensures
        WITNESSED_CANCEL_DOMAIN@ == witnessed_cancel_domain(),
        witnessed_cancel_domain().len() == 24,
{
    reveal_strlit("fluxora_witnessed_cancel");
    assert(WITNESSED_CANCEL_DOMAIN@ =~= witnessed_cancel_domain());
}

/// The message that a witness signs to attest the cancellation of a stream: the tag, the stream id
/// and the deadline, both in eight big-endian bytes.
pub open spec fn witnessed_cancel_message(stream_id: u64, deadline: u64) -> Seq<u8> {
    witnessed_cancel_domain() + be_bytes(stream_id as nat, 8) + be_bytes(deadline as nat, 8)
}

/// What a signature's deadline means at ledger time `now`: it holds up to and including that time.
pub open spec fn deadline_outcome(now: u64, deadline: u64) -> Result<(), ContractError> {
    if now <= deadline {
        Ok(())
    } else {
        Err(ContractError::SignatureDeadlineExpired)
    }
}

/// Whether a delegated withdrawal may go ahead at ledger time `now`, and if not, the first reason
/// against it: the fee, then the deadline, then the stream, then the nonce.
pub open spec fn delegation_outcome(
    storage: StorageView,
    now: u64,
    stream_id: u64,
    nonce: u64,
    deadline: u64,
    relayer_fee: i128,
) -> Result<(), ContractError> {
    if relayer_fee < 0 {
        Err(ContractError::InvalidParams)
    } else if deadline_outcome(now, deadline) is Err {
        deadline_outcome(now, deadline)
    } else if !storage.streams.contains_key(stream_id) {
        Err(ContractError::StreamNotFound)
    } else if nonce != storage.current_nonce(storage.streams[stream_id]) {
        Err(ContractError::InvalidSignature)
    } else {
        Ok(())
    }
}

/// Checks a signature's deadline against the ledger time `now`.
pub fn check_deadline(now: u64, deadline: u64) -> (result: Result<(), ContractError>)
    ensures
        result is Ok <==> now <= deadline,
        result == Err::<(), _>(ContractError::SignatureDeadlineExpired) <==> now > deadline,
        result == deadline_outcome(now, deadline),
{
    if now > deadline {
        return Err(ContractError::SignatureDeadlineExpired);
    }
    Ok(())
}

/// Checks the parameters of a delegated withdrawal at ledger time `now`, in this order:
///
/// 1. the relayer's fee is not negative,
/// 2. the deadline has not passed,
/// 3. the stream exists,
/// 4. the nonce is the current one of the stream's recipient, which rejects replays.
pub fn check_delegation_params(
    storage: &ContractStorage,
    now: u64,
    stream_id: u64,
    nonce: u64,
    deadline: u64,
    relayer_fee: i128,
) -> (result: Result<(), ContractError>)
    ensures
        result == delegation_outcome(storage@, now, stream_id, nonce, deadline, relayer_fee),
        ({
            let known = storage@.streams.contains_key(stream_id);
            let recipient = storage@.streams[stream_id];
            let stored = storage@.nonces.contains_key(recipient);
            let fresh = nonce == if stored {
                storage@.nonces[recipient]
            } else {
                0
            };
            &&& result is Ok <==> relayer_fee >= 0 && now <= deadline && known && fresh
            &&& result == Err::<(), _>(ContractError::InvalidParams) <==> relayer_fee < 0
            &&& result == Err::<(), _>(ContractError::SignatureDeadlineExpired) <==> relayer_fee >= 0
                && now > deadline
            &&& result == Err::<(), _>(ContractError::StreamNotFound) <==> relayer_fee >= 0 && now
                <= deadline && !known
            &&& result == Err::<(), _>(ContractError::InvalidSignature) <==> relayer_fee >= 0 && now
                <= deadline && known && !fresh
        }),
{
    if relayer_fee < 0 {
        return Err(ContractError::InvalidParams);
    }
    match check_deadline(now, deadline) {
        Ok(()) => {},
        Err(error) => return Err(error),
    }
    let stream: &Stream = match storage.load_stream(stream_id) {
        Ok(stream) => stream,
        Err(error) => return Err(error),
    };
    let current_nonce: u64 = storage.load_delegated_nonce(&stream.recipient);
    if nonce != current_nonce {
        return Err(ContractError::InvalidSignature);
    }
    Ok(())
}

/// Validates the deadline of a witnessed cancellation against the host's ledger time.
///
/// Reads nothing that is stored, so an expired attestation is rejected before any stream is read.
/// A deadline at the end of time never expires.
pub fn validate_witness_cancel_deadline(env: &Env, deadline: u64) -> (result: Result<
    (),
    ContractError,
>)
    ensures
        exists|now: u64| #[trigger]
            is_ledger_time(env, now) && result == deadline_outcome(now, deadline),
        exists|ledger: Ledger, now: u64|
            ({
                &&& #[trigger] call_ensures(Env::ledger, (env,), ledger)
                &&& #[trigger] call_ensures(Ledger::timestamp, (&ledger,), now)
                &&& result is Ok <==> now <= deadline
            }),
        result is Err ==> result == Err::<(), _>(ContractError::SignatureDeadlineExpired),
        deadline == u64::MAX ==> result is Ok,
{
    let now: u64 = ledger_time(env);
    check_deadline(now, deadline)
}

/// Builds the message that a witness signs to attest the cancellation of a stream.
///
/// Layout: [`WITNESSED_CANCEL_DOMAIN`], then `stream_id` and `deadline`, each in eight big-endian
/// bytes.
pub fn build_witnessed_cancel_message(env: &Env, stream_id: u64, deadline: u64) -> (message: Bytes)
    ensures
        byte_contents(message) == witnessed_cancel_message(stream_id, deadline),
        byte_contents(message).len() == 40,
{
    proof {
        witnessed_cancel_domain_bytes();
        be_bytes_width(stream_id as nat, 8);
        be_bytes_width(deadline as nat, 8);
    }
    let mut message: Bytes = Bytes::new(env);
    message.extend_from_slice(&WITNESSED_CANCEL_DOMAIN);
    message.extend_from_array(&u64_to_be_bytes(stream_id));
    message.extend_from_array(&u64_to_be_bytes(deadline));
    message
}

/// Validates the parameters of a delegated withdrawal against the host's ledger time.
///
/// The checks and their order are those of [`check_delegation_params`]. The clock is read only for a
/// fee that is not negative.
pub fn validate_delegation_params(
    env: &Env,
    storage: &ContractStorage,
    stream_id: u64,
    nonce: u64,
    deadline: u64,
    relayer_fee: i128,
) -> (result: Result<(), ContractError>)
    ensures
        result == Err::<(), _>(ContractError::InvalidParams) <==> relayer_fee < 0,
        relayer_fee >= 0 ==> exists|now: u64| #[trigger]
            is_ledger_time(env, now) && result == delegation_outcome(
                storage@,
                now,
                stream_id,
                nonce,
                deadline,
                relayer_fee,
            ),
        relayer_fee >= 0 ==> exists|ledger: Ledger, now: u64|
            ({
                let known = storage@.streams.contains_key(stream_id);
                let recipient = storage@.streams[stream_id];
                let stored = storage@.nonces.contains_key(recipient);
                let fresh = nonce == if stored {
                    storage@.nonces[recipient]
                } else {
                    0
                };
                &&& #[trigger] call_ensures(Env::ledger, (env,), ledger)
                &&& #[trigger] call_ensures(Ledger::timestamp, (&ledger,), now)
                &&& result is Ok <==> now <= deadline && known && fresh
                &&& result == Err::<(), _>(ContractError::SignatureDeadlineExpired) <==> now
                    > deadline
                &&& result == Err::<(), _>(ContractError::StreamNotFound) <==> now <= deadline
                    && !known
                &&& result == Err::<(), _>(ContractError::InvalidSignature) <==> now <= deadline
                    && known && !fresh
            }),
        result is Ok ==> {
            &&& storage@.streams.contains_key(stream_id)
            &&& nonce == storage@.current_nonce(storage@.streams[stream_id])
        },
        deadline == u64::MAX ==> result == delegation_outcome(
            storage@,
            0,
            stream_id,
            nonce,
            deadline,
            relayer_fee,
        ),
{
    if relayer_fee < 0 {
        return Err(ContractError::InvalidParams);
    }
    let now: u64 = ledger_time(env);
    check_delegation_params(storage, now, stream_id, nonce, deadline, relayer_fee)
}

} // verus!
