//! Properties of the checks and of the witnessed cancellation message as a whole.
use soroban_sdk::ledger::Ledger;
use soroban_sdk::{Bytes, Env};
use vstd::prelude::*;

use crate::big_endian::u64_to_be_bytes;
use crate::delegation::{
    build_witnessed_cancel_message, check_deadline, check_delegation_params,
    validate_delegation_params, validate_witness_cancel_deadline,
};
use crate::error::ContractError;
use crate::host::ledger_time;
use crate::layout::expected_datakey_count_for_version;
use crate::storage::{Address, ContractStorage, StorageView, Stream};

verus! {

use crate::host::{byte_contents, is_ledger_time};

use crate::big_endian::{
    be_bytes, be_bytes_concat, be_bytes_injective, be_bytes_width, byte_range_words,
};
use crate::delegation::{
    deadline_outcome, delegation_outcome, witnessed_cancel_domain, witnessed_cancel_domain_bytes,
    witnessed_cancel_message,
};
use crate::layout::{datakey_count, recorded_version};

/// The 128-bit two's complement of a signed amount.
pub open spec fn twos_complement(amount: i128) -> nat {
    if amount >= 0 {
        amount as nat
    } else {
        (amount + 0x1_0000_0000_0000_0000_0000_0000_0000_0000) as nat
    }
}

/// The message that a recipient signs for a delegated withdrawal: the stream id, the nonce and the
/// deadline in eight big-endian bytes each, and the least acceptable amount in sixteen.
pub open spec fn delegated_withdraw_message(
    stream_id: u64,
    nonce: u64,
    deadline: u64,
    expected_minimum: i128,
) -> Seq<u8> {
    be_bytes(stream_id as nat, 8) + be_bytes(nonce as nat, 8) + be_bytes(deadline as nat, 8)
        + be_bytes(twos_complement(expected_minimum), 16)
}

/// Whether the first three fields of a delegated withdrawal are, byte for byte, the tag of the
/// witnessed cancellation: `fluxora_`, `witnesse` and `d_cancel` read as big-endian numbers.
pub open spec fn fields_spell_domain(stream_id: u64, nonce: u64, deadline: u64) -> bool {
    &&& stream_id == 0x666c_7578_6f72_615f
    &&& nonce == 0x7769_746e_6573_7365
    &&& deadline == 0x645f_6361_6e63_656c
}

/// Whether the amount of a delegated withdrawal holds the two fields of an attestation.
pub open spec fn amount_holds(amount: i128, stream_id: u64, deadline: u64) -> bool {
    twos_complement(amount) == stream_id * 0x1_0000_0000_0000_0000 + deadline
}

/// An attestation consists of the tag, the stream id and the deadline, in 40 bytes.
pub proof fn witnessed_cancel_message_layout(stream_id: u64, deadline: u64)
    ensures
        witnessed_cancel_message(stream_id, deadline).len() == 40,
        witnessed_cancel_message(stream_id, deadline).subrange(0, 24) == witnessed_cancel_domain(),
        witnessed_cancel_message(stream_id, deadline).subrange(24, 32) == be_bytes(
            stream_id as nat,
            8,
        ),
        witnessed_cancel_message(stream_id, deadline).subrange(32, 40) == be_bytes(
            deadline as nat,
            8,
        ),
{
    witnessed_cancel_domain_bytes();
    be_bytes_width(stream_id as nat, 8);
    be_bytes_width(deadline as nat, 8);
}

/// An attestation commits to one stream and one deadline: no other pair has the same message.
pub proof fn witnessed_cancel_message_injective(
    stream_id: u64,
    deadline: u64,
    other_stream_id: u64,
    other_deadline: u64,
)
    requires
        witnessed_cancel_message(stream_id, deadline) == witnessed_cancel_message(
            other_stream_id,
            other_deadline,
        ),
    ensures
        stream_id == other_stream_id,
        deadline == other_deadline,
{
    byte_range_words();
    witnessed_cancel_message_layout(stream_id, deadline);
    witnessed_cancel_message_layout(other_stream_id, other_deadline);
    be_bytes_injective(stream_id as nat, other_stream_id as nat, 8);
    be_bytes_injective(deadline as nat, other_deadline as nat, 8);
}

/// The tag is the encoding of three numbers.
proof fn domain_words()
    ensures
        witnessed_cancel_domain() == be_bytes(0x666c_7578_6f72_615f, 8) + be_bytes(
            0x7769_746e_6573_7365,
            8,
        ) + be_bytes(0x645f_6361_6e63_656c, 8),
{
    witnessed_cancel_domain_bytes();
    reveal_with_fuel(be_bytes, 9);
    assert(witnessed_cancel_domain() =~= be_bytes(0x666c_7578_6f72_615f, 8) + be_bytes(
        0x7769_746e_6573_7365,
        8,
    ) + be_bytes(0x645f_6361_6e63_656c, 8));
}

/// A delegated withdrawal message consists of its four fields, in 40 bytes.
proof fn delegated_withdraw_message_layout(
    stream_id: u64,
    nonce: u64,
    deadline: u64,
    expected_minimum: i128,
)
    ensures
        ({
            let message = delegated_withdraw_message(stream_id, nonce, deadline, expected_minimum);
            &&& message.len() == 40
            &&& message.subrange(0, 8) == be_bytes(stream_id as nat, 8)
            &&& message.subrange(8, 16) == be_bytes(nonce as nat, 8)
            &&& message.subrange(16, 24) == be_bytes(deadline as nat, 8)
            &&& message.subrange(24, 40) == be_bytes(twos_complement(expected_minimum), 16)
        }),
{
    be_bytes_width(stream_id as nat, 8);
    be_bytes_width(nonce as nat, 8);
    be_bytes_width(deadline as nat, 8);
    be_bytes_width(twos_complement(expected_minimum), 16);
}

/// The two kinds of signed message have one byte sequence in common exactly when the fields of the
/// delegated withdrawal spell the tag and its amount holds the fields of the attestation.
pub proof fn messages_coincide(
    stream_id: u64,
    nonce: u64,
    deadline: u64,
    expected_minimum: i128,
    cancel_stream_id: u64,
    cancel_deadline: u64,
)
    ensures
        delegated_withdraw_message(stream_id, nonce, deadline, expected_minimum)
            == witnessed_cancel_message(cancel_stream_id, cancel_deadline) <==> {
            &&& fields_spell_domain(stream_id, nonce, deadline)
            &&& amount_holds(expected_minimum, cancel_stream_id, cancel_deadline)
        },
{
    let withdraw = delegated_withdraw_message(stream_id, nonce, deadline, expected_minimum);
    let cancel = witnessed_cancel_message(cancel_stream_id, cancel_deadline);
    let packed = (cancel_stream_id * 0x1_0000_0000_0000_0000 + cancel_deadline) as nat;
    byte_range_words();
    domain_words();
    witnessed_cancel_message_layout(cancel_stream_id, cancel_deadline);
    delegated_withdraw_message_layout(stream_id, nonce, deadline, expected_minimum);
    be_bytes_concat(cancel_stream_id as nat, cancel_deadline as nat, 8, 8);
    be_bytes_width(0x666c_7578_6f72_615f, 8);
    be_bytes_width(0x7769_746e_6573_7365, 8);
    be_bytes_width(0x645f_6361_6e63_656c, 8);
    assert(cancel.subrange(24, 40) =~= be_bytes(packed, 16));
    assert(cancel.subrange(0, 8) =~= be_bytes(0x666c_7578_6f72_615f, 8));
    assert(cancel.subrange(8, 16) =~= be_bytes(0x7769_746e_6573_7365, 8));
    assert(cancel.subrange(16, 24) =~= be_bytes(0x645f_6361_6e63_656c, 8));
    if withdraw == cancel {
        be_bytes_injective(stream_id as nat, 0x666c_7578_6f72_615f, 8);
        be_bytes_injective(nonce as nat, 0x7769_746e_6573_7365, 8);
        be_bytes_injective(deadline as nat, 0x645f_6361_6e63_656c, 8);
        be_bytes_injective(twos_complement(expected_minimum), packed, 16);
    }
    if fields_spell_domain(stream_id, nonce, deadline) && amount_holds(
        expected_minimum,
        cancel_stream_id,
        cancel_deadline,
    ) {
        assert(withdraw =~= cancel);
    }
}

/// Domain separation: an attestation is not the message of a delegated withdrawal, unless that
/// withdrawal's fields spell the tag and its amount holds the fields of the attestation.
pub proof fn attestation_is_no_withdrawal(
    stream_id: u64,
    nonce: u64,
    deadline: u64,
    expected_minimum: i128,
    cancel_stream_id: u64,
    cancel_deadline: u64,
)
    requires
        !(fields_spell_domain(stream_id, nonce, deadline) && amount_holds(
            expected_minimum,
            cancel_stream_id,
            cancel_deadline,
        )),
    ensures
        witnessed_cancel_message(cancel_stream_id, cancel_deadline) != delegated_withdraw_message(
            stream_id,
            nonce,
            deadline,
            expected_minimum,
        ),
{
    messages_coincide(
        stream_id,
        nonce,
        deadline,
        expected_minimum,
        cancel_stream_id,
        cancel_deadline,
    );
}

/// A delegated withdrawal is accepted exactly when all four checks pass, and each refusal names the
/// first check that fails.
pub proof fn checks_are_ordered(
    storage: StorageView,
    now: u64,
    stream_id: u64,
    nonce: u64,
    deadline: u64,
    relayer_fee: i128,
)
    ensures
        ({
            let outcome = delegation_outcome(
                storage,
                now,
                stream_id,
                nonce,
                deadline,
                relayer_fee,
            );
            let fee = relayer_fee >= 0;
            let in_time = now <= deadline;
            let known = storage.streams.contains_key(stream_id);
            let recipient = storage.streams[stream_id];
            let fresh = if storage.nonces.contains_key(recipient) {
                nonce == storage.nonces[recipient]
            } else {
                nonce == 0
            };
            &&& outcome is Ok <==> fee && in_time && known && fresh
            &&& outcome == Err::<(), _>(ContractError::InvalidParams) <==> !fee
            &&& outcome == Err::<(), _>(ContractError::SignatureDeadlineExpired) <==> fee
                && !in_time
            &&& outcome == Err::<(), _>(ContractError::StreamNotFound) <==> fee && in_time && !known
            &&& outcome == Err::<(), _>(ContractError::InvalidSignature) <==> fee && in_time && known
                && !fresh
        }),
{
}

/// Once a signature has expired it stays expired: as ledger time goes on, no attestation and no
/// delegated withdrawal becomes acceptable that was not.
pub proof fn expiry_is_final(
    storage: StorageView,
    now: u64,
    later: u64,
    stream_id: u64,
    nonce: u64,
    deadline: u64,
    relayer_fee: i128,
)
    requires
        now <= later,
    ensures
        deadline_outcome(later, deadline) is Ok ==> deadline_outcome(now, deadline) is Ok,
        delegation_outcome(storage, later, stream_id, nonce, deadline, relayer_fee) is Ok
            ==> delegation_outcome(storage, now, stream_id, nonce, deadline, relayer_fee) is Ok,
{
}

/// A deadline admits its own second and no later one.
pub proof fn deadline_is_inclusive(deadline: u64)
    ensures
        deadline_outcome(deadline, deadline) is Ok,
        deadline < u64::MAX ==> deadline_outcome((deadline + 1) as u64, deadline) is Err,
{
}

/// At any time one nonce at most is accepted for a stream: the current one of its recipient.
pub proof fn one_nonce_is_accepted(
    storage: StorageView,
    now: u64,
    stream_id: u64,
    nonce: u64,
    other_nonce: u64,
    deadline: u64,
    relayer_fee: i128,
)
    requires
        delegation_outcome(storage, now, stream_id, nonce, deadline, relayer_fee) is Ok,
    ensures
        nonce == storage.current_nonce(storage.streams[stream_id]),
        other_nonce != nonce ==> delegation_outcome(
            storage,
            now,
            stream_id,
            other_nonce,
            deadline,
            relayer_fee,
        ) == Err::<(), _>(ContractError::InvalidSignature),
{
}

/// No replay: once the recipient's nonce has moved on, a withdrawal that was accepted with the old
/// nonce is refused on every stream of that recipient, at any time and for any fee.
pub proof fn used_nonce_is_refused(
    storage: StorageView,
    now: u64,
    stream_id: u64,
    nonce: u64,
    deadline: u64,
    relayer_fee: i128,
    next_nonce: u64,
    later: u64,
    other_stream_id: u64,
    other_deadline: u64,
    other_fee: i128,
)
    requires
        delegation_outcome(storage, now, stream_id, nonce, deadline, relayer_fee) is Ok,
        next_nonce != nonce,
        storage.streams.contains_key(other_stream_id),
        storage.streams[other_stream_id] == storage.streams[stream_id],
    ensures
        ({
            let outcome = delegation_outcome(
                StorageView {
                    nonces: storage.nonces.insert(storage.streams[stream_id], next_nonce),
                    ..storage
                },
                later,
                other_stream_id,
                nonce,
                other_deadline,
                other_fee,
            );
            &&& outcome is Err
            &&& other_fee >= 0 && later <= other_deadline ==> outcome == Err::<(), _>(
                ContractError::InvalidSignature,
            )
        }),
{
}

/// The current nonce of a stored stream's recipient is accepted in time, whatever the fee, as long
/// as the fee is not negative.
pub proof fn current_nonce_is_accepted(
    storage: StorageView,
    now: u64,
    stream_id: u64,
    deadline: u64,
    relayer_fee: i128,
)
    requires
        relayer_fee >= 0,
        now <= deadline,
        storage.streams.contains_key(stream_id),
    ensures
        delegation_outcome(
            storage,
            now,
            stream_id,
            storage.current_nonce(storage.streams[stream_id]),
            deadline,
            relayer_fee,
        ) is Ok,
{
}

/// Nonces are kept per recipient: storing a nonce for somebody else changes no outcome.
pub proof fn nonces_are_per_recipient(
    storage: StorageView,
    now: u64,
    stream_id: u64,
    nonce: u64,
    deadline: u64,
    relayer_fee: i128,
    other_recipient: Seq<char>,
    other_nonce: u64,
)
    requires
        storage.streams.contains_key(stream_id) ==> storage.streams[stream_id] != other_recipient,
    ensures
        delegation_outcome(
            (StorageView {
                nonces: storage.nonces.insert(other_recipient, other_nonce),
                ..storage
            }),
            now,
            stream_id,
            nonce,
            deadline,
            relayer_fee,
        ) == delegation_outcome(storage, now, stream_id, nonce, deadline, relayer_fee),
{
}

/// Streams do not interfere: storing another stream changes no outcome.
pub proof fn streams_are_independent(
    storage: StorageView,
    now: u64,
    stream_id: u64,
    nonce: u64,
    deadline: u64,
    relayer_fee: i128,
    other_stream_id: u64,
    other_recipient: Seq<char>,
)
    requires
        other_stream_id != stream_id,
    ensures
        delegation_outcome(
            (StorageView {
                streams: storage.streams.insert(other_stream_id, other_recipient),
                ..storage
            }),
            now,
            stream_id,
            nonce,
            deadline,
            relayer_fee,
        ) == delegation_outcome(storage, now, stream_id, nonce, deadline, relayer_fee),
{
}

/// Of the relayer's fee only its sign counts.
pub proof fn only_the_sign_of_the_fee_counts(
    storage: StorageView,
    now: u64,
    stream_id: u64,
    nonce: u64,
    deadline: u64,
    relayer_fee: i128,
    other_fee: i128,
)
    requires
        relayer_fee < 0 <==> other_fee < 0,
    ensures
        delegation_outcome(storage, now, stream_id, nonce, deadline, relayer_fee)
            == delegation_outcome(storage, now, stream_id, nonce, deadline, other_fee),
{
}

/// Storage keys are only ever appended: no version has fewer than an earlier one.
pub proof fn datakeys_are_append_only(version: int, later_version: int)
    requires
        recorded_version(version),
        recorded_version(later_version),
        version <= later_version,
    ensures
        datakey_count(version) <= datakey_count(later_version),
{
}

/// Contract versions 5 to 9 are recorded, and no others.
pub proof fn versions_five_to_nine_are_recorded(version: int)
    ensures
        recorded_version(version) <==> version == 5 || version == 6 || version == 7 || version == 8
            || version == 9,
{
}

/// The key count of a version is 15 up to version 5, 29 for version 6 and 36 from version 7 on, and
/// every recorded version may be asked for.
pub proof fn datakey_counts_follow_the_table(version: u32, count: usize)
    requires
        5 <= version <= 9,
    ensures
        call_requires(expected_datakey_count_for_version, (version,)),
        call_ensures(expected_datakey_count_for_version, (version,), count) ==> {
            &&& count == 15 <==> version < 6
            &&& count == 29 <==> version == 6
            &&& count == 36 <==> version > 6
        },
{
}

/// The digits of a 64-bit encoding add up to its value.
proof fn eight_bytes_add_up(value: u64)
    ensures
        ({
            let b = be_bytes(value as nat, 8);
            value == b[0] * 0x100_0000_0000_0000 + b[1] * 0x1_0000_0000_0000 + b[2]
                * 0x100_0000_0000 + b[3] * 0x1_0000_0000 + b[4] * 0x100_0000 + b[5] * 0x1_0000
                + b[6] * 0x100 + b[7]
        }),
{
    reveal_with_fuel(be_bytes, 9);
}

/// The eight bytes of an encoded integer add up to it, each weighing 256 times the next.
pub proof fn encoded_bytes_add_up(value: u64, bytes: [u8; 8])
    requires
        call_ensures(u64_to_be_bytes, (value,), bytes),
    ensures
        value == bytes@[0] * 0x100_0000_0000_0000 + bytes@[1] * 0x1_0000_0000_0000 + bytes@[2]
            * 0x100_0000_0000 + bytes@[3] * 0x1_0000_0000 + bytes@[4] * 0x100_0000 + bytes@[5]
            * 0x1_0000 + bytes@[6] * 0x100 + bytes@[7],
{
}

/// The message built for a stream and a deadline consists of 40 bytes: the letters of the tag, then
/// eight bytes that add up to the stream id, then eight that add up to the deadline.
pub proof fn built_message_holds_tag_stream_and_deadline(
    env: &Env,
    stream_id: u64,
    deadline: u64,
    message: Bytes,
)
    requires
        call_ensures(build_witnessed_cancel_message, (env, stream_id, deadline), message),
    ensures
        ({
            let m = byte_contents(message);
            &&& m.len() == 40
            &&& m.subrange(0, 24) == seq![
                102u8, 108, 117, 120, 111, 114, 97, 95, 119, 105, 116, 110, 101, 115, 115, 101, 100,
                95, 99, 97, 110, 99, 101, 108,
            ]
            &&& stream_id == m[24] * 0x100_0000_0000_0000 + m[25] * 0x1_0000_0000_0000 + m[26]
                * 0x100_0000_0000 + m[27] * 0x1_0000_0000 + m[28] * 0x100_0000 + m[29] * 0x1_0000
                + m[30] * 0x100 + m[31]
            &&& deadline == m[32] * 0x100_0000_0000_0000 + m[33] * 0x1_0000_0000_0000 + m[34]
                * 0x100_0000_0000 + m[35] * 0x1_0000_0000 + m[36] * 0x100_0000 + m[37] * 0x1_0000
                + m[38] * 0x100 + m[39]
        }),
{
    let m = byte_contents(message);
    witnessed_cancel_domain_bytes();
    witnessed_cancel_message_layout(stream_id, deadline);
    assert(m.subrange(0, 24) =~= seq![
        102u8, 108, 117, 120, 111, 114, 97, 95, 119, 105, 116, 110, 101, 115, 115, 101, 100, 95, 99,
        97, 110, 99, 101, 108,
    ]);
    eight_bytes_add_up(stream_id);
    eight_bytes_add_up(deadline);
    let id = m.subrange(24, 32);
    let time = m.subrange(32, 40);
    assert(id[0] == m[24] && id[1] == m[25] && id[2] == m[26] && id[3] == m[27]);
    assert(id[4] == m[28] && id[5] == m[29] && id[6] == m[30] && id[7] == m[31]);
    assert(time[0] == m[32] && time[1] == m[33] && time[2] == m[34] && time[3] == m[35]);
    assert(time[4] == m[36] && time[5] == m[37] && time[6] == m[38] && time[7] == m[39]);
}

/// Two addresses are the same exactly if their strkeys have the same characters.
pub proof fn addresses_are_told_apart_by_strkey(a: Address, b: Address)
    ensures
        a@ == b@ <==> a.strkey@ == b.strkey@,
        a@ == a.strkey@,
{
}

/// A recipient's nonce is the stored one if there is one, and zero otherwise, whatever the strkey.
pub proof fn absent_nonce_is_zero(storage: ContractStorage, recipient: Address, nonce: u64)
    requires
        call_ensures(ContractStorage::load_delegated_nonce, (&storage, &recipient), nonce),
    ensures
        !storage@.nonces.contains_key(recipient.strkey@) ==> nonce == 0,
        storage@.nonces.contains_key(recipient.strkey@) ==> nonce
            == storage@.nonces[recipient.strkey@],
{
}

/// As long as no nonce is stored for a recipient, a delegated withdrawal from a stream of theirs
/// that is in order otherwise goes ahead with nonce zero and with no other.
pub proof fn first_withdrawal_carries_nonce_zero(
    storage: ContractStorage,
    now: u64,
    stream_id: u64,
    nonce: u64,
    deadline: u64,
    relayer_fee: i128,
    result: Result<(), ContractError>,
)
    requires
        relayer_fee >= 0,
        now <= deadline,
        storage@.streams.contains_key(stream_id),
        !storage@.nonces.contains_key(storage@.streams[stream_id]),
    ensures
        delegation_outcome(storage@, now, stream_id, nonce, deadline, relayer_fee) is Ok <==> nonce
            == 0,
        call_ensures(
            check_delegation_params,
            (&storage, now, stream_id, nonce, deadline, relayer_fee),
            result,
        ) ==> (result is Ok <==> nonce == 0),
{
}

/// New storage holds no stream, and every recipient starts at nonce zero in it.
pub proof fn new_storage_is_empty(
    storage: ContractStorage,
    stream_id: u64,
    found: Result<&Stream, ContractError>,
    recipient: Address,
    nonce: u64,
)
    requires
        call_ensures(ContractStorage::new, (), storage),
        call_ensures(ContractStorage::load_stream, (&storage, stream_id), found),
        call_ensures(ContractStorage::load_delegated_nonce, (&storage, &recipient), nonce),
    ensures
        found == Err::<&Stream, _>(ContractError::StreamNotFound),
        nonce == 0,
{
}

/// A saved nonce is read back for the same strkey. For every other strkey the nonce is what it was,
/// and so is every stream.
pub proof fn saved_nonce_is_read_back_for_its_strkey_only(
    storage: &mut ContractStorage,
    saved: Address,
    nonce: u64,
    recipient: Address,
    before: u64,
    after: u64,
    stream_id: u64,
    found_before: Result<&Stream, ContractError>,
    found_after: Result<&Stream, ContractError>,
)
    requires
        call_ensures(ContractStorage::load_delegated_nonce, (old(storage), &recipient), before),
        call_ensures(ContractStorage::load_stream, (old(storage), stream_id), found_before),
        call_ensures(ContractStorage::save_delegated_nonce, (storage, saved, nonce), ()),
        call_ensures(ContractStorage::load_delegated_nonce, (final(storage), &recipient), after),
        call_ensures(ContractStorage::load_stream, (final(storage), stream_id), found_after),
    ensures
        recipient.strkey@ == saved.strkey@ ==> after == nonce,
        recipient.strkey@ != saved.strkey@ ==> after == before,
        found_before is Ok <==> found_after is Ok,
        found_before is Ok ==> found_after->Ok_0.recipient.strkey@
            == found_before->Ok_0.recipient.strkey@,
{
}

/// A saved stream is read back under its id, with its recipient. Under every other id the stored
/// stream is what it was, and so is every nonce.
pub proof fn saved_stream_is_read_back_under_its_id_only(
    storage: &mut ContractStorage,
    saved: Stream,
    stream_id: u64,
    found_before: Result<&Stream, ContractError>,
    found_after: Result<&Stream, ContractError>,
    recipient: Address,
    before: u64,
    after: u64,
)
    requires
        call_ensures(ContractStorage::load_stream, (old(storage), stream_id), found_before),
        call_ensures(ContractStorage::load_delegated_nonce, (old(storage), &recipient), before),
        call_ensures(ContractStorage::save_stream, (storage, saved), ()),
        call_ensures(ContractStorage::load_stream, (final(storage), stream_id), found_after),
        call_ensures(ContractStorage::load_delegated_nonce, (final(storage), &recipient), after),
    ensures
        stream_id == saved.stream_id ==> {
            &&& found_after is Ok
            &&& found_after->Ok_0.stream_id == stream_id
            &&& found_after->Ok_0.recipient.strkey@ == saved.recipient.strkey@
        },
        stream_id != saved.stream_id ==> {
            &&& found_before is Ok <==> found_after is Ok
            &&& found_before is Ok ==> found_after->Ok_0.recipient.strkey@
                == found_before->Ok_0.recipient.strkey@
        },
        found_after is Err ==> found_after == Err::<&Stream, _>(ContractError::StreamNotFound),
        after == before,
{
}

/// What a delegated withdrawal is decided by: it goes ahead exactly if the fee is not negative, the
/// deadline has not passed, the stream is found, and the nonce is the one that is read for the
/// strkey of the stream's recipient.
pub proof fn withdrawal_needs_the_nonce_of_the_streams_recipient(
    storage: ContractStorage,
    now: u64,
    stream_id: u64,
    nonce: u64,
    deadline: u64,
    relayer_fee: i128,
    result: Result<(), ContractError>,
    found: Result<&Stream, ContractError>,
    recipient: Address,
    current: u64,
)
    requires
        call_ensures(
            check_delegation_params,
            (&storage, now, stream_id, nonce, deadline, relayer_fee),
            result,
        ),
        call_ensures(ContractStorage::load_stream, (&storage, stream_id), found),
        found is Ok ==> recipient.strkey@ == found->Ok_0.recipient.strkey@,
        call_ensures(ContractStorage::load_delegated_nonce, (&storage, &recipient), current),
    ensures
        result is Ok <==> relayer_fee >= 0 && now <= deadline && found is Ok && nonce == current,
        relayer_fee < 0 ==> result == Err::<(), _>(ContractError::InvalidParams),
        relayer_fee >= 0 && now > deadline ==> result == Err::<(), _>(
            ContractError::SignatureDeadlineExpired,
        ),
        relayer_fee >= 0 && now <= deadline && found is Err ==> result == Err::<(), _>(
            ContractError::StreamNotFound,
        ),
        relayer_fee >= 0 && now <= deadline && found is Ok && nonce != current ==> result == Err::<
            (),
            _,
        >(ContractError::InvalidSignature),
{
}

/// A deadline is checked against the given time as it stands: it holds exactly up to that time.
pub proof fn deadline_holds_up_to_itself(
    now: u64,
    deadline: u64,
    result: Result<(), ContractError>,
)
    requires
        call_ensures(check_deadline, (now, deadline), result),
    ensures
        now <= deadline ==> result == Ok::<(), ContractError>(()),
        now > deadline ==> result == Err::<(), _>(ContractError::SignatureDeadlineExpired),
{
}

/// The times of a host's clock are exactly the timestamps of its ledger, unchanged.
pub proof fn ledger_times_are_the_hosts_timestamps(env: &Env, now: u64)
    ensures
        is_ledger_time(env, now) <==> exists|ledger: Ledger| #[trigger]
            call_ensures(Env::ledger, (env,), ledger) && call_ensures(
                Ledger::timestamp,
                (&ledger,),
                now,
            ),
        call_ensures(ledger_time, (env,), now) ==> exists|ledger: Ledger| #[trigger]
            call_ensures(Env::ledger, (env,), ledger) && call_ensures(
                Ledger::timestamp,
                (&ledger,),
                now,
            ),
{
}

/// An attestation is accepted exactly if the timestamp that the host's ledger gave is not past the
/// deadline, and is refused as expired otherwise.
pub proof fn attestation_expires_by_the_hosts_timestamp(
    env: &Env,
    deadline: u64,
    result: Result<(), ContractError>,
)
    requires
        call_ensures(validate_witness_cancel_deadline, (env, deadline), result),
    ensures
        exists|ledger: Ledger, now: u64|
            ({
                &&& #[trigger] call_ensures(Env::ledger, (env,), ledger)
                &&& #[trigger] call_ensures(Ledger::timestamp, (&ledger,), now)
                &&& now <= deadline ==> result == Ok::<(), ContractError>(())
                &&& now > deadline ==> result == Err::<(), _>(
                    ContractError::SignatureDeadlineExpired,
                )
            }),
{
}

/// A delegated withdrawal is decided by the timestamp that the host's ledger gave, the stream that
/// is found, and the nonce that is read for the strkey of that stream's recipient.
pub proof fn withdrawal_expires_by_the_hosts_timestamp(
    env: &Env,
    storage: ContractStorage,
    stream_id: u64,
    nonce: u64,
    deadline: u64,
    relayer_fee: i128,
    result: Result<(), ContractError>,
    found: Result<&Stream, ContractError>,
    recipient: Address,
    current: u64,
)
    requires
        call_ensures(
            validate_delegation_params,
            (env, &storage, stream_id, nonce, deadline, relayer_fee),
            result,
        ),
        call_ensures(ContractStorage::load_stream, (&storage, stream_id), found),
        found is Ok ==> recipient.strkey@ == found->Ok_0.recipient.strkey@,
        call_ensures(ContractStorage::load_delegated_nonce, (&storage, &recipient), current),
    ensures
        relayer_fee < 0 <==> result == Err::<(), _>(ContractError::InvalidParams),
        relayer_fee >= 0 ==> exists|ledger: Ledger, now: u64|
            ({
                &&& #[trigger] call_ensures(Env::ledger, (env,), ledger)
                &&& #[trigger] call_ensures(Ledger::timestamp, (&ledger,), now)
                &&& now > deadline ==> result == Err::<(), _>(
                    ContractError::SignatureDeadlineExpired,
                )
                &&& now <= deadline && found is Err ==> result == Err::<(), _>(
                    ContractError::StreamNotFound,
                )
                &&& now <= deadline && found is Ok && nonce != current ==> result == Err::<(), _>(
                    ContractError::InvalidSignature,
                )
                &&& now <= deadline && found is Ok && nonce == current ==> result == Ok::<
                    (),
                    ContractError,
                >(())
            }),
{
}

/// No request is out of bounds: every function of the library may be called on any input, the key
/// count on any recorded version.
pub proof fn every_request_is_answered(
    env: &Env,
    storage: ContractStorage,
    storage_to_change: &mut ContractStorage,
    stream: Stream,
    recipient: Address,
    now: u64,
    stream_id: u64,
    nonce: u64,
    deadline: u64,
    relayer_fee: i128,
)
    ensures
        call_requires(check_deadline, (now, deadline)),
        call_requires(
            check_delegation_params,
            (&storage, now, stream_id, nonce, deadline, relayer_fee),
        ),
        call_requires(validate_witness_cancel_deadline, (env, deadline)),
        call_requires(
            validate_delegation_params,
            (env, &storage, stream_id, nonce, deadline, relayer_fee),
        ),
        call_requires(build_witnessed_cancel_message, (env, stream_id, deadline)),
        call_requires(ledger_time, (env,)),
        call_requires(u64_to_be_bytes, (now,)),
        call_requires(ContractStorage::new, ()),
        call_requires(ContractStorage::load_stream, (&storage, stream_id)),
        call_requires(ContractStorage::load_delegated_nonce, (&storage, &recipient)),
        call_requires(ContractStorage::save_stream, (storage_to_change, stream)),
        call_requires(ContractStorage::save_delegated_nonce, (storage_to_change, recipient, nonce)),
{
}

/// The message of a delegated withdrawal consists of 40 bytes: eight that add up to the stream id,
/// eight to the nonce, eight to the deadline, and sixteen to the least amount, with the first of
/// them telling its sign.
pub proof fn withdrawal_message_holds_its_fields(
    stream_id: u64,
    nonce: u64,
    deadline: u64,
    expected_minimum: i128,
)
    ensures
        ({
            let m = delegated_withdraw_message(stream_id, nonce, deadline, expected_minimum);
            let high = m[24] * 0x100_0000_0000_0000 + m[25] * 0x1_0000_0000_0000 + m[26]
                * 0x100_0000_0000 + m[27] * 0x1_0000_0000 + m[28] * 0x100_0000 + m[29] * 0x1_0000
                + m[30] * 0x100 + m[31];
            let low = m[32] * 0x100_0000_0000_0000 + m[33] * 0x1_0000_0000_0000 + m[34]
                * 0x100_0000_0000 + m[35] * 0x1_0000_0000 + m[36] * 0x100_0000 + m[37] * 0x1_0000
                + m[38] * 0x100 + m[39];
            &&& m.len() == 40
            &&& stream_id == m[0] * 0x100_0000_0000_0000 + m[1] * 0x1_0000_0000_0000 + m[2]
                * 0x100_0000_0000 + m[3] * 0x1_0000_0000 + m[4] * 0x100_0000 + m[5] * 0x1_0000
                + m[6] * 0x100 + m[7]
            &&& nonce == m[8] * 0x100_0000_0000_0000 + m[9] * 0x1_0000_0000_0000 + m[10]
                * 0x100_0000_0000 + m[11] * 0x1_0000_0000 + m[12] * 0x100_0000 + m[13] * 0x1_0000
                + m[14] * 0x100 + m[15]
            &&& deadline == m[16] * 0x100_0000_0000_0000 + m[17] * 0x1_0000_0000_0000 + m[18]
                * 0x100_0000_0000 + m[19] * 0x1_0000_0000 + m[20] * 0x100_0000 + m[21] * 0x1_0000
                + m[22] * 0x100 + m[23]
            &&& m[24] < 128 ==> expected_minimum == high * 0x1_0000_0000_0000_0000 + low
            &&& m[24] >= 128 ==> expected_minimum == high * 0x1_0000_0000_0000_0000 + low
                - 0x1_0000_0000_0000_0000_0000_0000_0000_0000
        }),
{
    let m = delegated_withdraw_message(stream_id, nonce, deadline, expected_minimum);
    let amount = twos_complement(expected_minimum);
    let high = amount / 0x1_0000_0000_0000_0000;
    let low = amount % 0x1_0000_0000_0000_0000;
    byte_range_words();
    delegated_withdraw_message_layout(stream_id, nonce, deadline, expected_minimum);
    be_bytes_concat(high, low, 8, 8);
    be_bytes_width(high, 8);
    be_bytes_width(low, 8);
    eight_bytes_add_up(stream_id);
    eight_bytes_add_up(nonce);
    eight_bytes_add_up(deadline);
    eight_bytes_add_up(high as u64);
    eight_bytes_add_up(low as u64);
    let id = m.subrange(0, 8);
    let count = m.subrange(8, 16);
    let time = m.subrange(16, 24);
    let upper = m.subrange(24, 32);
    let lower = m.subrange(32, 40);
    assert(upper =~= m.subrange(24, 40).subrange(0, 8));
    assert(lower =~= m.subrange(24, 40).subrange(8, 16));
    assert(upper =~= be_bytes(high, 8));
    assert(lower =~= be_bytes(low, 8));
    assert(id[0] == m[0] && id[1] == m[1] && id[2] == m[2] && id[3] == m[3]);
    assert(id[4] == m[4] && id[5] == m[5] && id[6] == m[6] && id[7] == m[7]);
    assert(count[0] == m[8] && count[1] == m[9] && count[2] == m[10] && count[3] == m[11]);
    assert(count[4] == m[12] && count[5] == m[13] && count[6] == m[14] && count[7] == m[15]);
    assert(time[0] == m[16] && time[1] == m[17] && time[2] == m[18] && time[3] == m[19]);
    assert(time[4] == m[20] && time[5] == m[21] && time[6] == m[22] && time[7] == m[23]);
    assert(upper[0] == m[24] && upper[1] == m[25] && upper[2] == m[26] && upper[3] == m[27]);
    assert(upper[4] == m[28] && upper[5] == m[29] && upper[6] == m[30] && upper[7] == m[31]);
    assert(lower[0] == m[32] && lower[1] == m[33] && lower[2] == m[34] && lower[3] == m[35]);
    assert(lower[4] == m[36] && lower[5] == m[37] && lower[6] == m[38] && lower[7] == m[39]);
}

/// A message built for a witness is no message of a delegated withdrawal, unless that withdrawal's
/// stream id, nonce and deadline are the three numbers that the tag spells and its amount, taken as
/// 128 bits, is the attested stream id followed by the attested deadline.
pub proof fn built_message_is_no_withdrawal(
    env: &Env,
    cancel_stream_id: u64,
    cancel_deadline: u64,
    message: Bytes,
    stream_id: u64,
    nonce: u64,
    deadline: u64,
    expected_minimum: i128,
)
    requires
        call_ensures(build_witnessed_cancel_message, (env, cancel_stream_id, cancel_deadline), message),
        !{
            let packed = cancel_stream_id * 0x1_0000_0000_0000_0000 + cancel_deadline;
            &&& stream_id == 0x666c_7578_6f72_615f
            &&& nonce == 0x7769_746e_6573_7365
            &&& deadline == 0x645f_6361_6e63_656c
            &&& expected_minimum == packed || expected_minimum == packed
                - 0x1_0000_0000_0000_0000_0000_0000_0000_0000
        },
    ensures
        byte_contents(message) != delegated_withdraw_message(
            stream_id,
            nonce,
            deadline,
            expected_minimum,
        ),
{
    messages_coincide(
        stream_id,
        nonce,
        deadline,
        expected_minimum,
        cancel_stream_id,
        cancel_deadline,
    );
}

} // verus!
