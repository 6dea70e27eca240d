use fluxora_stream::host::ledger_time;
use fluxora_stream::{
    build_witnessed_cancel_message, validate_delegation_params, validate_witness_cancel_deadline,
    Address, ContractError, ContractStorage, Stream, WITNESSED_CANCEL_DOMAIN,
};
use soroban_sdk::testutils::{EnvTestConfig, Ledger};
use soroban_sdk::Env;

fn address(strkey: &str) -> Address {
    Address {
        strkey: strkey.to_string(),
    }
}

fn recipient_a() -> Address {
    address("GAAZI4TCR3TY5OJHCTJC2A4QSY6CJWJH5IAJTGKIN2ER7LBNVKOCCWN7")
}

fn recipient_b() -> Address {
    address("GBRPYHIL2CI3FNQ4BXLFMNDLFJUNPU2HY3ZMFSHONUCEOASW7QC7OX2H")
}

fn new_env() -> Env {
    let env = Env::new_with_config(EnvTestConfig {
        capture_snapshot_at_drop: false,
    });
    env.ledger().set_timestamp(0);
    env
}

fn setup() -> (Env, ContractStorage, u64, Address) {
    let env = new_env();
    let mut storage = ContractStorage::new();
    let stream_id = 0;
    storage.save_stream(Stream {
        stream_id,
        recipient: recipient_a(),
    });
    (env, storage, stream_id, recipient_a())
}

#[test]
fn test_valid_relayer_fee_passes() {
    let (env, storage, stream_id, _recipient) = setup();
    env.ledger().set_timestamp(100);

    let result = validate_delegation_params(&env, &storage, stream_id, 0, 100, 0);
    assert_eq!(result, Ok(()));
}

/// Deadline one second before the current timestamp must fail.
#[test]
fn test_deadline_one_second_before_fails() {
    let (env, storage, stream_id, _recipient) = setup();
    env.ledger().set_timestamp(101);

    let result = validate_delegation_params(&env, &storage, stream_id, 0, 100, 0);
    assert_eq!(result, Err(ContractError::SignatureDeadlineExpired));
}

/// Nonce equal to the stored nonce (0) must pass.
#[test]
fn test_nonce_equal_passes() {
    let (env, storage, stream_id, _recipient) = setup();
    env.ledger().set_timestamp(50);

    let result = validate_delegation_params(&env, &storage, stream_id, 0, 100, 0);
    assert_eq!(result, Ok(()));
}

/// Nonce off by one (1 when stored is 0) must fail with InvalidSignature.
#[test]
fn test_nonce_off_by_one_fails() {
    let (env, storage, stream_id, _recipient) = setup();
    env.ledger().set_timestamp(50);

    let result = validate_delegation_params(&env, &storage, stream_id, 1, 100, 0);
    assert_eq!(result, Err(ContractError::InvalidSignature));
}

/// A stream id without a stream must fail with StreamNotFound.
#[test]
fn test_missing_stream_fails() {
    let (env, storage, _stream_id, _recipient) = setup();
    env.ledger().set_timestamp(50);

    let result = validate_delegation_params(&env, &storage, 999, 0, 100, 0);
    assert_eq!(result, Err(ContractError::StreamNotFound));
}

/// deadline=0 when timestamp > 0 must fail.
#[test]
fn test_deadline_zero_fails() {
    let (env, storage, stream_id, _recipient) = setup();
    env.ledger().set_timestamp(1);

    let result = validate_delegation_params(&env, &storage, stream_id, 0, 0, 0);
    assert_eq!(result, Err(ContractError::SignatureDeadlineExpired));
}

/// deadline=u64::MAX must pass (well into the future).
#[test]
fn test_deadline_max_value_passes() {
    let (env, storage, stream_id, _recipient) = setup();
    env.ledger().set_timestamp(100);

    let result = validate_delegation_params(&env, &storage, stream_id, 0, u64::MAX, 0);
    assert_eq!(result, Ok(()));
}

/// When both deadline and nonce are wrong, SignatureDeadlineExpired wins.
#[test]
fn test_deadline_checked_before_nonce() {
    let (env, storage, stream_id, _recipient) = setup();
    env.ledger().set_timestamp(200);

    let result = validate_delegation_params(&env, &storage, stream_id, 999, 100, 0);
    assert_eq!(result, Err(ContractError::SignatureDeadlineExpired));
}

/// When the stream does not exist and the nonce is wrong, StreamNotFound wins.
#[test]
fn test_stream_not_found_checked_before_nonce() {
    let (env, storage, _stream_id, _recipient) = setup();
    env.ledger().set_timestamp(50);

    let result = validate_delegation_params(&env, &storage, 999, 999, 100, 0);
    assert_eq!(result, Err(ContractError::StreamNotFound));
}

/// nonce=u64::MAX when the stored nonce is 0 must fail.
#[test]
fn test_nonce_max_value_fails() {
    let (env, storage, stream_id, _recipient) = setup();
    env.ledger().set_timestamp(50);

    let result = validate_delegation_params(&env, &storage, stream_id, u64::MAX, 100, 0);
    assert_eq!(result, Err(ContractError::InvalidSignature));
}

/// Nonces are scoped per recipient: a second stream with a different recipient does not affect the
/// first recipient's nonce.
#[test]
fn test_nonce_is_per_recipient() {
    let (env, mut storage, stream_a, _recipient) = setup();
    let stream_b = 1;
    storage.save_stream(Stream {
        stream_id: stream_b,
        recipient: recipient_b(),
    });

    env.ledger().set_timestamp(50);

    // Both recipients start at nonce 0; nonce 0 must pass for both.
    assert_eq!(
        validate_delegation_params(&env, &storage, stream_a, 0, 100, 0),
        Ok(())
    );
    assert_eq!(
        validate_delegation_params(&env, &storage, stream_b, 0, 100, 0),
        Ok(())
    );

    // Nonce 1 must fail for both (stored is 0).
    assert_eq!(
        validate_delegation_params(&env, &storage, stream_a, 1, 100, 0),
        Err(ContractError::InvalidSignature)
    );
    assert_eq!(
        validate_delegation_params(&env, &storage, stream_b, 1, 100, 0),
        Err(ContractError::InvalidSignature)
    );
}

/// A refused request must not consume the nonce; a later one with the correct nonce still passes.
#[test]
fn test_failed_validation_does_not_consume_nonce() {
    let (env, storage, stream_id, _recipient) = setup();
    env.ledger().set_timestamp(50);

    let result_fail = validate_delegation_params(&env, &storage, stream_id, 1, 100, 0);
    assert_eq!(result_fail, Err(ContractError::InvalidSignature));

    let result_ok = validate_delegation_params(&env, &storage, stream_id, 0, 100, 0);
    assert_eq!(result_ok, Ok(()));
}

/// Deadline exactly equal to the current timestamp must pass.
#[test]
fn test_witness_cancel_deadline_equal_to_now_passes() {
    let (env, _storage, _stream_id, _recipient) = setup();
    env.ledger().set_timestamp(100);

    let result = validate_witness_cancel_deadline(&env, 100);
    assert_eq!(result, Ok(()));
}

/// Deadline one second before the current timestamp must fail.
#[test]
fn test_witness_cancel_deadline_expired_fails() {
    let (env, _storage, _stream_id, _recipient) = setup();
    env.ledger().set_timestamp(101);

    let result = validate_witness_cancel_deadline(&env, 100);
    assert_eq!(result, Err(ContractError::SignatureDeadlineExpired));
}

/// The attestation message holds the domain-separation tag.
#[test]
fn test_witness_cancel_message_domain_separated() {
    let (env, _storage, stream_id, _recipient) = setup();
    let msg = build_witnessed_cancel_message(&env, stream_id, 500);
    assert!(msg.len() >= WITNESSED_CANCEL_DOMAIN.len() as u32 + 16);
}

/// A delegation that is used before anything revokes it must succeed.
#[test]
fn test_pre_revocation_delegated_withdraw_succeeds() {
    let (env, storage, stream_id, _recipient) = setup();
    env.ledger().set_timestamp(50);

    let result = validate_delegation_params(&env, &storage, stream_id, 0, 100, 10);
    assert_eq!(result, Ok(()));
}

#[test]
fn test_negative_relayer_fee_fails() {
    let (env, storage, stream_id, _recipient) = setup();
    env.ledger().set_timestamp(100);

    let result = validate_delegation_params(&env, &storage, stream_id, 0, 100, -1);
    assert_eq!(result, Err(ContractError::InvalidParams));
}

/// A negative fee wins over every other reason for refusal.
#[test]
fn fee_is_checked_first() {
    let (env, storage, _stream_id, _recipient) = setup();
    env.ledger().set_timestamp(200);

    let result = validate_delegation_params(&env, &storage, 999, 999, 100, i128::MIN);
    assert_eq!(result, Err(ContractError::InvalidParams));
}

/// The expired deadline wins over the missing stream.
#[test]
fn deadline_is_checked_before_stream() {
    let (env, storage, _stream_id, _recipient) = setup();
    env.ledger().set_timestamp(101);

    let result = validate_delegation_params(&env, &storage, 999, 0, 100, i128::MAX);
    assert_eq!(result, Err(ContractError::SignatureDeadlineExpired));
}

/// The size of a fee that is not negative does not matter.
#[test]
fn largest_fee_passes() {
    let (env, storage, stream_id, _recipient) = setup();
    env.ledger().set_timestamp(100);

    let result = validate_delegation_params(&env, &storage, stream_id, 0, 100, i128::MAX);
    assert_eq!(result, Ok(()));
}

/// The same request passes up to its deadline and stays refused from then on.
#[test]
fn expiry_follows_the_ledger_clock() {
    let (env, storage, stream_id, _recipient) = setup();
    let times = [0u64, 99, 100, 101, 102, u64::MAX];
    let accepted = [true, true, true, false, false, false];
    for i in 0..times.len() {
        env.ledger().set_timestamp(times[i]);
        assert_eq!(
            validate_delegation_params(&env, &storage, stream_id, 0, 100, 0).is_ok(),
            accepted[i]
        );
        assert_eq!(
            validate_witness_cancel_deadline(&env, 100).is_ok(),
            accepted[i]
        );
    }
}

/// At the end of time the last deadline still holds.
#[test]
fn last_deadline_never_expires() {
    let (env, storage, stream_id, _recipient) = setup();
    env.ledger().set_timestamp(u64::MAX);

    assert_eq!(validate_witness_cancel_deadline(&env, u64::MAX), Ok(()));
    assert_eq!(
        validate_delegation_params(&env, &storage, stream_id, 0, u64::MAX, 0),
        Ok(())
    );
}

/// Once the nonce has moved on, the old one is refused on every stream of the recipient, and the
/// other recipient is not affected.
#[test]
fn used_nonce_is_refused_for_its_recipient_only() {
    let (env, mut storage, stream_a, recipient) = setup();
    storage.save_stream(Stream {
        stream_id: 7,
        recipient: recipient_a(),
    });
    storage.save_stream(Stream {
        stream_id: 8,
        recipient: recipient_b(),
    });
    env.ledger().set_timestamp(50);
    assert_eq!(
        validate_delegation_params(&env, &storage, stream_a, 0, 100, 0),
        Ok(())
    );

    storage.save_delegated_nonce(recipient, 1);
    for stream_id in [stream_a, 7] {
        assert_eq!(
            validate_delegation_params(&env, &storage, stream_id, 0, 100, 0),
            Err(ContractError::InvalidSignature)
        );
        assert_eq!(
            validate_delegation_params(&env, &storage, stream_id, 1, 100, 0),
            Ok(())
        );
    }
    assert_eq!(
        validate_delegation_params(&env, &storage, 8, 0, 100, 0),
        Ok(())
    );
    assert_eq!(
        validate_delegation_params(&env, &storage, 8, 1, 100, 0),
        Err(ContractError::InvalidSignature)
    );
}

/// The clock is the one of the ledger that the host has set.
#[test]
fn ledger_time_is_the_hosts_clock() {
    let env = new_env();
    for now in [0u64, 1, 1_700_000_000, u64::MAX] {
        env.ledger().set_timestamp(now);
        assert_eq!(ledger_time(&env), now);
    }
}
