use fluxora_stream::{
    check_deadline, check_delegation_params, Address, ContractError, ContractStorage, Stream,
};

fn address(strkey: &str) -> Address {
    Address {
        strkey: strkey.to_string(),
    }
}

fn stream(stream_id: u64, recipient: &str) -> Stream {
    Stream {
        stream_id,
        recipient: address(recipient),
    }
}

#[test]
fn deadline_is_inclusive() {
    assert_eq!(check_deadline(100, 101), Ok(()));
    assert_eq!(check_deadline(100, 100), Ok(()));
    assert_eq!(
        check_deadline(100, 99),
        Err(ContractError::SignatureDeadlineExpired)
    );
    assert_eq!(check_deadline(0, 0), Ok(()));
    assert_eq!(check_deadline(u64::MAX, u64::MAX), Ok(()));
    assert_eq!(
        check_deadline(u64::MAX, 0),
        Err(ContractError::SignatureDeadlineExpired)
    );
}

#[test]
fn each_check_has_its_error() {
    let mut storage = ContractStorage::new();
    storage.save_stream(stream(3, "GA"));
    storage.save_delegated_nonce(address("GA"), 42);

    assert_eq!(check_delegation_params(&storage, 10, 3, 42, 10, 0), Ok(()));
    assert_eq!(
        check_delegation_params(&storage, 10, 3, 42, 10, -1),
        Err(ContractError::InvalidParams)
    );
    assert_eq!(
        check_delegation_params(&storage, 10, 3, 42, 9, 0),
        Err(ContractError::SignatureDeadlineExpired)
    );
    assert_eq!(
        check_delegation_params(&storage, 10, 4, 42, 10, 0),
        Err(ContractError::StreamNotFound)
    );
    assert_eq!(
        check_delegation_params(&storage, 10, 3, 41, 10, 0),
        Err(ContractError::InvalidSignature)
    );
}

#[test]
fn one_nonce_is_accepted() {
    let mut storage = ContractStorage::new();
    storage.save_stream(stream(0, "GA"));
    storage.save_delegated_nonce(address("GA"), 5);
    for nonce in 0..20u64 {
        assert_eq!(
            check_delegation_params(&storage, 0, 0, nonce, 0, 0).is_ok(),
            nonce == 5
        );
    }
}

#[test]
fn empty_storage_knows_no_stream_and_starts_nonces_at_zero() {
    let storage = ContractStorage::new();
    assert_eq!(
        storage.load_stream(0).err(),
        Some(ContractError::StreamNotFound)
    );
    assert_eq!(storage.load_delegated_nonce(&address("GA")), 0);
}

#[test]
fn later_entries_replace_earlier_ones() {
    let mut storage = ContractStorage::new();
    storage.save_stream(stream(1, "GA"));
    storage.save_stream(stream(2, "GB"));
    storage.save_stream(stream(1, "GC"));
    assert_eq!(storage.load_stream(1).unwrap().recipient.strkey, "GC");
    assert_eq!(storage.load_stream(1).unwrap().stream_id, 1);
    assert_eq!(storage.load_stream(2).unwrap().recipient.strkey, "GB");
    assert!(storage.load_stream(3).is_err());

    storage.save_delegated_nonce(address("GA"), 1);
    storage.save_delegated_nonce(address("GB"), 9);
    storage.save_delegated_nonce(address("GA"), 2);
    assert_eq!(storage.load_delegated_nonce(&address("GA")), 2);
    assert_eq!(storage.load_delegated_nonce(&address("GB")), 9);
    assert_eq!(storage.load_delegated_nonce(&address("GC")), 0);
}
