use fluxora_stream::expected_datakey_count_for_version;

/// Version 5 has 15 storage keys.
#[test]
fn test_expected_datakey_count_mapping_v5() {
    assert_eq!(expected_datakey_count_for_version(5), 15);
}

/// Version 6 has 29 storage keys.
#[test]
fn test_expected_datakey_count_mapping_v6() {
    assert_eq!(expected_datakey_count_for_version(6), 29);
}

/// Version 9 has 36 storage keys.
#[test]
fn test_expected_datakey_count_mapping_v9() {
    assert_eq!(expected_datakey_count_for_version(9), 36);
}

/// Versions 7 to 9 share one count, and no version has fewer keys than the one before.
#[test]
fn datakeys_are_append_only() {
    assert_eq!(expected_datakey_count_for_version(7), 36);
    assert_eq!(expected_datakey_count_for_version(8), 36);
    for version in 5..9u32 {
        assert!(
            expected_datakey_count_for_version(version)
                <= expected_datakey_count_for_version(version + 1)
        );
    }
}
