use nssf::services::feature_negotiation::{
    bits_to_hex_char, create_feature_string, hex_char_to_bits, is_feature_negotiated,
    is_feature_supported_by_nssf, negotiate_features, parse_feature_string,
    validate_required_features, NssfFeature,
};

#[test]
fn test_negotiate_all_features_requested() {
    assert_eq!(negotiate_features(Some("1f")), Some("1c".to_string()));
}

#[test]
fn test_negotiate_lower_features_requested() {
    assert_eq!(negotiate_features(Some("7")), Some("4".to_string()));
}

#[test]
fn test_negotiate_enhanced_roaming_only() {
    assert_eq!(negotiate_features(Some("4")), Some("4".to_string()));
}

#[test]
fn test_negotiate_slice_priority_only() {
    assert_eq!(negotiate_features(Some("8")), Some("8".to_string()));
}

#[test]
fn test_negotiate_dynamic_mapping_only() {
    assert_eq!(negotiate_features(Some("10")), Some("10".to_string()));
}

#[test]
fn test_negotiate_nssrg_not_supported() {
    assert_eq!(negotiate_features(Some("1")), None);
}

#[test]
fn test_negotiate_nsag_not_supported() {
    assert_eq!(negotiate_features(Some("2")), None);
}

#[test]
fn test_negotiate_none_input() {
    assert_eq!(negotiate_features(None), None);
}

#[test]
fn test_negotiate_empty_input() {
    assert_eq!(negotiate_features(Some("")), None);
}

#[test]
fn test_negotiate_invalid_hex() {
    assert_eq!(negotiate_features(Some("xyz")), None);
}

#[test]
fn test_negotiate_case_insensitive() {
    assert_eq!(negotiate_features(Some("1F")), Some("1c".to_string()));
}

#[test]
fn test_is_feature_negotiated() {
    assert!(is_feature_negotiated(Some("1c"), NssfFeature::EnhancedRoaming));
    assert!(is_feature_negotiated(Some("1c"), NssfFeature::SlicePriority));
    assert!(is_feature_negotiated(Some("1c"), NssfFeature::DynamicMapping));
    assert!(!is_feature_negotiated(Some("1c"), NssfFeature::Nssrg));
    assert!(!is_feature_negotiated(Some("1c"), NssfFeature::Nsag));
}

#[test]
fn test_is_feature_negotiated_none() {
    assert!(!is_feature_negotiated(None, NssfFeature::EnhancedRoaming));
}

#[test]
fn test_validate_required_features_subset() {
    assert!(validate_required_features(Some("1c"), Some("4")));
    assert!(validate_required_features(Some("1c"), Some("c")));
}

#[test]
fn test_validate_required_features_not_met() {
    assert!(!validate_required_features(Some("4"), Some("1c")));
}

#[test]
fn test_validate_required_features_no_required() {
    assert!(validate_required_features(Some("1c"), None));
}

#[test]
fn test_validate_required_features_no_negotiated() {
    assert!(!validate_required_features(None, Some("4")));
}

#[test]
fn test_parse_and_create_roundtrip() {
    let bits = parse_feature_string("1c");
    let result = create_feature_string(&bits);
    assert_eq!(result, Some("1c".to_string()));
}

#[test]
fn supported_feature_bits_are_two_to_four() {
    assert!(!is_feature_supported_by_nssf(0));
    assert!(!is_feature_supported_by_nssf(1));
    assert!(is_feature_supported_by_nssf(2));
    assert!(is_feature_supported_by_nssf(3));
    assert!(is_feature_supported_by_nssf(4));
    assert!(!is_feature_supported_by_nssf(5));
}

#[test]
fn hex_digit_bits_are_least_significant_first() {
    assert_eq!(hex_char_to_bits(b'c'), [false, false, true, true]);
    assert_eq!(hex_char_to_bits(b'f'), [true, true, true, true]);
    assert_eq!(hex_char_to_bits(b'F'), [false, false, false, false]);
    assert_eq!(hex_char_to_bits(b'1'), [true, false, false, false]);
    assert_eq!(hex_char_to_bits(b'z'), [false, false, false, false]);
}

#[test]
fn bits_make_a_lowercase_hex_digit() {
    assert_eq!(bits_to_hex_char(&[false, false, true, true]), b'c');
    assert_eq!(bits_to_hex_char(&[true, false, true]), b'5');
    assert_eq!(bits_to_hex_char(&[]), b'0');
}

#[test]
fn parsed_bits_put_the_last_digit_first() {
    assert_eq!(
        parse_feature_string("1c"),
        vec![false, false, true, true, true, false, false, false]
    );
    assert_eq!(parse_feature_string(""), Vec::<bool>::new());
}

#[test]
fn feature_string_drops_leading_zero_digits() {
    assert_eq!(
        create_feature_string(&[false, false, true, false, false, false, false, false]),
        Some("4".to_string())
    );
    assert_eq!(create_feature_string(&[false, false, false, false]), Some("0".to_string()));
    assert_eq!(create_feature_string(&[]), None);
}

#[test]
fn negotiated_bit_is_requested_and_supported() {
    let negotiated = negotiate_features(Some("1e")).unwrap();
    assert_eq!(negotiated, "1c");
    assert!(is_feature_negotiated(Some(&negotiated), NssfFeature::EnhancedRoaming));
    assert!(!is_feature_negotiated(Some(&negotiated), NssfFeature::Nsag));
}

#[test]
fn negotiation_keeps_high_digits() {
    assert_eq!(negotiate_features(Some("101c")), Some("1c".to_string()));
    assert_eq!(negotiate_features(Some("g1")), None);
}

#[test]
fn negotiating_again_with_the_result_changes_nothing_and_is_covered() {
    for consumer in ["1f", "1C", "7", "ff", "10", "3"] {
        let once = negotiate_features(Some(consumer));
        let twice = negotiate_features(once.as_deref());
        assert_eq!(twice, once, "consumer {}", consumer);
        if once.is_some() {
            assert!(validate_required_features(Some(consumer), once.as_deref()));
        }
    }
}
