use nssf::config::Config;
use nssf::runtime::resolve_instance_id;
use nssf::text::{contains_text, split_list, trim_text};

fn is_hyphenated_lower_uuid(t: &str) -> bool {
    t.len() == 36
        && t.char_indices().all(|(i, c)| {
            if i == 8 || i == 13 || i == 18 || i == 23 {
                c == '-'
            } else {
                c.is_ascii_digit() || ('a'..='f').contains(&c)
            }
        })
}

#[test]
fn allowed_plmn_lists_are_split_trimmed_and_cleaned() {
    assert_eq!(split_list("99970"), vec!["99970".to_string()]);
    assert_eq!(
        split_list(" 00101 , 99970,,  "),
        vec!["00101".to_string(), "99970".to_string()]
    );
    assert_eq!(split_list(""), Vec::<String>::new());
    assert_eq!(split_list(",\t,"), Vec::<String>::new());
    assert_eq!(split_list("a,b,c"), vec!["a".to_string(), "b".to_string(), "c".to_string()]);
}

#[test]
fn trimming_removes_unicode_whitespace_at_both_ends() {
    assert_eq!(trim_text("  x y \n"), "x y");
    assert_eq!(trim_text("\u{3000}abc\u{a0}"), "abc");
    assert_eq!(trim_text("   "), "");
    assert_eq!(trim_text("z"), "z");
}

#[test]
fn substring_search_finds_every_position() {
    assert!(contains_text("abcdef", "cde"));
    assert!(contains_text("abcdef", "abcdef"));
    assert!(contains_text("abc", ""));
    assert!(!contains_text("abc", "abcd"));
    assert!(!contains_text("abcabd", "abe"));
    assert!(contains_text("aab", "ab"));
}

#[test]
fn settings_fall_back_to_their_defaults() {
    let c = Config::from_settings(8080, None, None, None, None, None, None, None);
    assert_eq!(c.port, 8080);
    assert_eq!(c.server_host, "0.0.0.0");
    assert_eq!(c.mongodb_uri, "mongodb://localhost:27017");
    assert_eq!(c.mongodb_db_name, "nssf");
    assert_eq!(c.nrf_uri, None);
    assert_eq!(c.home_plmn, "99970");
    assert_eq!(c.allowed_plmns, vec!["99970".to_string()]);
    assert!(is_hyphenated_lower_uuid(&c.nf_instance_id));
    assert_eq!(&c.nf_instance_id[14..15], "4");
}

#[test]
fn settings_that_are_set_are_taken() {
    let c = Config::from_settings(
        9000,
        Some("10.0.0.5".to_string()),
        Some("mongodb://db:27017".to_string()),
        Some("slices".to_string()),
        Some("http://nrf:8000".to_string()),
        Some("00101".to_string()),
        Some("00101, 99970".to_string()),
        Some("nssf-1".to_string()),
    );
    assert_eq!(c.port, 9000);
    assert_eq!(c.server_host, "10.0.0.5");
    assert_eq!(c.mongodb_uri, "mongodb://db:27017");
    assert_eq!(c.mongodb_db_name, "slices");
    assert_eq!(c.nrf_uri, Some("http://nrf:8000".to_string()));
    assert_eq!(c.home_plmn, "00101");
    assert_eq!(c.allowed_plmns, vec!["00101".to_string(), "99970".to_string()]);
    assert_eq!(c.nf_instance_id, "nssf-1");
}

#[test]
fn an_empty_nrf_address_counts_as_unset() {
    let c = Config::from_settings(1, None, None, None, Some(String::new()), None, None, None);
    assert_eq!(c.nrf_uri, None);
}

#[test]
fn a_configured_uuid_is_kept_in_canonical_form() {
    assert_eq!(
        resolve_instance_id("550e8400-e29b-41d4-a716-446655440000"),
        "550e8400-e29b-41d4-a716-446655440000"
    );
    assert_eq!(
        resolve_instance_id("550E8400E29B41D4A716446655440000"),
        "550e8400-e29b-41d4-a716-446655440000"
    );
}

#[test]
fn an_instance_id_that_is_no_uuid_is_replaced_by_a_random_one() {
    let id = resolve_instance_id("nssf-1");
    assert!(is_hyphenated_lower_uuid(&id));
    assert_eq!(&id[14..15], "4");
    assert_ne!(resolve_instance_id("nssf-1"), id);
}

#[test]
fn ascii_lowercase_changes_only_ascii_capitals() {
    assert_eq!(nssf::text::ascii_lowercase("AbCdEF-Ü9z"), "abcdef-Ü9z");
    assert_eq!(nssf::text::ascii_lowercase(""), "");
}
