use base_ui_leptos::utils::format_error_message::{format_error_message, percent_encode};
use base_ui_leptos::utils::generate_id::{
    format_base36, generate_id, pseudo_random_base36, IdGenerator,
};
use base_ui_leptos::utils::text::to_decimal;
use base_ui_leptos::utils::use_id::{use_id, IdCounter};

// -- format_error_message ----------------------------------------------------

#[test]
fn format_with_code_only() {
    let result = format_error_message(1, &[]);
    assert!(result.starts_with("Base UI error #1; visit "));
    assert!(result.contains("code=1"));
    assert!(result.ends_with(" for the full message."));
    assert!(!result.contains("args[]"));
}

#[test]
fn format_with_code_and_args() {
    let result = format_error_message(2, &["foo", "bar"]);
    assert!(result.contains("code=2"));
    assert!(result.contains("args[]=foo"));
    assert!(result.contains("args[]=bar"));
}

#[test]
fn percent_encodes_special_characters() {
    let result = format_error_message(3, &["hello world"]);
    assert!(result.contains("args[]=hello%20world"));
}

#[test]
fn percent_encode_preserves_unreserved_chars() {
    assert_eq!(percent_encode("abc123"), "abc123");
    assert_eq!(percent_encode("a-b_c.d~e"), "a-b_c.d~e");
}

#[test]
fn percent_encode_encodes_reserved_chars() {
    assert_eq!(percent_encode("a b"), "a%20b");
    assert_eq!(percent_encode("a&b=c"), "a%26b%3Dc");
}

#[test]
fn format_error_message_full_text() {
    assert_eq!(
        format_error_message(42, &["x y", "z"]),
        "Base UI error #42; visit https://base-ui.com/production-error?code=42&args[]=x%20y&args[]=z for the full message."
    );
}

#[test]
fn percent_encode_multibyte_utf8() {
    assert_eq!(percent_encode("é"), "%C3%A9");
    assert_eq!(percent_encode(""), "");
}

#[test]
fn decimal_rendering() {
    assert_eq!(to_decimal(0), "0");
    assert_eq!(to_decimal(7), "7");
    assert_eq!(to_decimal(1200), "1200");
    assert_eq!(to_decimal(u64::MAX), "18446744073709551615");
}

// -- generate_id -------------------------------------------------------------

#[test]
fn generates_id_with_prefix() {
    let mut g = IdGenerator::new();
    let id = generate_id(&mut g, "test");
    assert!(id.starts_with("test-"));
}

#[test]
fn generates_unique_ids() {
    let mut g = IdGenerator::new();
    let id1 = generate_id(&mut g, "a");
    let id2 = generate_id(&mut g, "a");
    assert_ne!(id1, id2);
}

#[test]
fn counter_increments() {
    let mut g = IdGenerator::new();
    let id1 = generate_id(&mut g, "b");
    let id2 = generate_id(&mut g, "b");
    // Extract the counter (last segment after final '-')
    let c1: u64 = id1.rsplit('-').next().unwrap().parse().unwrap();
    let c2: u64 = id2.rsplit('-').next().unwrap().parse().unwrap();
    assert_eq!(c2, c1 + 1);
}

#[test]
fn format_base36_works() {
    assert_eq!(format_base36(0), "0000");
    assert_eq!(format_base36(35), "z");
    assert_eq!(format_base36(36), "10");
}

#[test]
fn first_generated_id_is_exact() {
    // The first xorshift step from the initial seed, rendered in base 36.
    let mut s: u64 = 0x12345678_9ABCDEF0;
    s ^= s << 13;
    s ^= s >> 7;
    s ^= s << 17;
    let full = format_base36(s);
    let expected = format!("x-{}-1", &full[..4]);
    let mut g = IdGenerator::new();
    assert_eq!(generate_id(&mut g, "x"), expected);
    assert_eq!(g.counter, 1);
    assert_eq!(g.seed, s);
}

#[test]
fn random_segment_has_at_most_four_chars() {
    let mut g = IdGenerator::new();
    for _ in 0..20 {
        let r = pseudo_random_base36(&mut g);
        assert!(r.len() <= 4);
        assert!(r.chars().all(|c| c.is_ascii_digit() || c.is_ascii_lowercase()));
    }
    assert_eq!(g.counter, 0);
}

// -- use_id ------------------------------------------------------------------

#[test]
fn returns_provided_id() {
    let mut c = IdCounter::new();
    let id = use_id(&mut c, Some("custom-id"), None);
    assert_eq!(id, "custom-id");
    assert_eq!(c.count, 0);
}

#[test]
fn generates_id_if_not_provided() {
    let mut c = IdCounter::new();
    let id = use_id(&mut c, None, None);
    assert!(!id.is_empty());
    assert!(id.starts_with("base-ui-"));
}

#[test]
fn generated_ids_are_unique() {
    let mut c = IdCounter::new();
    let id1 = use_id(&mut c, None, None);
    let id2 = use_id(&mut c, None, None);
    assert_ne!(id1, id2);
}

#[test]
fn can_be_suffixed() {
    let mut c = IdCounter::new();
    let id = use_id(&mut c, None, None);
    let label_id = format!("{id}-label");
    assert!(label_id.ends_with("-label"));
    assert!(label_id.starts_with("base-ui-"));
}

#[test]
fn can_be_prefixed() {
    let mut c = IdCounter::new();
    let id = use_id(&mut c, None, Some("my-prefix"));
    assert!(id.starts_with("my-prefix-"));
}

#[test]
fn override_takes_precedence_over_prefix() {
    let mut c = IdCounter::new();
    let id = use_id(&mut c, Some("explicit"), Some("prefix"));
    assert_eq!(id, "explicit");
}

#[test]
fn use_id_counts_from_one() {
    let mut c = IdCounter::new();
    assert_eq!(use_id(&mut c, None, None), "base-ui-1");
    assert_eq!(use_id(&mut c, None, Some("p")), "p-2");
}

#[test]
fn percent_encoding_is_query_safe() {
    let input = "a b&c=d/é?#%+~_.-Z9\u{1F600}";
    let encoded = percent_encode(input);
    assert_eq!(encoded, "a%20b%26c%3Dd%2F%C3%A9%3F%23%25%2B~_.-Z9%F0%9F%98%80");
    assert!(encoded
        .chars()
        .all(|c| c.is_ascii_alphanumeric() || "-_.~%".contains(c)));
}
