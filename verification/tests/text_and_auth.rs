use enviame::auth::{check_hash, generate_hash, generate_random_token};
use enviame::requests::{check_message_tag, message_tag};
use enviame::text::{capitalize_first, escape_html, i64_to_decimal, str_eq};

#[test]
fn escape_html_rewrites_every_special_character() {
    let input = "&<>\"'/\n".to_string();
    assert_eq!(escape_html(input), "&amp;&lt;&gt;&quot;&#x27;&#x2F;<br>");
}

#[test]
fn escape_html_keeps_plain_text() {
    assert_eq!(escape_html("hello world".to_string()), "hello world");
    assert_eq!(escape_html(String::new()), "");
}

#[test]
fn escape_html_mixes_text_and_entities() {
    assert_eq!(escape_html("a<b\nc".to_string()), "a&lt;b<br>c");
}

#[test]
fn capitalize_first_uppercases_only_the_first_character() {
    assert_eq!(capitalize_first("standard".to_string()), "Standard");
    assert_eq!(capitalize_first("urgent".to_string()), "Urgent");
    assert_eq!(capitalize_first("".to_string()), "");
    assert_eq!(capitalize_first("aBC".to_string()), "ABC");
}

#[test]
fn capitalize_first_follows_unicode_uppercasing() {
    // One character may uppercase to several.
    assert_eq!(capitalize_first("\u{df}x".to_string()), "SSx");
}

#[test]
fn decimal_rendering_matches_std() {
    for n in [0i64, 7, 10, 12345, -1, -42, i64::MAX, i64::MIN] {
        assert_eq!(i64_to_decimal(n), n.to_string());
    }
}

#[test]
fn str_eq_is_string_equality() {
    assert!(str_eq("abc", "abc"));
    assert!(!str_eq("abc", "abd"));
    assert!(!str_eq("abc", "abcd"));
    assert!(str_eq("", ""));
}

#[test]
fn generate_hash_matches_the_known_hmac_sha256_vector() {
    let tag = generate_hash("The quick brown fox jumps over the lazy dog", "key");
    assert_eq!(tag, "f7bc83f430538424b13298e6aa6fb143ef4d59a14946175997479dbc2d1a3cd8");
    let other = generate_hash("something else entirely", "key");
    assert_eq!(other.len(), 64);
    assert!(other.chars().all(|c| c.is_ascii_hexdigit() && !c.is_ascii_uppercase()));
}

#[test]
fn check_hash_accepts_the_right_tag_and_rejects_others() {
    let tag = generate_hash("17", "secret");
    assert!(check_hash("17", &tag, "secret"));
    assert!(!check_hash("18", &tag, "secret"));
    assert!(!check_hash("17", &tag, "other"));
    assert!(!check_hash("17", "0000", "secret"));
}

#[test]
fn message_tag_is_the_hash_of_the_decimal_id() {
    let tag = message_tag(17, "secret");
    assert_eq!(tag, generate_hash("17", "secret"));
    assert!(check_message_tag(17, &tag, "secret"));
    assert!(!check_message_tag(18, &tag, "secret"));
}

#[test]
fn random_tokens_are_32_alphanumeric_characters() {
    let t = generate_random_token();
    assert_eq!(t.len(), 32);
    assert!(t.chars().all(|c| c.is_ascii_alphanumeric()));
    // Two draws agreeing on all 32 characters would mean the source is not
    // random at all.
    assert_ne!(generate_random_token(), generate_random_token());
}
