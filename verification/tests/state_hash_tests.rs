use blog_backend::state_hash::{hash, is_printable_ascii, verify};

#[test]
fn digest_vouches_for_its_plaintext() {
    let digest = hash("Xk2mQ9aLr7TzB4cVn1PwE8sYd3Hu6J").unwrap();
    assert!(verify("Xk2mQ9aLr7TzB4cVn1PwE8sYd3Hu6J", &digest));
}

#[test]
fn digest_rejects_another_plaintext() {
    let digest = hash("Xk2mQ9aLr7TzB4cVn1PwE8sYd3Hu6J").unwrap();
    assert!(!verify("Xk2mQ9aLr7TzB4cVn1PwE8sYd3Hu6K", &digest));
}

#[test]
fn digest_is_not_the_plaintext() {
    let digest = hash("state").unwrap();
    assert_ne!(digest, "state");
    assert_eq!(digest.chars().count(), 60);
    assert!(digest.starts_with("$2b$10$"));
}

#[test]
fn two_digests_of_one_plaintext_differ() {
    let first = hash("state").unwrap();
    let second = hash("state").unwrap();
    assert_ne!(first, second);
    assert!(verify("state", &first));
    assert!(verify("state", &second));
}

#[test]
fn known_digest_is_accepted() {
    let digest = "$2y$05$bvIG6Nmid91Mu9RcmmWZfO5HJIMCT8riNW0hEp8f6/FuA2/mHZFpe";
    assert!(verify("password", digest));
    assert!(!verify("passwore", digest));
}

#[test]
fn empty_digest_vouches_for_nothing() {
    assert!(!verify("state", ""));
    assert!(!verify("", ""));
}

#[test]
fn digest_with_control_character_is_rejected() {
    assert!(!verify("state", "$2b$10$\u{1}bcdefghijklmnopqrstuv"));
    assert!(!verify("state", "$2b$10$abcdefghijklmnopqrstu\n"));
}

#[test]
fn malformed_digest_is_rejected() {
    assert!(!verify("state", "not a digest"));
    assert!(!verify("state", "$2b$10$short"));
}

#[test]
fn digest_beyond_ascii_is_rejected() {
    let mut digest = String::from("$2b$10$\u{80}");
    digest.push_str(&"A".repeat(20));
    assert!(!verify("state", &digest));
    let mut digest = String::from("$2b$10$");
    digest.push_str(&"\u{7f}".repeat(22));
    assert!(!verify("state", &digest));
    let mut digest = String::from("$2b$10$");
    digest.push_str(&"\u{e9}".repeat(11));
    assert!(!verify("state", &digest));
    assert!(!verify("state", "$2b$10$\u{1F600}AAAAAAAAAAAAAAAAAA"));
}

#[test]
fn printable_ascii_is_told_apart() {
    assert!(is_printable_ascii(""));
    assert!(is_printable_ascii("plain text ~"));
    assert!(is_printable_ascii(" "));
    assert!(!is_printable_ascii("tab\there"));
    assert!(!is_printable_ascii("\u{1f}"));
    assert!(!is_printable_ascii("\u{7f}"));
    assert!(!is_printable_ascii("\u{80}"));
    assert!(!is_printable_ascii("caf\u{e9}"));
}
