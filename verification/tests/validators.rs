use localhood_backend::services::auth_service::{normalize_phone, validate_kz_phone};
use localhood_backend::services::file_service::{
    validate_document_content_type, validate_image_content_type, MAX_DOCUMENT_SIZE,
    MAX_IMAGE_SIZE,
};
use localhood_backend::utils::validators::{
    sanitize_string, validate_bin, validate_email, validate_phone,
};
use regex::Regex;

#[test]
fn test_validate_phone() {
    assert!(validate_phone("+77771234567"));
    assert!(!validate_phone("87771234567"));
    assert!(!validate_phone("+7777123456"));
    assert!(!validate_phone("+777712345678"));
}

#[test]
fn test_validate_email() {
    assert!(validate_email("test@example.com"));
    assert!(validate_email("user.name@domain.co.kz"));
    assert!(!validate_email("invalid"));
    assert!(!validate_email("@example.com"));
}

#[test]
fn test_validate_bin() {
    assert!(validate_bin("123456789012"));
    assert!(!validate_bin("12345678901"));
    assert!(!validate_bin("1234567890123"));
}

fn samples() -> Vec<&'static str> {
    vec![
        "",
        "+",
        "+7",
        "+77771234567",
        "+77771234567\n",
        " +77771234567",
        "+7777123456a",
        "+8777123456٣",
        "77771234567",
        "+777712345678",
        "123456789012",
        "12345678901",
        "1234567890123",
        "12345678901x",
        "１２３４５６７８９０１２",
        "a@b.cd",
        "a@b.c",
        "a@.cd",
        "@b.cd",
        "a@b.cd1",
        "a@b.c-d",
        "a@b-c.de",
        "a.b_c%d+e-f@sub.domain-x.example.COM",
        "a@b@c.de",
        "a@b..de",
        "a@b.cd.ef",
        "a b@c.de",
        "a@b c.de",
        "a@b.cdé",
        "é@b.cd",
        "a@b.cd\n",
        "test@example.com",
        "user.name@domain.co.kz",
        "invalid",
        "@example.com",
        "x@y.zz",
        "x@yy.z",
        "x@.zz",
        "x@y.",
        "x@y",
        "..@...aa",
        "a@a.aa.",
        "a@-.aa",
        "a@a.a1a",
        "A0._%+-@Z9.-.zZ",
    ]
}

#[test]
fn phone_agrees_with_the_pattern() {
    let pattern = Regex::new(r"^\+7[0-9]{10}$").unwrap();
    for s in samples() {
        assert_eq!(validate_phone(s), pattern.is_match(s), "{:?}", s);
    }
}

#[test]
fn bin_agrees_with_the_pattern() {
    let pattern = Regex::new(r"^[0-9]{12}$").unwrap();
    for s in samples() {
        assert_eq!(validate_bin(s), pattern.is_match(s), "{:?}", s);
    }
}

#[test]
fn email_agrees_with_the_pattern() {
    let pattern = Regex::new(r"^[a-zA-Z0-9._%+-]+@[a-zA-Z0-9.-]+\.[a-zA-Z]{2,}$").unwrap();
    for s in samples() {
        assert_eq!(validate_email(s), pattern.is_match(s), "{:?}", s);
    }
}

#[test]
fn sanitize_string_trims_both_ends() {
    assert_eq!(sanitize_string("  hello world \t\n"), "hello world");
    assert_eq!(sanitize_string("hello"), "hello");
    assert_eq!(sanitize_string(""), "");
    assert_eq!(sanitize_string(" \u{a0}\u{3000} "), "");
    assert_eq!(sanitize_string("\u{2003}a b\u{2028}"), "a b");
    assert_eq!(sanitize_string(" Привет, мир "), "Привет, мир");
}

#[test]
fn sanitize_string_agrees_with_trim() {
    for s in ["", " ", " a", "a ", " a ", "\t\r\n x \u{85}", "x\u{200b}", " \u{feff}x "] {
        assert_eq!(sanitize_string(s), s.trim(), "{:?}", s);
    }
}

#[test]
fn normalize_phone_rewrites_each_form() {
    assert_eq!(normalize_phone("87771234567"), "+77771234567");
    assert_eq!(normalize_phone("77771234567"), "+77771234567");
    assert_eq!(normalize_phone("7771234567"), "+77771234567");
    assert_eq!(normalize_phone("+7 (777) 123-45-67"), "+77771234567");
    assert_eq!(normalize_phone("8 777 123 45 67"), "+77771234567");
    assert_eq!(normalize_phone("12345"), "+12345");
    assert_eq!(normalize_phone(""), "+");
    assert_eq!(normalize_phone("97771234567"), "+97771234567");
    assert_eq!(normalize_phone("тел. 8-777-123-45-67"), "+77771234567");
}

#[test]
fn validate_kz_phone_accepts_what_normalizes_to_plus_seven() {
    assert!(validate_kz_phone("87771234567"));
    assert!(validate_kz_phone("+7 777 123 45 67"));
    assert!(validate_kz_phone("7771234567"));
    assert!(!validate_kz_phone("97771234567"));
    assert!(!validate_kz_phone("777123456"));
    assert!(!validate_kz_phone(""));
    assert!(!validate_kz_phone("877712345678"));
}

#[test]
fn content_types_are_matched_exactly() {
    for t in ["image/jpeg", "image/png", "image/gif", "image/webp"] {
        assert!(validate_image_content_type(t));
    }
    assert!(!validate_image_content_type("image/bmp"));
    assert!(!validate_image_content_type("IMAGE/PNG"));
    assert!(!validate_image_content_type("image/png "));
    assert!(!validate_image_content_type(""));
    for t in [
        "application/pdf",
        "application/msword",
        "application/vnd.openxmlformats-officedocument.wordprocessingml.document",
        "image/jpeg",
        "image/png",
    ] {
        assert!(validate_document_content_type(t));
    }
    assert!(!validate_document_content_type("image/gif"));
    assert!(!validate_document_content_type("text/plain"));
    assert_eq!(MAX_IMAGE_SIZE, 10_485_760);
    assert_eq!(MAX_DOCUMENT_SIZE, 52_428_800);
}
