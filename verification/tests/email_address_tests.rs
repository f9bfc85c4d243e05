use stalwart_panel::email_address::{EmailAddress, OptionalEmailAddress};

#[test]
fn test_email_address() {
    assert!(EmailAddress::new("test@gmail.com").is_ok());
    assert!(EmailAddress::new("fail.com").is_err());
}

#[test]
fn accepted_address_is_kept_verbatim() {
    let address = EmailAddress::new("user@mail.example").expect("valid");
    assert_eq!(address.as_str(), "user@mail.example");
    assert_eq!(address.clone().into_string(), "user@mail.example");
}

#[test]
fn address_edges() {
    // No user part, no domain part, domain without a dot.
    assert!(EmailAddress::new("@example.com").is_err());
    assert!(EmailAddress::new("user@").is_err());
    assert!(EmailAddress::new("user@nodot").is_err());
    assert!(EmailAddress::new("").is_err());
    // The split happens at the first `@`; a second one lands in the
    // domain part and is tolerated there.
    assert!(EmailAddress::new("user@do@main.com").is_ok());
    // Length limits count characters: 64 user characters pass, 65 fail.
    let user_64 = format!("{}@example.com", "u".repeat(64));
    let user_65 = format!("{}@example.com", "u".repeat(65));
    assert!(EmailAddress::new(user_64.as_str()).is_ok());
    assert!(EmailAddress::new(user_65.as_str()).is_err());
    let domain_255 = format!("u@{}.x", "d".repeat(253));
    let domain_256 = format!("u@{}.x", "d".repeat(254));
    assert!(EmailAddress::new(domain_255.as_str()).is_ok());
    assert!(EmailAddress::new(domain_256.as_str()).is_err());
}

#[test]
fn validators_agree_with_the_whole() {
    assert!(EmailAddress::validate_user("u"));
    assert!(!EmailAddress::validate_user(""));
    assert!(EmailAddress::validate_domain("a.b"));
    assert!(!EmailAddress::validate_domain("ab"));
    assert!(!EmailAddress::validate_domain(""));
}

#[test]
fn optional_address_wraps_plain_options() {
    let some = OptionalEmailAddress(Some(EmailAddress::new("a@b.c").expect("valid")));
    assert!(some.0.is_some());
    let none = OptionalEmailAddress(None);
    assert!(none.0.is_none());
}

#[test]
fn equal_addresses_compare_equal() {
    let a = EmailAddress::new("same@example.com").expect("valid");
    let b = EmailAddress::new("same@example.com").expect("valid");
    let c = EmailAddress::new("other@example.com").expect("valid");
    assert_eq!(a, b);
    assert_ne!(a, c);
}
