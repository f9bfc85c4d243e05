use stalwart_panel::error::WebsiteError;
use stalwart_panel::headers::Origin;
use stalwart_panel::random_users::{RandomUserName, RandomUsersCommand};
use stalwart_panel::text::{find_char, str_eq, str_starts_with};

#[test]
fn origin_header_wins_and_is_taken_verbatim() {
    let origin = Origin::from_headers(
        &Some(String::from("https://panel.example.com")),
        &Some(String::from("ignored.example.com")),
        false,
    )
    .expect("origin");
    assert_eq!(origin.url, "https://panel.example.com");
    assert!(origin.is_https);

    let insecure = Origin::from_headers(&Some(String::from("http://panel.example.com")), &None, true)
        .expect("origin");
    assert!(!insecure.is_https);
}

#[test]
fn host_header_gets_the_configured_scheme() {
    let secure = Origin::from_headers(&None, &Some(String::from("panel.example.com")), true)
        .expect("origin");
    assert_eq!(secure.url, "https://panel.example.com");
    assert!(secure.is_https);

    let plain = Origin::from_headers(&None, &Some(String::from("panel.example.com")), false)
        .expect("origin");
    assert_eq!(plain.url, "http://panel.example.com");
    assert!(!plain.is_https);
}

#[test]
fn no_header_is_a_client_fault() {
    match Origin::from_headers(&None, &None, true) {
        Err(WebsiteError::BadRequest(_)) => {}
        other => panic!("expected a bad-request rejection, got {:?}", other),
    }
}

#[test]
fn english_name_check_accepts_letters_and_hyphens() {
    let good = RandomUserName {
        first: String::from("Mary-Jane"),
        last: String::from("Watson"),
        title: String::from("Ms"),
    };
    assert!(good.is_name_english_alphabet());
    assert_eq!(good.full_name(), "Mary-Jane Watson");

    let accented = RandomUserName {
        first: String::from("Ren\u{e9}e"),
        last: String::from("Smith"),
        title: String::from("Ms"),
    };
    assert!(!accented.is_name_english_alphabet());

    let spaced = RandomUserName {
        first: String::from("Anna"),
        last: String::from("de Vries"),
        title: String::from("Ms"),
    };
    assert!(!spaced.is_name_english_alphabet());

    let command = RandomUsersCommand { count: 10 };
    assert_eq!(command.count, 10);
}

#[test]
fn text_helpers_behave_like_std() {
    assert!(str_eq("abc", "abc"));
    assert!(!str_eq("abc", "abd"));
    assert!(!str_eq("abc", "abcd"));
    assert!(str_starts_with("session token", "session"));
    assert!(!str_starts_with("sess", "session"));
    assert_eq!(find_char("a=b", '='), Some(1));
    assert_eq!(find_char("ab", '='), None);
}
