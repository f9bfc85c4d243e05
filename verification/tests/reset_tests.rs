use stalwart_panel::email_address::EmailAddress;
use stalwart_panel::email_service::{EmailAccess, EmailRequest, TemplateValue};
use stalwart_panel::headers::Origin;
use stalwart_panel::password_reset::PasswordResetManager;

fn manager_with_queue(capacity: usize) -> (PasswordResetManager, flume::Receiver<EmailRequest>) {
    let (sender, receiver) = flume::bounded(capacity);
    (PasswordResetManager::new(EmailAccess::new(sender)), receiver)
}

fn origin() -> Origin {
    Origin { url: String::from("https://panel.example.com"), is_https: true }
}

#[test]
fn issued_token_resolves_to_its_account() {
    let (mut manager, _receiver) = manager_with_queue(10);
    let email = EmailAddress::new("someone@example.com").expect("address");
    let token = manager.request(String::from("someone"), 7, email, origin(), false, 1_000);

    assert_eq!(token.len(), 36);
    assert!(token.chars().all(|c| c.is_ascii_alphanumeric()));

    let request = manager.get_request(token.as_str()).expect("token known");
    assert_eq!(request.account_id, 7);
    assert_eq!(request.token, token);
    assert_eq!(request.created, 1_000);
}

#[test]
fn removed_token_is_gone() {
    let (mut manager, _receiver) = manager_with_queue(10);
    let email = EmailAddress::new("someone@example.com").expect("address");
    let token = manager.request(String::from("someone"), 4, email, origin(), false, 0);

    manager.remove_request(token.as_str());
    assert!(manager.get_request(token.as_str()).is_none());
}

#[test]
fn consumed_token_cannot_be_used_twice() {
    // Issue a token for account 7, submit against it once (the submission
    // consumes it), and check the second use finds nothing.
    let (mut manager, _receiver) = manager_with_queue(10);
    let email = EmailAddress::new("seven@example.com").expect("address");
    let token = manager.request(String::from("seven"), 7, email, origin(), false, 0);

    let first_use = manager.get_request(token.as_str());
    assert!(first_use.is_some());
    manager.remove_request(token.as_str());

    let second_use = manager.get_request(token.as_str());
    assert!(second_use.is_none());
}

#[test]
fn unknown_token_looks_like_consumed_token() {
    let (manager, _receiver) = manager_with_queue(10);
    assert!(manager.get_request("never-issued").is_none());
}

#[test]
fn several_requests_for_one_account_coexist() {
    let (mut manager, _receiver) = manager_with_queue(10);
    let email = EmailAddress::new("dup@example.com").expect("address");
    let t1 = manager.request(String::from("dup"), 5, email.clone(), origin(), false, 1);
    let t2 = manager.request(String::from("dup"), 5, email, origin(), false, 2);
    assert_ne!(t1, t2);
    assert_eq!(manager.get_request(t1.as_str()).expect("first").account_id, 5);
    assert_eq!(manager.get_request(t2.as_str()).expect("second").account_id, 5);
}

#[test]
fn reset_email_reaches_the_queue_with_the_token() {
    let (mut manager, receiver) = manager_with_queue(10);
    let email = EmailAddress::new("user@example.com").expect("address");
    let token = manager.request(String::from("user"), 12, email, origin(), true, 0);

    let queued = receiver.try_recv().expect("one email queued");
    assert_eq!(queued.message.to.as_str(), "user@example.com");
    assert_eq!(queued.message.subject, "Password Reset");
    assert_eq!(queued.message.template_html, "password_reset.html");
    assert_eq!(queued.message.template_txt, "password_reset.txt");

    let mut token_value = None;
    let mut required_value = None;
    let mut origin_value = None;
    for (key, value) in &queued.message.values {
        match (key.as_str(), value) {
            ("token", TemplateValue::Text(t)) => token_value = Some(t.clone()),
            ("required", TemplateValue::Flag(f)) => required_value = Some(*f),
            ("panel_origin", TemplateValue::Text(o)) => origin_value = Some(o.clone()),
            _ => {}
        }
    }
    assert_eq!(token_value.expect("token placeholder"), token);
    assert_eq!(required_value.expect("required placeholder"), true);
    assert_eq!(
        origin_value.expect("origin placeholder"),
        "https://panel.example.com"
    );

    let debug = queued.debug_info.expect("debug line attached");
    assert_eq!(debug.to, "user");
    assert_eq!(debug.subject, "Password Reset");

    assert!(receiver.try_recv().is_err());
}

#[test]
fn token_stays_live_when_queue_is_full() {
    // Capacity one and a first email filling it: the second submission
    // fails, but its token must still be recorded.
    let (mut manager, receiver) = manager_with_queue(1);
    let email = EmailAddress::new("a@example.com").expect("address");
    let _t1 = manager.request(String::from("a"), 1, email.clone(), origin(), false, 0);
    let t2 = manager.request(String::from("a"), 1, email, origin(), false, 0);

    assert!(manager.get_request(t2.as_str()).is_some());
    // Only the first email ever made it into the queue.
    assert!(receiver.try_recv().is_ok());
    assert!(receiver.try_recv().is_err());
}
