use nostr_sdk::prelude::Keys;
use rapture_core::agent::keys::{accept_bot_keys, bot_keys, seal_answer, KeyPair};
use rapture_core::agent::listener::{IncomingEvent, SeenEvents};

fn pair(digits: &str) -> KeyPair {
    bot_keys(&Some(digits.repeat(32))).expect("keys")
}

fn event(kind: u16, id: &str, sender: &KeyPair, content: &str) -> IncomingEvent {
    IncomingEvent {
        kind,
        id: id.to_string(),
        sender: sender.public_hex.clone(),
        content: content.to_string(),
    }
}

#[test]
fn bots_have_the_keys_that_are_asked_for_or_new_ones() {
    let secret = "5c".repeat(32);
    let keys = bot_keys(&Some(secret.clone())).expect("keys");
    assert_eq!(keys.secret_hex, secret);
    assert_eq!(keys.public_hex, Keys::parse(&secret).expect("keys").public_key().to_hex());
    assert_ne!(keys.public_hex, keys.secret_hex);

    let new = bot_keys(&None).expect("new keys");
    assert_eq!(bot_keys(&Some(new.secret_hex.clone())), Ok(new.clone()));
    assert_ne!(bot_keys(&None).expect("other keys"), new);

    let failure = bot_keys(&Some("nonsense".to_string())).expect_err("no key");
    assert_eq!(failure.brief, "parse bot_secret_key_hex");
    assert_eq!(failure.full, "parse bot_secret_key_hex: Invalid secret key");
    assert_eq!(
        accept_bot_keys(Err("why".to_string())).expect_err("failure").full,
        "parse bot_secret_key_hex: why"
    );
    assert_eq!(accept_bot_keys(Ok(new.clone())), Ok(new));
}

#[test]
fn events_are_read_once_and_only_of_their_kind() {
    let (alice, bob) = (pair("5c"), pair("4b"));
    let sealed = seal_answer(&alice, &bob.public_hex, "hello").expect("sealed");
    assert_ne!(sealed, "hello");
    let mut seen = SeenEvents::new();
    let other_kind = event(8, "e-1", &alice, &sealed);
    assert_eq!(seen.read_event(7, &bob.secret_hex, &other_kind), None);
    let command = event(7, "e-1", &alice, &sealed);
    assert_eq!(
        seen.read_event(7, &bob.secret_hex, &command),
        Some(Ok("hello".to_string()))
    );
    assert_eq!(seen.read_event(7, &bob.secret_hex, &command), None);
    let again = event(7, "e-2", &alice, &sealed);
    assert_eq!(seen.read_event(7, &bob.secret_hex, &again), Some(Ok("hello".to_string())));

    let nonsense = event(7, "e-3", &alice, "nonsense");
    assert!(seen.read_event(7, &bob.secret_hex, &nonsense).expect("new").is_err());
    assert_eq!(seen.read_event(7, &bob.secret_hex, &nonsense), None);
    let not_for_carol = event(7, "e-4", &alice, &sealed);
    assert!(seen.read_event(7, &pair("3a").secret_hex, &not_for_carol).expect("new").is_err());
    let not_from_carol = event(7, "e-5", &pair("3a"), &sealed);
    assert!(seen.read_event(7, &bob.secret_hex, &not_from_carol).expect("new").is_err());
}

#[test]
fn answers_are_sealed_for_their_recipient() {
    let (alice, bob) = (pair("5c"), pair("4b"));
    let sealed = seal_answer(&alice, &bob.public_hex, "hello").expect("sealed");
    assert_ne!(seal_answer(&alice, &bob.public_hex, "hello").expect("sealed"), sealed);
    let own = event(7, "e-1", &bob, &sealed);
    assert_eq!(
        SeenEvents::new().read_event(7, &alice.secret_hex, &own),
        Some(Ok("hello".to_string()))
    );
    let longest = "x".repeat(65408);
    let sealed = seal_answer(&alice, &bob.public_hex, &longest).expect("sealed");
    let command = event(7, "e-2", &alice, &sealed);
    assert_eq!(
        SeenEvents::new().read_event(7, &bob.secret_hex, &command),
        Some(Ok(longest.clone()))
    );
    for content in ["".to_string(), longest + "x"] {
        let failure = seal_answer(&alice, &bob.public_hex, &content).expect_err("refused");
        assert_eq!(failure.brief, "encrypt control event payload");
        assert!(failure.full.starts_with("encrypt control event payload: "));
    }
    assert!(seal_answer(&alice, "nobody", "hello").is_err());
}
