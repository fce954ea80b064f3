//! The keys of those who talk over relays, the addresses of relays, and what is said
//! in secret.
use vstd::prelude::*;
use vstd::utf8::encode_utf8;
use crate::agent::fly::or_failure;
use crate::agent::policy::text_outcome;
use crate::agent::types::{Failure, FailureModel};
use crate::collections::Replicate;

verus! {

/// A secret key and the public key that belongs to it, in hexadecimal digits.
#[derive(Debug, PartialEq, Eq)]
pub struct KeyPair {
    pub secret_hex: String,
    pub public_hex: String,
}

/// What a [`KeyPair`] holds.
#[verifier::ext_equal]
pub struct KeyPairModel {
    pub secret_hex: Seq<char>,
    pub public_hex: Seq<char>,
}

impl DeepView for KeyPair {
    type V = KeyPairModel;

    open spec fn deep_view(&self) -> KeyPairModel {
        KeyPairModel {
            secret_hex: self.secret_hex.deep_view(),
            public_hex: self.public_hex.deep_view(),
        }
    }
}

impl View for KeyPair {
    type V = KeyPairModel;

    open spec fn view(&self) -> KeyPairModel {
        self.deep_view()
    }
}

impl Replicate for KeyPair {
    fn replicate(&self) -> (copy: Self) {
        KeyPair {
            secret_hex: self.secret_hex.replicate(),
            public_hex: self.public_hex.replicate(),
        }
    }
}

impl Clone for KeyPair {
    fn clone(&self) -> (copy: Self)
        ensures
            copy@ == self@,
    {
        self.replicate()
    }
}

/// What `nostr` makes of a secret key, in hexadecimal digits: the secret key and its
/// public key, or a complaint.
pub uninterp spec fn keys_in(secret: Seq<char>) -> Result<(Seq<char>, Seq<char>), Seq<char>>;

/// What `nostr` makes of the address of a relay, or its complaint.
pub uninterp spec fn relay_in(url: Seq<char>) -> Result<Seq<char>, Seq<char>>;

/// What `nostr` reads in what a sender wrote in secret to the holder of a secret key,
/// or its complaint.
pub uninterp spec fn opened_secret(
    secret: Seq<char>,
    sender: Seq<char>,
    content: Seq<char>,
) -> Result<Seq<char>, Seq<char>>;

/// A pair of keys.
pub open spec fn pair_of(keys: (Seq<char>, Seq<char>)) -> KeyPairModel {
    KeyPairModel { secret_hex: keys.0, public_hex: keys.1 }
}

/// What came of reading keys.
pub open spec fn keys_read(keys: Result<(Seq<char>, Seq<char>), Seq<char>>) -> Result<
    KeyPairModel,
    Seq<char>,
> {
    match keys {
        Ok(keys) => Ok(pair_of(keys)),
        Err(complaint) => Err(complaint),
    }
}

/// Whether keys are a pair as `nostr` reads it: the secret key gives both.
pub open spec fn is_pair(keys: KeyPairModel) -> bool {
    keys_in(keys.secret_hex) == Ok::<(Seq<char>, Seq<char>), Seq<char>>(
        (keys.secret_hex, keys.public_hex),
    )
}

/// Whether a text is the public key to some secret key.
pub open spec fn is_public_key(public: Seq<char>) -> bool {
    exists|secret: Seq<char>|
        (#[trigger] keys_in(secret)) matches Ok(keys) && keys.1 == public
}

/// How many bytes can be said in secret at once.
pub const MOST_SECRET_BYTES: usize = 65408;

/// Whether a text can be told in secret: it is not empty, and not too long.
pub open spec fn can_be_told(content: Seq<char>) -> bool {
    1 <= encode_utf8(content).len() <= MOST_SECRET_BYTES
}

/// Whether a content is read in what was sealed.
pub open spec fn reads_as(
    secret: Seq<char>,
    sender: Seq<char>,
    sealed: Seq<char>,
    content: Seq<char>,
) -> bool {
    opened_secret(secret, sender, sealed) == Ok::<Seq<char>, Seq<char>>(content)
}

/// Whether whoever holds the secret key to a recipient's public key reads a content in
/// what was sealed.
pub open spec fn recipient_reads(
    sender: Seq<char>,
    recipient: Seq<char>,
    sealed: Seq<char>,
    content: Seq<char>,
) -> bool {
    forall|secret: Seq<char>|
        ((#[trigger] keys_in(secret)) matches Ok(keys) && keys.1 == recipient) ==> reads_as(
            secret,
            sender,
            sealed,
            content,
        )
}

/// `nostr::Keys::parse`, and its keys in hexadecimal digits. Claimed: what is read, or
/// the complaint, is a function of the text; and a pair that was read is read again
/// from its secret key.
#[verifier::external_body]
pub(crate) fn parse_keys(secret: &str) -> (keys: Result<KeyPair, String>)
    ensures
        text_outcome(keys) == keys_read(keys_in(secret@)),
        keys matches Ok(pair) ==> is_pair(pair@),
{
    match nostr_sdk::prelude::Keys::parse(secret) {
        Ok(keys) => Ok(KeyPair {
            secret_hex: keys.secret_key().to_secret_hex(),
            public_hex: keys.public_key().to_hex(),
        }),
        Err(error) => Err(error.to_string()),
    }
}

/// `nostr::Keys::generate`, in hexadecimal digits. Claimed: it gives a pair; which one
/// is left to chance.
#[verifier::external_body]
pub(crate) fn generate_keys() -> (keys: KeyPair)
    ensures
        is_pair(keys@),
{
    let keys = nostr_sdk::prelude::Keys::generate();
    KeyPair {
        secret_hex: keys.secret_key().to_secret_hex(),
        public_hex: keys.public_key().to_hex(),
    }
}

/// `nostr::RelayUrl::parse`, and the address as a text. Claimed: what is read, or the
/// complaint, is a function of the text.
#[verifier::external_body]
pub(crate) fn parse_relay(url: &str) -> (relay: Result<String, String>)
    ensures
        text_outcome(relay) == relay_in(url@),
{
    match nostr_sdk::prelude::RelayUrl::parse(url) {
        Ok(relay) => Ok(relay.to_string()),
        Err(error) => Err(error.to_string()),
    }
}

/// `nostr::nips::nip44::decrypt`. Claimed: what is read, or the complaint, is a
/// function of the secret key, of the sender's public key and of the content.
#[verifier::external_body]
pub(crate) fn open_secret(secret: &str, sender: &str, content: &str) -> (text: Result<
    String,
    String,
>)
    ensures
        text_outcome(text) == opened_secret(secret@, sender@, content@),
{
    let secret = nostr_sdk::prelude::SecretKey::parse(secret).map_err(|e| e.to_string())?;
    let sender = nostr_sdk::prelude::PublicKey::parse(sender).map_err(|e| e.to_string())?;
    nostr_sdk::nostr::nips::nip44::decrypt(&secret, &sender, content).map_err(|e| e.to_string())
}

/// `nostr::nips::nip44::encrypt`, in its second version. The content is mixed with a
/// number that is left to chance. Claimed: between keys that are keys, everything is
/// sealed that is not empty and not too long, and nothing else ever is; and what was
/// sealed is read again with the keys that sealed it, and by the holder of the
/// recipient's secret key as coming from the sender. What the complaint says is not
/// claimed.
#[verifier::external_body]
pub(crate) fn seal_secret(secret: &str, recipient: &str, content: &str) -> (sealed: Result<
    String,
    String,
>)
    ensures
        sealed is Ok ==> can_be_told(content@),
        can_be_told(content@) && keys_in(secret@) is Ok && is_public_key(recipient@)
            ==> sealed is Ok,
        sealed is Ok ==> reads_as(secret@, recipient@, sealed->Ok_0@, content@),
        sealed is Ok && keys_in(secret@) is Ok ==> recipient_reads(
            keys_in(secret@)->Ok_0.1,
            recipient@,
            sealed->Ok_0@,
            content@,
        ),
{
    let secret = nostr_sdk::prelude::SecretKey::parse(secret).map_err(|e| e.to_string())?;
    let recipient = nostr_sdk::prelude::PublicKey::parse(recipient).map_err(|e| e.to_string())?;
    let version = nostr_sdk::nostr::nips::nip44::Version::V2;
    nostr_sdk::nostr::nips::nip44::encrypt(&secret, &recipient, content, version)
        .map_err(|e| e.to_string())
}

/// A failure with what was being done when it happened.
pub open spec fn failure_in(context: Seq<char>, cause: Seq<char>) -> FailureModel {
    FailureModel { brief: context, full: context + ": "@ + cause }
}

/// A failure with what was being done when it happened.
pub fn fail_in(context: &str, cause: &str) -> (failure: Failure)
    ensures
        failure@ == failure_in(context@, cause@),
{
    Failure {
        brief: context.to_owned(),
        full: context.to_owned().concat(": ").concat(cause),
    }
}

/// What came of something, with what was being done.
pub open spec fn result_in<T>(context: Seq<char>, result: Result<T, Seq<char>>) -> Result<
    T,
    FailureModel,
> {
    match result {
        Ok(value) => Ok(value),
        Err(cause) => Err(failure_in(context, cause)),
    }
}

/// The keys of a bot as they were read, or a failure.
pub fn accept_bot_keys(read: Result<KeyPair, String>) -> (keys: Result<KeyPair, Failure>)
    ensures
        or_failure(keys) == result_in("parse bot_secret_key_hex"@, text_outcome(read)),
{
    match read {
        Ok(keys) => Ok(keys),
        Err(cause) => Err(fail_in("parse bot_secret_key_hex", cause.as_str())),
    }
}

/// The keys of a bot: those whose secret key is asked for, or new ones.
pub fn bot_keys(secret: &Option<String>) -> (keys: Result<KeyPair, Failure>)
    ensures
        secret matches Some(secret) ==> or_failure(keys) == result_in(
            "parse bot_secret_key_hex"@,
            keys_read(keys_in(secret@)),
        ),
        secret is None ==> keys is Ok,
        keys matches Ok(pair) ==> is_pair(pair@),
{
    match secret {
        Some(secret) => accept_bot_keys(parse_keys(secret.as_str())),
        None => Ok(generate_keys()),
    }
}

/// What is sent to a recipient in secret. The recipient can read it, as coming from the
/// sender. Which text it is is left to chance.
pub fn seal_answer(keys: &KeyPair, recipient: &str, content: &str) -> (sealed: Result<
    String,
    Failure,
>)
    ensures
        sealed is Ok ==> can_be_told(content@),
        can_be_told(content@) && is_pair(keys@) && is_public_key(recipient@) ==> sealed is Ok,
        sealed matches Ok(text) ==> reads_as(keys@.secret_hex, recipient@, text@, content@),
        is_pair(keys@) ==> (sealed matches Ok(text) ==> recipient_reads(
            keys@.public_hex,
            recipient@,
            text@,
            content@,
        )),
        sealed matches Err(failure) ==> exists|cause: Seq<char>|
            failure@ == #[trigger] failure_in("encrypt control event payload"@, cause),
{
    match seal_secret(keys.secret_hex.as_str(), recipient, content) {
        Ok(text) => Ok(text),
        Err(cause) => Err(fail_in("encrypt control event payload", cause.as_str())),
    }
}

} // verus!
