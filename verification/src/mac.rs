//! The keyed message-authentication code that the upstream server asks of a
//! shared-secret registration.

use vstd::prelude::*;
use vstd::utf8::encode_utf8;
use hmac::{Hmac, Mac};
use sha1::Sha1;

verus! {

broadcast use vstd::string::group_string_axioms;

/// The HMAC of `message` under `key`, with SHA-1 as its digest (RFC 2104).
pub uninterp spec fn hmac_sha1(key: Seq<u8>, message: Seq<u8>) -> Seq<u8>;

/// The lowercase hexadecimal digit of `nibble`, for `nibble` from 0 to 15.
pub open spec fn hex_digit(nibble: int) -> char {
    "0123456789abcdef"@[nibble]
}

/// The lowercase hexadecimal text of `bytes`: two digits for each byte, the
/// high half first.
pub open spec fn hex_lower(bytes: Seq<u8>) -> Seq<char> {
    Seq::new(
        2 * bytes.len(),
        |i: int|
            if i % 2 == 0 {
                hex_digit(bytes[i / 2] as int / 16)
            } else {
                hex_digit(bytes[i / 2] as int % 16)
            },
    )
}

/// The bytes that are authenticated for a registration that asks for no
/// administrator rights: nonce, user name and password in UTF-8, a NUL byte
/// after each, then the word `notadmin`.
pub open spec fn mac_layout(nonce: Seq<char>, user: Seq<char>, password: Seq<char>) -> Seq<u8> {
    encode_utf8(nonce) + seq![0u8] + encode_utf8(user) + seq![0u8] + encode_utf8(password)
        + seq![0u8] + encode_utf8("notadmin"@)
}

/// The registration MAC: the HMAC-SHA1 of `mac_layout` under the UTF-8 bytes
/// of the shared secret, in lowercase hexadecimal.
pub open spec fn registration_mac(
    nonce: Seq<char>,
    user: Seq<char>,
    password: Seq<char>,
    shared_secret: Seq<char>,
) -> Seq<char> {
    hex_lower(hmac_sha1(encode_utf8(shared_secret), mac_layout(nonce, user, password)))
}

/// HMAC-SHA1 by the `hmac` and `sha1` crates: `Mac::new_from_slice` with the
/// key, which accepts a key of any length, one `Mac::update` with the whole
/// message, and `Mac::finalize`. The digest depends on key and message alone
/// and is 20 bytes long, the output size of SHA-1.
#[verifier::external_body]
fn hmac_sha1_digest(key: &[u8], message: &[u8]) -> (digest: Vec<u8>)
    ensures
        digest@ == hmac_sha1(key@, message@),
        digest@.len() == 20,
{
    let mut mac = Hmac::<Sha1>::new_from_slice(key).expect("hmac can take key");
    mac.update(message);
    mac.finalize().into_bytes().to_vec()
}

/// `hex::encode`: each byte becomes two digits out of `0123456789abcdef`, the
/// high half first.
#[verifier::external_body]
fn hex_encode(bytes: &[u8]) -> (text: String)
    ensures
        text@ == hex_lower(bytes@),
{
    hex::encode(bytes)
}

/// Lays out the bytes to authenticate.
pub fn mac_message(nonce: &str, user: &str, password: &str) -> (message: Vec<u8>)
    ensures
        message@ == mac_layout(nonce@, user@, password@),
{
    let mut message: Vec<u8> = Vec::new();
    message.extend_from_slice(nonce.as_bytes());
    message.push(0);
    message.extend_from_slice(user.as_bytes());
    message.push(0);
    message.extend_from_slice(password.as_bytes());
    message.push(0);
    message.extend_from_slice("notadmin".as_bytes());
    message
}

/// Hexadecimal text of a digest.
pub fn mac_text(digest: &[u8]) -> (text: String)
    ensures
        text@ == hex_lower(digest@),
{
    hex_encode(digest)
}

/// Computes the MAC that a registration of `user` with `password` under
/// `nonce` must carry.
pub fn calculate_mac(nonce: &str, user: &str, password: &str, shared_secret: &str) -> (mac: String)
    ensures
        mac@ == registration_mac(nonce@, user@, password@, shared_secret@),
        mac@.len() == 40,
{
    let message = mac_message(nonce, user, password);
    let digest = hmac_sha1_digest(shared_secret.as_bytes(), message.as_slice());
    mac_text(digest.as_slice())
}

/// The MAC is a function of its four inputs: the same nonce, user name,
/// password and secret give the same text.
pub proof fn lemma_mac_deterministic(
    nonce: Seq<char>,
    user: Seq<char>,
    password: Seq<char>,
    shared_secret: Seq<char>,
    nonce2: Seq<char>,
    user2: Seq<char>,
    password2: Seq<char>,
    shared_secret2: Seq<char>,
)
    requires
        nonce == nonce2,
        user == user2,
        password == password2,
        shared_secret == shared_secret2,
    ensures
        registration_mac(nonce, user, password, shared_secret) == registration_mac(
            nonce2,
            user2,
            password2,
            shared_secret2,
        ),
{
}

} // verus!
