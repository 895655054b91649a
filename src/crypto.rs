//! The credential vault: stored secrets are sealed with AES-256-GCM under a
//! key that is made once and kept, and every field is stored as hex.
use vstd::prelude::*;
use vstd::string::*;
use vstd::utf8::{decode_utf8, encode_utf8, valid_utf8, is_ascii_chars};

verus! {

/// A sealed secret: ciphertext, nonce and authentication tag, each in hex.
pub struct EncryptedData {
    pub encrypted: String,
    pub iv: String,
    pub auth_tag: String,
}

pub const KEY_LEN: usize = 32;
pub const NONCE_LEN: usize = 12;
pub const TAG_LEN: usize = 16;
/// The longest message AES-GCM seals, in bytes (2^36).
pub const AES_GCM_MAX_PLAINTEXT: u64 = 68719476736;

pub open spec fn hex_digits() -> Seq<char> {
    seq!['0', '1', '2', '3', '4', '5', '6', '7', '8', '9', 'a', 'b', 'c', 'd', 'e', 'f']
}

/// Two lower-case hex digits per byte, the high half first.
pub open spec fn hex_text(b: Seq<u8>) -> Seq<char> {
    Seq::new(
        2 * b.len(),
        |i: int| if i % 2 == 0 { hex_digits()[(b[i / 2] / 16) as int] } else { hex_digits()[(b[i / 2] % 16) as int] },
    )
}

/// The value of a hex digit of either case.
pub open spec fn hex_value(c: u8) -> Option<u8> {
    if 48 <= c <= 57 {
        Some((c - 48) as u8)
    } else if 97 <= c <= 102 {
        Some((c - 87) as u8)
    } else if 65 <= c <= 70 {
        Some((c - 55) as u8)
    } else {
        None
    }
}

/// The bytes that a hex text of even length stands for, if all of it is digits.
pub open spec fn hex_decode_spec(t: Seq<u8>) -> Option<Seq<u8>> {
    if t.len() % 2 != 0 || exists|i: int| 0 <= i < t.len() && (#[trigger] hex_value(t[i])) is None {
        None
    } else {
        Some(Seq::new(
            t.len() / 2,
            |i: int| (hex_value(t[2 * i])->Some_0 * 16 + hex_value(t[2 * i + 1])->Some_0) as u8,
        ))
    }
}

/// Relies on hex::encode: lower-case digits, two per byte, high half first.
#[verifier::external_body]
fn hex_encode(bytes: &[u8]) -> (r: String)
    ensures
        r@ == hex_text(bytes@),
{
    hex::encode(bytes)
}

/// Relies on hex::decode: reads the UTF-8 bytes of `text` in pairs; fails on
/// an odd length or on any byte that is no hex digit.
#[verifier::external_body]
fn hex_decode(text: &str) -> (r: Option<Vec<u8>>)
    ensures
        match hex_decode_spec(encode_utf8(text@)) {
            Some(b) => r matches Some(v) && v@ == b,
            None => r is None,
        },
{
    hex::decode(text).ok()
}

/// Relies on rand::thread_rng's RngCore::fill_bytes: `len` bytes of chance.
#[verifier::external_body]
fn random_bytes(len: usize) -> (r: Vec<u8>)
    ensures
        r@.len() == len,
{
    let mut bytes = vec![0u8; len];
    rand::RngCore::fill_bytes(&mut rand::thread_rng(), &mut bytes);
    bytes
}

/// What AES-256-GCM makes of a message under a key and a nonce, with no
/// associated data: the ciphertext followed by the tag.
pub uninterp spec fn aes256_gcm_seal(key: Seq<u8>, nonce: Seq<u8>, msg: Seq<u8>) -> Seq<u8>;

/// What AES-256-GCM recovers from a ciphertext followed by its tag, if the tag
/// checks out.
pub uninterp spec fn aes256_gcm_open(key: Seq<u8>, nonce: Seq<u8>, sealed: Seq<u8>) -> Option<Seq<u8>>;

/// Relies on aes_gcm's `Aead::encrypt` for `Aes256Gcm`: it fails exactly on a
/// message over 2^36 bytes, appends the 16-byte tag to the ciphertext, and
/// `Aead::decrypt` under the same key and nonce gives the message back.
#[verifier::external_body]
fn aes_seal(key: &[u8], nonce: &[u8], msg: &[u8]) -> (r: Option<Vec<u8>>)
    requires
        key@.len() == KEY_LEN,
        nonce@.len() == NONCE_LEN,
    ensures
        r is Some <==> msg@.len() <= AES_GCM_MAX_PLAINTEXT,
        r matches Some(c) ==> c@ == aes256_gcm_seal(key@, nonce@, msg@) && c@.len() == msg@.len() + TAG_LEN
            && aes256_gcm_open(key@, nonce@, c@) == Some(msg@),
{
    let cipher = <aes_gcm::Aes256Gcm as aes_gcm::KeyInit>::new(aes_gcm::Key::<aes_gcm::Aes256Gcm>::from_slice(key));
    let payload = aes_gcm::aead::Payload { msg, aad: &[] };
    aes_gcm::aead::Aead::encrypt(&cipher, aes_gcm::Nonce::from_slice(nonce), payload).ok()
}

/// Relies on aes_gcm's `Aead::decrypt` for `Aes256Gcm`: checks the trailing
/// tag and, when it matches, returns the message.
#[verifier::external_body]
fn aes_open(key: &[u8], nonce: &[u8], sealed: &[u8]) -> (r: Option<Vec<u8>>)
    requires
        key@.len() == KEY_LEN,
        nonce@.len() == NONCE_LEN,
    ensures
        match aes256_gcm_open(key@, nonce@, sealed@) {
            Some(p) => r matches Some(v) && v@ == p,
            None => r is None,
        },
{
    let cipher = <aes_gcm::Aes256Gcm as aes_gcm::KeyInit>::new(aes_gcm::Key::<aes_gcm::Aes256Gcm>::from_slice(key));
    let payload = aes_gcm::aead::Payload { msg: sealed, aad: &[] };
    aes_gcm::aead::Aead::decrypt(&cipher, aes_gcm::Nonce::from_slice(nonce), payload).ok()
}

/// Relies on String::from_utf8: accepts exactly the valid UTF-8 sequences.
#[verifier::external_body]
fn utf8_string(bytes: Vec<u8>) -> (r: Option<String>)
    ensures
        r is Some <==> valid_utf8(bytes@),
        r matches Some(s) ==> s@ == decode_utf8(bytes@),
{
    String::from_utf8(bytes).ok()
}

/// The key that a stored hex text holds, if it is 32 bytes of hex.
pub open spec fn stored_key(stored: Option<Seq<char>>) -> Option<Seq<u8>> {
    match stored {
        Some(t) => match hex_decode_spec(encode_utf8(t)) {
            Some(b) => if b.len() == KEY_LEN { Some(b) } else { None },
            None => None,
        },
        None => None,
    }
}

/// The key to seal with, and the hex text to persist when it is new.
pub struct EncryptionKey {
    pub key: Vec<u8>,
    pub to_store: Option<String>,
}

/// Reuses the persisted key when it reads as 32 bytes of hex; otherwise makes
/// a fresh random key, to be persisted as hex.
pub fn get_encryption_key(stored: &Option<String>) -> (r: EncryptionKey)
    ensures
        r.key@.len() == KEY_LEN,
        stored_key(crate::hosts::opt_text(*stored)) matches Some(k) ==> r.key@ == k && r.to_store is None,
        stored_key(crate::hosts::opt_text(*stored)) is None ==> (r.to_store matches Some(t) && t@ == hex_text(r.key@)),
{
    if let Some(text) = stored {
        if let Some(bytes) = hex_decode(text.as_str()) {
            if bytes.len() == KEY_LEN {
                return EncryptionKey { key: bytes, to_store: None };
            }
        }
    }
    let key = random_bytes(KEY_LEN);
    let hex = hex_encode(key.as_slice());
    EncryptionKey { key, to_store: Some(hex) }
}

/// `d` is `plaintext` sealed under `key` with the nonce `iv`.
pub open spec fn sealed_with(key: Seq<u8>, iv: Seq<u8>, plaintext: Seq<char>, d: EncryptedData) -> bool {
    let m = encode_utf8(plaintext);
    let c = aes256_gcm_seal(key, iv, m);
    &&& iv.len() == NONCE_LEN
    &&& c.len() == m.len() + TAG_LEN
    &&& aes256_gcm_open(key, iv, c) == Some(m)
    &&& d.iv@ == hex_text(iv)
    &&& d.encrypted@ == hex_text(c.subrange(0, m.len() as int))
    &&& d.auth_tag@ == hex_text(c.subrange(m.len() as int, c.len() as int))
}

/// `d` is `plaintext` sealed under `key` with some nonce.
pub open spec fn seals(key: Seq<u8>, plaintext: Seq<char>, d: EncryptedData) -> bool {
    exists|iv: Seq<u8>| #[trigger] sealed_with(key, iv, plaintext, d)
}

/// Seals a secret under a fresh random nonce. Nothing is made of an empty
/// secret: empty secrets are never stored.
pub fn encrypt(key: &[u8], plaintext: &str) -> (r: Option<EncryptedData>)
    requires
        key@.len() == KEY_LEN,
    ensures
        plaintext@.len() == 0 ==> r is None,
        plaintext@.len() > 0 ==> (r is Some <==> encode_utf8(plaintext@).len() <= AES_GCM_MAX_PLAINTEXT),
        r matches Some(d) ==> seals(key@, plaintext@, d),
{
    if plaintext.is_empty() {
        return None;
    }
    let iv = random_bytes(NONCE_LEN);
    let msg = plaintext.as_bytes();
    match aes_seal(key, iv.as_slice(), msg) {
        None => None,
        Some(sealed) => {
            let ghost c = sealed@;
            let mut body = sealed;
            let at = body.len() - TAG_LEN;
            let tag = body.split_off(at);
            let d = EncryptedData {
                encrypted: hex_encode(body.as_slice()),
                iv: hex_encode(iv.as_slice()),
                auth_tag: hex_encode(tag.as_slice()),
            };
            assert(sealed_with(key@, iv@, plaintext@, d));
            Some(d)
        },
    }
}

/// What `decrypt` recovers from `d` under `key`: every field must be hex,
/// the nonce 12 bytes, the tag must check out and the message be UTF-8.
pub open spec fn opened(key: Seq<u8>, d: EncryptedData) -> Option<Seq<char>> {
    let iv = hex_decode_spec(encode_utf8(d.iv@));
    let tag = hex_decode_spec(encode_utf8(d.auth_tag@));
    let ct = hex_decode_spec(encode_utf8(d.encrypted@));
    if iv is None || tag is None || ct is None || iv->Some_0.len() != NONCE_LEN {
        None
    } else {
        match aes256_gcm_open(key, iv->Some_0, ct->Some_0 + tag->Some_0) {
            Some(p) => if valid_utf8(p) { Some(decode_utf8(p)) } else { None },
            None => None,
        }
    }
}

/// Opens a sealed secret; `None` when any part of it does not check out.
pub fn decrypt(key: &[u8], data: &EncryptedData) -> (r: Option<String>)
    requires
        key@.len() == KEY_LEN,
    ensures
        crate::hosts::opt_text(r) == opened(key@, *data),
{
    let iv = match hex_decode(data.iv.as_str()) {
        Some(v) => v,
        None => return None,
    };
    let mut tag = match hex_decode(data.auth_tag.as_str()) {
        Some(v) => v,
        None => return None,
    };
    let mut combined = match hex_decode(data.encrypted.as_str()) {
        Some(v) => v,
        None => return None,
    };
    combined.append(&mut tag);
    if iv.len() != NONCE_LEN {
        return None;
    }
    match aes_open(key, iv.as_slice(), combined.as_slice()) {
        Some(plain) => utf8_string(plain),
        None => None,
    }
}

proof fn lemma_hex_digit_value(n: u8)
    requires
        n < 16,
    ensures
        hex_value(hex_digits()[n as int] as u8) == Some(n),
        '\0' <= hex_digits()[n as int] <= '\u{7f}',
{
}

/// Hex text made by `hex_text` decodes back to the same bytes.
pub proof fn lemma_hex_round_trip(b: Seq<u8>)
    ensures
        hex_decode_spec(encode_utf8(hex_text(b))) == Some(b),
{
    let t = hex_text(b);
    assert forall|i: int| 0 <= i < t.len() implies '\0' <= #[trigger] t[i] <= '\u{7f}'
        && hex_value(t[i] as u8) == Some(if i % 2 == 0 { b[i / 2] / 16 } else { b[i / 2] % 16 }) by {
        if i % 2 == 0 {
            lemma_hex_digit_value(b[i / 2] / 16);
        } else {
            lemma_hex_digit_value(b[i / 2] % 16);
        }
    }
    assert(is_ascii_chars(t));
    vstd::utf8::is_ascii_chars_encode_utf8(t);
    let e = encode_utf8(t);
    assert forall|i: int| 0 <= i < e.len() implies (#[trigger] hex_value(e[i])) is Some by {
        assert(t[i] as u8 == e[i]);
    }
    assert(e.len() % 2 == 0);
    let d = hex_decode_spec(e)->Some_0;
    assert forall|i: int| 0 <= i < b.len() implies d[i] == b[i] by {
        assert(t[2 * i] as u8 == e[2 * i]);
        assert(t[2 * i + 1] as u8 == e[2 * i + 1]);
        assert((2 * i) / 2 == i);
        assert((2 * i + 1) / 2 == i);
        assert((2 * i) % 2 == 0);
        assert((2 * i + 1) % 2 == 1);
        assert((b[i] / 16) * 16 + b[i] % 16 == b[i]);
    }
    assert(d =~= b);
}

/// Whatever `encrypt` sealed, `decrypt` under the same key gives back.
pub proof fn lemma_decrypt_inverts_encrypt(key: Seq<u8>, plaintext: Seq<char>, d: EncryptedData)
    requires
        seals(key, plaintext, d),
    ensures
        opened(key, d) == Some(plaintext),
{
    let iv = choose|iv: Seq<u8>| #[trigger] sealed_with(key, iv, plaintext, d);
    let m = encode_utf8(plaintext);
    let c = aes256_gcm_seal(key, iv, m);
    let ct = c.subrange(0, m.len() as int);
    let tag = c.subrange(m.len() as int, c.len() as int);
    lemma_hex_round_trip(iv);
    lemma_hex_round_trip(ct);
    lemma_hex_round_trip(tag);
    assert(ct + tag =~= c);
    vstd::utf8::encode_utf8_valid_utf8(plaintext);
    vstd::utf8::encode_utf8_decode_utf8(plaintext);
}

} // verus!
