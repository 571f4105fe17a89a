//! End-to-end encryption of what the gateway sends and receives.
//!
//! A payload is the base64 text of a random nonce of [`NONCE_LEN`] bytes, followed by the
//! ChaCha20-Poly1305 ciphertext of the UTF-8 bytes of the message. The key is shared with the
//! other side as base64 text.
use base64::Engine;
use chacha20poly1305::aead::{Aead, KeyInit};
use chacha20poly1305::{ChaCha20Poly1305, Nonce};
use rand::RngExt;
use vstd::prelude::*;
use vstd::utf8::{
    decode_utf8, decode_utf8_encode_utf8, encode_utf8, encode_utf8_decode_utf8,
    encode_utf8_valid_utf8, is_ascii_chars, valid_utf8,
};

verus! {

/// Bytes in a nonce.
pub const NONCE_LEN: usize = 12;

/// Bytes in a key.
pub const KEY_LEN: usize = 32;

/// Bytes by which a ciphertext is longer than what it encrypts.
pub const TAG_LEN: usize = 16;

/// The most bytes that one nonce can encrypt: a 32-bit counter numbers the 64-byte blocks, and
/// the first and the last number are not used for the message.
pub const MAX_PLAIN_LEN: u64 = 274_877_906_816;

// ---------------------------------------------------------------------------------------------
// Outside functions
// ---------------------------------------------------------------------------------------------

/// The text that the standard, padded base64 engine encodes bytes as.
pub uninterp spec fn base64_text(bytes: Seq<u8>) -> Seq<char>;

/// The bytes that the standard, padded base64 engine decodes out of a text; `None` where it
/// reports an error.
pub uninterp spec fn base64_bytes(text: Seq<char>) -> Option<Seq<u8>>;

/// The ChaCha20-Poly1305 ciphertext, tag at its end, of `plain` under a key and a nonce, without
/// associated data.
pub uninterp spec fn sealed(key: Seq<u8>, nonce: Seq<u8>, plain: Seq<u8>) -> Seq<u8>;

/// What ChaCha20-Poly1305 decrypts a ciphertext to under a key and a nonce; `None` where the tag
/// does not authenticate it.
pub uninterp spec fn opened(key: Seq<u8>, nonce: Seq<u8>, cipher: Seq<u8>) -> Option<Seq<u8>>;

/// The number of characters in the base64 text of so many bytes.
pub open spec fn base64_len(bytes: nat) -> nat {
    4 * ((bytes + 2) / 3)
}

/// The number of padding characters at the end of the base64 text of so many bytes.
pub open spec fn base64_padding(bytes: nat) -> nat {
    if bytes % 3 == 0 {
        0
    } else {
        (3 - bytes % 3) as nat
    }
}

/// Whether a text has the size and the padding of the base64 text of so many bytes, all of it in
/// ASCII.
pub open spec fn base64_shaped(text: Seq<char>, bytes: nat) -> bool {
    &&& text.len() == base64_len(bytes)
    &&& is_ascii_chars(text)
    &&& forall|i: int| text.len() - base64_padding(bytes) <= i < text.len() ==> text[i] == '='
}

/// `Engine::encode` of base64's `STANDARD` engine. Claims that the text is a function of the
/// bytes, that the same engine decodes it to them, and how long and how padded it is. The call
/// panics on an overflow of the text's length only for more than three quarters of `usize::MAX`
/// bytes, which no slice has.
#[verifier::external_body]
fn base64_encode(bytes: &[u8]) -> (text: String)
    ensures
        text@ == base64_text(bytes@),
        base64_bytes(text@) == Some(bytes@),
        base64_shaped(text@, bytes@.len()),
{
    base64::engine::general_purpose::STANDARD.encode(bytes)
}

/// `Engine::decode` of base64's `STANDARD` engine. Claims that the result is a function of the
/// text, and that only the text that the same engine encodes the bytes as is decoded: the engine
/// accepts no other padding and no stray bits at the end. `None` stands for its error.
#[verifier::external_body]
fn base64_decode(text: &str) -> (bytes: Option<Vec<u8>>)
    ensures
        bytes matches Some(b) ==> {
            &&& base64_bytes(text@) == Some(b@)
            &&& text@ == base64_text(b@)
            &&& base64_shaped(text@, b@.len())
        },
        bytes is None ==> base64_bytes(text@) is None,
{
    base64::engine::general_purpose::STANDARD.decode(text).ok()
}

/// `RngExt::fill` of rand's thread-local generator. The bytes are random: nothing is claimed of
/// them.
#[verifier::external_body]
fn random_nonce() -> (nonce: [u8; 12]) {
    let mut nonce = [0u8; 12];
    rand::rng().fill(&mut nonce);
    nonce
}

/// `Aead::encrypt` of a `ChaCha20Poly1305` made by `KeyInit::new_from_slice`. Claims that there is
/// a ciphertext exactly for a key of [`KEY_LEN`] bytes, that it is a function of key, nonce and
/// plaintext, that it is [`TAG_LEN`] bytes longer than the plaintext, and that decryption under
/// the same key and nonce gives the plaintext back.
#[verifier::external_body]
fn aead_encrypt(key: &[u8], nonce: &[u8], plain: &[u8]) -> (cipher: Option<Vec<u8>>)
    requires
        nonce@.len() == NONCE_LEN,
        plain@.len() <= MAX_PLAIN_LEN,
    ensures
        cipher is Some <==> key@.len() == KEY_LEN,
        cipher matches Some(c) ==> {
            &&& c@ == sealed(key@, nonce@, plain@)
            &&& c@.len() == plain@.len() + TAG_LEN
            &&& opened(key@, nonce@, c@) == Some(plain@)
        },
{
    let engine = ChaCha20Poly1305::new_from_slice(key).ok()?;
    engine.encrypt(Nonce::from_slice(nonce), plain).ok()
}

/// Whether no other plaintext of the same length has a ciphertext that is the same up to its tag.
pub open spec fn told_by_body(key: Seq<u8>, nonce: Seq<u8>, plain: Seq<u8>) -> bool {
    let len = plain.len() as int;
    forall|other: Seq<u8>|
        other.len() == len && (#[trigger] sealed(key, nonce, other)).take(len) == sealed(
            key,
            nonce,
            plain,
        ).take(len) ==> other == plain
}

/// `Aead::decrypt` of a `ChaCha20Poly1305` made by `KeyInit::new_from_slice`. Claims that there is
/// no plaintext for a key of another length than [`KEY_LEN`] bytes; that the result is otherwise a
/// function of key, nonce and ciphertext; that a plaintext is [`TAG_LEN`] bytes shorter than the
/// ciphertext; that only what encryption gives for it is decrypted, since the tag is computed anew
/// and compared; and that no other plaintext encrypts to the same bytes before the tag, since those
/// are the plaintext combined byte by byte with a stream that depends on key and nonce alone.
#[verifier::external_body]
fn aead_decrypt(key: &[u8], nonce: &[u8], cipher: &[u8]) -> (plain: Option<Vec<u8>>)
    requires
        nonce@.len() == NONCE_LEN,
        cipher@.len() <= MAX_PLAIN_LEN + TAG_LEN,
    ensures
        key@.len() != KEY_LEN ==> plain is None,
        key@.len() == KEY_LEN ==> match plain {
            Some(p) => {
                &&& opened(key@, nonce@, cipher@) == Some(p@)
                &&& p@.len() + TAG_LEN == cipher@.len()
                &&& cipher@ == sealed(key@, nonce@, p@)
                &&& told_by_body(key@, nonce@, p@)
            },
            None => opened(key@, nonce@, cipher@) is None,
        },
{
    let engine = ChaCha20Poly1305::new_from_slice(key).ok()?;
    engine.decrypt(Nonce::from_slice(nonce), cipher).ok()
}

/// `String::from_utf8`. Claims that there is a text exactly for valid UTF-8, and that it is the
/// text that the bytes encode.
#[verifier::external_body]
fn utf8_text(bytes: Vec<u8>) -> (text: Option<String>)
    ensures
        text is Some <==> valid_utf8(bytes@),
        text matches Some(t) ==> t@ == decode_utf8(bytes@),
{
    String::from_utf8(bytes).ok()
}

// ---------------------------------------------------------------------------------------------
// Payloads
// ---------------------------------------------------------------------------------------------

/// The key that a base64 text stands for; `None` if it is not base64 or of another length.
pub open spec fn cipher_key(key_b64: Seq<char>) -> Option<Seq<u8>> {
    match base64_bytes(key_b64) {
        Some(key) => if key.len() == KEY_LEN {
            Some(key)
        } else {
            None
        },
        None => None,
    }
}

/// Whether a key text, if it can be used, has the size and the padding of the base64 text of a key.
/// One of another length cannot be used then.
pub open spec fn key_shaped(key_b64: Seq<char>) -> bool {
    cipher_key(key_b64) is Some ==> base64_shaped(key_b64, KEY_LEN as nat)
}

/// Whether a message is short enough for one nonce.
pub open spec fn fits(data: Seq<char>) -> bool {
    encode_utf8(data).len() <= MAX_PLAIN_LEN
}

/// Whether `data` can be encrypted under the key.
pub open spec fn can_seal(data: Seq<char>, key_b64: Seq<char>) -> bool {
    cipher_key(key_b64) is Some && fits(data)
}

/// The bytes of the payload that carries `data` under a key and a nonce.
pub open spec fn sealed_bytes(data: Seq<char>, key_b64: Seq<char>, nonce: Seq<u8>) -> Seq<u8> {
    nonce + sealed(cipher_key(key_b64)->0, nonce, encode_utf8(data))
}

/// The payload that carries `data` under a key and a nonce.
pub open spec fn sealed_payload(data: Seq<char>, key_b64: Seq<char>, nonce: Seq<u8>) -> Seq<char> {
    base64_text(sealed_bytes(data, key_b64, nonce))
}

/// Whether `text` is a payload that carries `data` under the key, with some nonce.
pub open spec fn is_sealing(text: Seq<char>, data: Seq<char>, key_b64: Seq<char>) -> bool {
    exists|nonce: Seq<u8>|
        {
            &&& nonce.len() == NONCE_LEN
            &&& text == #[trigger] sealed_payload(data, key_b64, nonce)
            &&& base64_bytes(text) == Some(sealed_bytes(data, key_b64, nonce))
        }
}

/// The number of bytes in the payload of `data`, before they are encoded as text.
pub open spec fn payload_len(data: Seq<char>) -> nat {
    NONCE_LEN as nat + encode_utf8(data).len() + TAG_LEN as nat
}

/// Whether a payload of `data` is of the right size, as bytes and as text.
pub open spec fn payload_sized(text: Seq<char>, data: Seq<char>) -> bool {
    &&& base64_bytes(text) matches Some(bytes) && bytes.len() == payload_len(data)
    &&& base64_shaped(text, payload_len(data))
}

/// What the bytes of a payload carry under a key; `None` if the key is of another length, if there
/// is no whole nonce and tag, if there is more than one nonce can encrypt, if the tag does not
/// authenticate the bytes, or if they decrypt to something other than UTF-8.
pub open spec fn opened_text(key: Seq<u8>, bytes: Seq<u8>) -> Option<Seq<char>> {
    if key.len() == KEY_LEN && NONCE_LEN + TAG_LEN <= bytes.len() <= NONCE_LEN + MAX_PLAIN_LEN
        + TAG_LEN {
        match opened(key, bytes.take(NONCE_LEN as int), bytes.skip(NONCE_LEN as int)) {
            Some(plain) => if valid_utf8(plain) {
                Some(decode_utf8(plain))
            } else {
                None
            },
            None => None,
        }
    } else {
        None
    }
}

/// What a payload carries under a key; `None` if the key cannot be used, if the text is not
/// base64, or if its bytes carry nothing.
pub open spec fn opened_payload(text: Seq<char>, key_b64: Seq<char>) -> Option<Seq<char>> {
    match (cipher_key(key_b64), base64_bytes(text)) {
        (Some(key), Some(bytes)) => opened_text(key, bytes),
        _ => None,
    }
}

/// Whether these bytes are a nonce and what the key and that nonce make of the text, and the text
/// is the only one of its length that gives the same bytes before the tag.
pub open spec fn seals(key: Seq<u8>, bytes: Seq<u8>, text: Seq<char>) -> bool {
    let nonce = bytes.take(NONCE_LEN as int);
    &&& bytes == nonce + sealed(key, nonce, encode_utf8(text))
    &&& bytes.len() == payload_len(text)
    &&& told_by_body(key, nonce, encode_utf8(text))
}

/// Whether decryption of a payload gives this.
pub open spec fn decrypts_to(
    text: Seq<char>,
    key_b64: Seq<char>,
    data: Option<Seq<char>>,
) -> bool {
    &&& opened_payload(text, key_b64) == data
    &&& data matches Some(t) ==> {
        &&& fits(t)
        &&& seals(cipher_key(key_b64)->0, base64_bytes(text)->0, t)
        &&& text == base64_text(base64_bytes(text)->0)
        &&& payload_sized(text, t)
    }
}

/// A text as a sequence of characters, if there is one.
pub open spec fn text_view(text: Option<String>) -> Option<Seq<char>> {
    match text {
        Some(t) => Some(t@),
        None => None,
    }
}

/// Encrypts bytes under the key and a given nonce, which is put before them.
pub fn seal_bytes(key: &[u8], nonce: &[u8; 12], plain: &[u8]) -> (bytes: Option<Vec<u8>>)
    requires
        plain@.len() <= MAX_PLAIN_LEN,
    ensures
        bytes is Some <==> key@.len() == KEY_LEN,
        bytes matches Some(b) ==> {
            &&& b@ == nonce@ + sealed(key@, nonce@, plain@)
            &&& b@.len() == NONCE_LEN + plain@.len() + TAG_LEN
            &&& opened(key@, nonce@, b@.skip(NONCE_LEN as int)) == Some(plain@)
        },
{
    let cipher = match aead_encrypt(key, nonce.as_slice(), plain) {
        Some(cipher) => cipher,
        None => return None,
    };
    let mut combined: Vec<u8> = Vec::new();
    combined.extend_from_slice(nonce.as_slice());
    combined.extend_from_slice(cipher.as_slice());
    proof {
        assert(combined@ =~= nonce@ + cipher@);
        assert(combined@.skip(NONCE_LEN as int) =~= cipher@);
    }
    Some(combined)
}

/// Decrypts bytes that begin with their nonce.
pub fn open_bytes(key: &[u8], bytes: &[u8]) -> (data: Option<String>)
    ensures
        text_view(data) == opened_text(key@, bytes@),
        bytes@.len() < NONCE_LEN + TAG_LEN ==> data is None,
        data matches Some(t) ==> fits(t@) && seals(key@, bytes@, t@),
{
    if bytes.len() < NONCE_LEN {
        return None;
    }
    let (nonce, cipher) = bytes.split_at(NONCE_LEN);
    proof {
        assert(nonce@ =~= bytes@.take(NONCE_LEN as int));
        assert(cipher@ =~= bytes@.skip(NONCE_LEN as int));
        assert(bytes@ =~= nonce@ + cipher@);
    }
    if cipher.len() as u64 > MAX_PLAIN_LEN + TAG_LEN as u64 {
        return None;
    }
    match aead_decrypt(key, nonce, cipher) {
        Some(plain) => {
            proof {
                if valid_utf8(plain@) {
                    decode_utf8_encode_utf8(plain@);
                }
            }
            utf8_text(plain)
        },
        None => None,
    }
}

/// Encrypts `data` under the key and a given nonce.
pub fn seal_payload(data: &str, key_b64: &str, nonce: &[u8; 12]) -> (payload: Option<String>)
    ensures
        payload is Some <==> can_seal(data@, key_b64@),
        payload is Some <==> base64_bytes(key_b64@) is Some && base64_bytes(key_b64@)->0.len() == 32
            && encode_utf8(data@).len() <= 274_877_906_816,
        key_shaped(key_b64@),
        payload matches Some(text) ==> {
            &&& text@ == sealed_payload(data@, key_b64@, nonce@)
            &&& base64_bytes(text@) == Some(sealed_bytes(data@, key_b64@, nonce@))
            &&& opened_payload(text@, key_b64@) == Some(data@)
            &&& payload_sized(text@, data@)
        },
{
    let key = match base64_decode(key_b64) {
        Some(key) => key,
        None => return None,
    };
    let plain = data.as_bytes();
    if plain.len() as u64 > MAX_PLAIN_LEN {
        return None;
    }
    let bytes = match seal_bytes(key.as_slice(), nonce, plain) {
        Some(bytes) => bytes,
        None => return None,
    };
    proof {
        assert(bytes@.take(NONCE_LEN as int) =~= nonce@);
        encode_utf8_valid_utf8(data@);
        encode_utf8_decode_utf8(data@);
    }
    Some(base64_encode(bytes.as_slice()))
}

/// Encrypts `data` under the key, with a nonce drawn at random.
pub fn encrypt_payload(data: &str, key_b64: &str) -> (payload: Option<String>)
    ensures
        payload is Some <==> can_seal(data@, key_b64@),
        payload is Some <==> base64_bytes(key_b64@) is Some && base64_bytes(key_b64@)->0.len() == 32
            && encode_utf8(data@).len() <= 274_877_906_816,
        key_shaped(key_b64@),
        payload matches Some(text) ==> {
            &&& is_sealing(text@, data@, key_b64@)
            &&& opened_payload(text@, key_b64@) == Some(data@)
            &&& payload_sized(text@, data@)
        },
{
    let nonce = random_nonce();
    seal_payload(data, key_b64, &nonce)
}

/// Decrypts a payload under the key.
pub fn decrypt_payload(ciphertext_b64: &str, key_b64: &str) -> (data: Option<String>)
    ensures
        decrypts_to(ciphertext_b64@, key_b64@, text_view(data)),
        key_shaped(key_b64@),
        base64_bytes(ciphertext_b64@) matches Some(bytes) && bytes.len() < NONCE_LEN + TAG_LEN
            ==> data is None,
{
    let key = match base64_decode(key_b64) {
        Some(key) => key,
        None => return None,
    };
    let bytes = match base64_decode(ciphertext_b64) {
        Some(bytes) => bytes,
        None => return None,
    };
    open_bytes(key.as_slice(), bytes.as_slice())
}

/// Only what encryption can produce is decrypted: a payload that opens is the one that encryption
/// gives for the text under the key, with the nonce that the payload begins with.
pub proof fn law_only_sealings_open(text: Seq<char>, key_b64: Seq<char>, data: Seq<char>)
    requires
        decrypts_to(text, key_b64, Some(data)),
    ensures
        can_seal(data, key_b64),
        text == sealed_payload(
            data,
            key_b64,
            base64_bytes(text)->0.take(NONCE_LEN as int),
        ),
        is_sealing(text, data, key_b64),
        base64_bytes(text)->0.len() == payload_len(data),
{
    assert(text == sealed_payload(data, key_b64, base64_bytes(text)->0.take(NONCE_LEN as int)));
}

/// A payload with another tag is refused: where the bytes of a payload are changed in their last
/// [`TAG_LEN`] only, decryption gives nothing.
pub proof fn law_changed_tag_is_refused(
    data: Seq<char>,
    key_b64: Seq<char>,
    nonce: Seq<u8>,
    payload: Seq<char>,
    changed: Seq<char>,
    result: Option<Seq<char>>,
)
    requires
        can_seal(data, key_b64),
        nonce.len() == NONCE_LEN,
        payload == sealed_payload(data, key_b64, nonce),
        base64_bytes(payload) == Some(sealed_bytes(data, key_b64, nonce)),
        payload_sized(payload, data),
        base64_bytes(changed) is Some,
        base64_bytes(changed)->0.len() == payload_len(data),
        base64_bytes(changed)->0.take(payload_len(data) - TAG_LEN) == base64_bytes(
            payload,
        )->0.take(payload_len(data) - TAG_LEN),
        base64_bytes(changed) != base64_bytes(payload),
        decrypts_to(changed, key_b64, result),
    ensures
        result is None,
{
    if let Some(t) = result {
        let key = cipher_key(key_b64)->0;
        let plain = encode_utf8(data);
        let other = encode_utf8(t);
        let len = plain.len() as int;
        let before = base64_bytes(payload)->0;
        let after = base64_bytes(changed)->0;
        let n = NONCE_LEN as int;
        assert(before.take(n) =~= nonce);
        assert(after.take(n) =~= before.take(payload_len(data) - TAG_LEN).take(n));
        assert(after.take(n) =~= nonce);
        assert(sealed(key, nonce, other) =~= after.skip(n));
        assert(sealed(key, nonce, plain) =~= before.skip(n));
        assert(sealed(key, nonce, other).take(len) =~= after.take(
            payload_len(data) - TAG_LEN,
        ).skip(n));
        assert(sealed(key, nonce, plain).take(len) =~= before.take(
            payload_len(data) - TAG_LEN,
        ).skip(n));
        assert(plain == other);
        assert(after =~= before);
    }
}

// ---------------------------------------------------------------------------------------------
// Texts on the wire
// ---------------------------------------------------------------------------------------------

/// The shared secret as a sequence of characters.
pub open spec fn secret_view(secret: Option<&str>) -> Option<Seq<char>> {
    match secret {
        Some(key) => Some(key@),
        None => None,
    }
}

/// Whether the secret, if there is one that can be used, has the size and the padding of a key.
pub open spec fn secret_shaped(secret: Option<Seq<char>>) -> bool {
    secret matches Some(key) ==> key_shaped(key)
}

/// Whether a text is short enough to go out under the secret: it must be short enough for one nonce
/// where there is a usable key, and can be of any length where there is none.
pub open spec fn sendable(text: Seq<char>, secret: Option<Seq<char>>) -> bool {
    secret matches Some(key) && cipher_key(key) is Some ==> fits(text)
}

/// Whether `wire` is what goes out for `text`: a payload where there is a secret under which the
/// text can be encrypted, else the text itself.
pub open spec fn carries(wire: Seq<char>, text: Seq<char>, secret: Option<Seq<char>>) -> bool {
    match secret {
        Some(key) => if can_seal(text, key) {
            is_sealing(wire, text, key) && opened_payload(wire, key) == Some(text)
        } else {
            wire == text
        },
        None => wire == text,
    }
}

/// What comes in for `wire`: the message that it carries where there is a secret under which it
/// can be decrypted, else `wire` itself.
pub open spec fn received(wire: Seq<char>, secret: Option<Seq<char>>) -> Seq<char> {
    match secret {
        Some(key) => match opened_payload(wire, key) {
            Some(text) => text,
            None => wire,
        },
        None => wire,
    }
}

/// Encrypts an outgoing text where there is a secret to do so with. A text that cannot be encrypted
/// goes out as it is.
pub fn protect(text: String, secret: Option<&str>) -> (wire: String)
    ensures
        carries(wire@, text@, secret_view(secret)),
        secret_shaped(secret_view(secret)),
{
    match secret {
        Some(key) => match encrypt_payload(text.as_str(), key) {
            Some(payload) => payload,
            None => text,
        },
        None => text,
    }
}

/// Decrypts an incoming text where there is a secret to do so with. A text that cannot be decrypted
/// is taken as it is.
pub fn unprotect(wire: String, secret: Option<&str>) -> (text: String)
    ensures
        text@ == received(wire@, secret_view(secret)),
        secret_shaped(secret_view(secret)),
{
    match secret {
        Some(key) => match decrypt_payload(wire.as_str(), key) {
            Some(text) => text,
            None => wire,
        },
        None => wire,
    }
}

/// What one side sends, the other receives: whatever goes out for a text comes in as that text
/// where both sides have the same secret, be it a usable key, an unusable one or none at all. (Under
/// a usable key, a text that is too long for one nonce goes out as it is, and could itself be a
/// payload.)
pub proof fn law_sent_is_received(text: Seq<char>, secret: Option<Seq<char>>, wire: Seq<char>)
    requires
        sendable(text, secret),
        carries(wire, text, secret),
    ensures
        received(wire, secret) == text,
{
}

/// Without a usable key nothing is encrypted and nothing decrypted: texts pass as they are.
pub proof fn law_unusable_key_is_transparent(
    text: Seq<char>,
    secret: Option<Seq<char>>,
    wire: Seq<char>,
)
    requires
        secret matches Some(key) ==> cipher_key(key) is None,
    ensures
        carries(wire, text, secret) <==> wire == text,
        received(wire, secret) == wire,
{
}

// ---------------------------------------------------------------------------------------------
// What calls give
// ---------------------------------------------------------------------------------------------

/// A payload is the base64 text of a nonce and of what the cipher makes of the message with it.
pub proof fn lemma_payload_has_a_nonce(text: Seq<char>, data: Seq<char>, key_b64: Seq<char>)
    requires
        can_seal(data, key_b64),
        is_sealing(text, data, key_b64),
    ensures
        exists|nonce: Seq<u8>|
            {
                &&& nonce.len() == 12
                &&& text == base64_text(
                    nonce + #[trigger] sealed(base64_bytes(key_b64)->0, nonce, encode_utf8(data)),
                )
                &&& base64_bytes(text) == Some(
                    nonce + sealed(base64_bytes(key_b64)->0, nonce, encode_utf8(data)),
                )
            },
{
    let nonce = choose|nonce: Seq<u8>|
        {
            &&& nonce.len() == NONCE_LEN
            &&& text == #[trigger] sealed_payload(data, key_b64, nonce)
            &&& base64_bytes(text) == Some(sealed_bytes(data, key_b64, nonce))
        };
    assert(text == base64_text(
        nonce + sealed(base64_bytes(key_b64)->0, nonce, encode_utf8(data)),
    ));
}

/// Encryption under a given nonce succeeds exactly for the base64 text of 32 bytes and a message of
/// at most 274,877,906,816 bytes, and gives the base64 text of the nonce and of what the cipher makes
/// of the message.
pub proof fn law_sealing_is_exact(
    data: &str,
    key_b64: &str,
    nonce: &[u8; 12],
    payload: Option<String>,
)
    requires
        call_ensures(seal_payload, (data, key_b64, nonce), payload),
    ensures
        payload is Some <==> base64_bytes(key_b64@) is Some && base64_bytes(key_b64@)->0.len() == 32
            && encode_utf8(data@).len() <= 274_877_906_816,
        payload matches Some(text) ==> {
            let bytes = nonce@ + sealed(base64_bytes(key_b64@)->0, nonce@, encode_utf8(data@));
            &&& text@ == base64_text(bytes)
            &&& base64_bytes(text@) == Some(bytes)
        },
{
}

/// Every message of at most 274,877,906,816 bytes is encrypted under the base64 text of 32 bytes: to
/// the base64 text of some nonce of 12 bytes and of what the cipher makes of the message with it,
/// which is 28 bytes longer than the message. Nothing else is encrypted.
pub proof fn law_every_text_is_encrypted(data: &str, key_b64: &str, payload: Option<String>)
    requires
        call_ensures(encrypt_payload, (data, key_b64), payload),
    ensures
        payload is Some <==> base64_bytes(key_b64@) is Some && base64_bytes(key_b64@)->0.len() == 32
            && encode_utf8(data@).len() <= 274_877_906_816,
        payload matches Some(text) ==> {
            let key = base64_bytes(key_b64@)->0;
            let plain = encode_utf8(data@);
            &&& exists|nonce: Seq<u8>|
                {
                    &&& nonce.len() == 12
                    &&& text@ == base64_text(nonce + #[trigger] sealed(key, nonce, plain))
                    &&& base64_bytes(text@) == Some(nonce + sealed(key, nonce, plain))
                }
            &&& base64_bytes(text@)->0.len() == plain.len() + 28
            &&& text@.len() == 4 * ((plain.len() + 30) / 3)
        },
{
    if let Some(text) = payload {
        lemma_payload_has_a_nonce(text@, data@, key_b64@);
    }
}

/// Decryption undoes encryption, for every message and every key: what one call encrypts, another
/// one with the same key decrypts to the very same message.
pub proof fn law_decryption_undoes_encryption(
    data: &str,
    key_b64: &str,
    payload: String,
    ciphertext_b64: &str,
    result: Option<String>,
)
    requires
        call_ensures(encrypt_payload, (data, key_b64), Some(payload)),
        ciphertext_b64@ == payload@,
        call_ensures(decrypt_payload, (ciphertext_b64, key_b64), result),
    ensures
        result matches Some(text) && text@ == data@,
{
}

/// What is decrypted is what the cipher opens: for the base64 text of 32 bytes as the key, and of a
/// nonce of 12 bytes and a ciphertext as the payload, decryption gives the text whose UTF-8 bytes the
/// cipher opens the ciphertext to.
pub proof fn law_what_opens_is_decrypted(
    ciphertext_b64: &str,
    key_b64: &str,
    key: Seq<u8>,
    nonce: Seq<u8>,
    cipher: Seq<u8>,
    data: Seq<char>,
    result: Option<String>,
)
    requires
        call_ensures(decrypt_payload, (ciphertext_b64, key_b64), result),
        base64_bytes(key_b64@) == Some(key),
        key.len() == 32,
        base64_bytes(ciphertext_b64@) == Some(nonce + cipher),
        nonce.len() == 12,
        16 <= cipher.len() <= 274_877_906_832,
        opened(key, nonce, cipher) == Some(encode_utf8(data)),
    ensures
        result matches Some(text) && text@ == data,
{
    assert((nonce + cipher).take(12) =~= nonce);
    assert((nonce + cipher).skip(12) =~= cipher);
    encode_utf8_valid_utf8(data);
    encode_utf8_decode_utf8(data);
}

/// Nothing else is decrypted: the key is the base64 text of 32 bytes, the payload is the base64 text
/// of a nonce of 12 bytes and of what the cipher makes of the decrypted text with it, and the cipher
/// opens that to the text.
pub proof fn law_only_what_opens_is_decrypted(
    ciphertext_b64: &str,
    key_b64: &str,
    text: String,
)
    requires
        call_ensures(decrypt_payload, (ciphertext_b64, key_b64), Some(text)),
    ensures
        base64_bytes(key_b64@) is Some,
        base64_bytes(key_b64@)->0.len() == 32,
        ({
            let key = base64_bytes(key_b64@)->0;
            let bytes = base64_bytes(ciphertext_b64@)->0;
            &&& base64_bytes(ciphertext_b64@) is Some
            &&& bytes.len() == encode_utf8(text@).len() + 28
            &&& bytes == bytes.take(12) + sealed(key, bytes.take(12), encode_utf8(text@))
            &&& opened(key, bytes.take(12), bytes.skip(12)) == Some(encode_utf8(text@))
            &&& ciphertext_b64@ == base64_text(bytes)
        }),
{
    let bytes = base64_bytes(ciphertext_b64@)->0;
    let plain = opened(base64_bytes(key_b64@)->0, bytes.take(12), bytes.skip(12))->0;
    decode_utf8_encode_utf8(plain);
}

/// A key text of other than 44 characters encrypts and decrypts nothing.
pub proof fn law_keys_have_44_characters(
    data: &str,
    key_b64: &str,
    payload: Option<String>,
    result: Option<String>,
)
    requires
        key_b64@.len() != 44,
        call_ensures(encrypt_payload, (data, key_b64), payload),
        call_ensures(decrypt_payload, (data, key_b64), result),
    ensures
        payload is None,
        result is None,
{
}

/// A payload whose tag was changed is refused: where one call encrypts, and the bytes of what another
/// call is to decrypt differ from those of the payload in the last 16 only, nothing is decrypted.
pub proof fn law_forged_tag_is_refused(
    data: &str,
    key_b64: &str,
    payload: String,
    changed: &str,
    result: Option<String>,
)
    requires
        call_ensures(encrypt_payload, (data, key_b64), Some(payload)),
        call_ensures(decrypt_payload, (changed, key_b64), result),
        base64_bytes(changed@) is Some,
        base64_bytes(changed@) != base64_bytes(payload@),
        base64_bytes(changed@)->0.len() == base64_bytes(payload@)->0.len(),
        forall|i: int|
            0 <= i < base64_bytes(payload@)->0.len() - 16 ==> #[trigger] base64_bytes(
                changed@,
            )->0[i] == base64_bytes(payload@)->0[i],
    ensures
        result is None,
{
    let nonce = choose|nonce: Seq<u8>|
        {
            &&& nonce.len() == NONCE_LEN
            &&& payload@ == #[trigger] sealed_payload(data@, key_b64@, nonce)
            &&& base64_bytes(payload@) == Some(sealed_bytes(data@, key_b64@, nonce))
        };
    let body = payload_len(data@) - TAG_LEN;
    assert(base64_bytes(changed@)->0.take(body) =~= base64_bytes(payload@)->0.take(body));
    law_changed_tag_is_refused(data@, key_b64@, nonce, payload@, changed@, text_view(result));
}

/// Bytes that are sealed are opened by the same key, and by no key of other than 32 bytes.
pub proof fn law_opening_undoes_sealing(
    key: &[u8],
    nonce: &[u8; 12],
    plain: &[u8],
    text: Seq<char>,
    sealing: Option<Vec<u8>>,
    bytes: &[u8],
    result: Option<String>,
)
    requires
        plain@ == encode_utf8(text),
        plain@.len() <= 274_877_906_816,
        call_ensures(seal_bytes, (key, nonce, plain), sealing),
        sealing matches Some(b) ==> bytes@ == b@,
        call_ensures(open_bytes, (key, bytes), result),
    ensures
        sealing is Some <==> key@.len() == 32,
        sealing is Some ==> bytes@ == nonce@ + sealed(key@, nonce@, encode_utf8(text)),
        sealing is Some ==> (result matches Some(t) && t@ == text),
        key@.len() != 32 ==> result is None,
{
    if sealing is Some {
        assert(bytes@.take(12) =~= nonce@);
        encode_utf8_valid_utf8(text);
        encode_utf8_decode_utf8(text);
    }
}

/// Bytes are opened exactly to the text whose UTF-8 bytes the cipher opens them to, with a key of 32
/// bytes and the first 12 bytes as the nonce; nothing else is opened.
pub proof fn law_opening_is_exact(
    key: &[u8],
    bytes: &[u8],
    text: Seq<char>,
    result: Option<String>,
)
    requires
        call_ensures(open_bytes, (key, bytes), result),
    ensures
        key@.len() == 32 && 28 <= bytes@.len() <= 274_877_906_844 && opened(
            key@,
            bytes@.take(12),
            bytes@.skip(12),
        ) == Some(encode_utf8(text)) ==> (result matches Some(t) && t@ == text),
        result matches Some(t) ==> key@.len() == 32 && bytes@.len() >= 28 && opened(
            key@,
            bytes@.take(12),
            bytes@.skip(12),
        ) == Some(encode_utf8(t@)),
{
    encode_utf8_valid_utf8(text);
    encode_utf8_decode_utf8(text);
    if result is Some {
        decode_utf8_encode_utf8(opened(key@, bytes@.take(12), bytes@.skip(12))->0);
    }
}

/// What goes out for a text: the text itself where there is no secret, where the secret is not the
/// base64 text of 32 bytes and where the text has more than 274,877,906,816 bytes; else the base64
/// text of some nonce of 12 bytes and of what the cipher makes of the text with it.
pub proof fn law_what_goes_out(text: String, secret: Option<&str>, wire: String)
    requires
        call_ensures(protect, (text, secret), wire),
    ensures
        secret is None ==> wire@ == text@,
        secret matches Some(key) ==> ({
            let usable = base64_bytes(key@) is Some && base64_bytes(key@)->0.len() == 32;
            let plain = encode_utf8(text@);
            if usable && plain.len() <= 274_877_906_816 {
                exists|nonce: Seq<u8>|
                    {
                        &&& nonce.len() == 12
                        &&& wire@ == base64_text(
                            nonce + #[trigger] sealed(base64_bytes(key@)->0, nonce, plain),
                        )
                    }
            } else {
                wire@ == text@
            }
        }),
{
    if let Some(key) = secret {
        if can_seal(text@, key@) {
            lemma_payload_has_a_nonce(wire@, text@, key@);
        }
    }
}

/// What comes in for a text on the wire: what decryption under the secret gives, and the text itself
/// where there is no secret or where decryption gives nothing.
pub proof fn law_what_comes_in(
    wire: String,
    secret: Option<&str>,
    text: String,
    payload: &str,
    decrypted: Option<String>,
)
    requires
        call_ensures(unprotect, (wire, secret), text),
        payload@ == wire@,
        secret matches Some(key) ==> call_ensures(decrypt_payload, (payload, key), decrypted),
    ensures
        secret is None ==> text@ == wire@,
        secret is Some && decrypted is None ==> text@ == wire@,
        secret is Some ==> (decrypted matches Some(d) ==> text@ == d@),
{
}

/// Whatever one side sends, the other receives, if both have the same secret or both have none: the
/// very same text comes in that went out. Under the base64 text of 32 bytes the text may have at most
/// 274,877,906,816 bytes, else it may have any length.
pub proof fn law_sent_text_comes_in(
    text: String,
    secret: Option<&str>,
    wire: String,
    arrived: String,
    back: String,
)
    requires
        call_ensures(protect, (text, secret), wire),
        arrived@ == wire@,
        call_ensures(unprotect, (arrived, secret), back),
        secret matches Some(key) ==> base64_bytes(key@) is None || base64_bytes(key@)->0.len() != 32
            || encode_utf8(text@).len() <= 274_877_906_816,
    ensures
        back@ == text@,
{
}

} // verus!
