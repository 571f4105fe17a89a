use agent_gateway::payload::{
    decrypt_payload, encrypt_payload, open_bytes, protect, seal_bytes, seal_payload, unprotect,
};
use base64::engine::general_purpose::STANDARD;
use base64::Engine;
use chacha20poly1305::aead::{Aead, KeyInit};
use chacha20poly1305::{ChaCha20Poly1305, Nonce};

/// The bytes 0x80 to 0x9f.
const KEY: &str = "gIGCg4SFhoeIiYqLjI2Oj5CRkpOUlZaXmJmam5ydnp8=";

/// 31 bytes.
const SHORT_KEY: &str = "gIGCg4SFhoeIiYqLjI2Oj5CRkpOUlZaXmJmam5ydng==";

const NONCE: [u8; 12] = [0, 1, 2, 3, 4, 5, 6, 7, 8, 9, 10, 11];

const HELLO: &str = "AAECAwQFBgcICQoLDdNXnBsTa1hbUMnZozKZs0O9C4cn";

#[test]
fn seals_to_a_known_payload() {
    assert_eq!(seal_payload("hello", KEY, &NONCE), Some(HELLO.to_string()));
    assert_eq!(
        seal_payload("", KEY, &NONCE),
        Some("AAECAwQFBgcICQoLU21EdyAhOAq+cJ2EFExl0g==".to_string())
    );
}

#[test]
fn opens_a_known_payload() {
    assert_eq!(decrypt_payload(HELLO, KEY), Some("hello".to_string()));
}

#[test]
fn decryption_undoes_encryption() {
    for text in ["", "hello", "caf\u{e9} \u{1f980}", "{\"type\":\"message\"}"] {
        let payload = encrypt_payload(text, KEY).unwrap();
        assert_ne!(payload, text);
        assert_eq!(decrypt_payload(&payload, KEY), Some(text.to_string()));
    }
}

#[test]
fn every_payload_has_its_own_nonce() {
    let first = encrypt_payload("hello", KEY).unwrap();
    let second = encrypt_payload("hello", KEY).unwrap();
    assert_ne!(first, second);
    let bytes = STANDARD.decode(&first).unwrap();
    assert_eq!(bytes.len(), 12 + 5 + 16);
    assert_ne!(bytes[..12], STANDARD.decode(&second).unwrap()[..12]);
}

#[test]
fn the_nonce_comes_first() {
    let bytes = STANDARD.decode(seal_payload("hello", KEY, &NONCE).unwrap()).unwrap();
    assert_eq!(bytes[..12], NONCE);
    let key = STANDARD.decode(KEY).unwrap();
    let cipher = ChaCha20Poly1305::new_from_slice(&key).unwrap();
    let plain = cipher.decrypt(Nonce::from_slice(&NONCE), &bytes[12..]).unwrap();
    assert_eq!(plain, b"hello");
}

#[test]
fn unusable_keys_encrypt_nothing() {
    assert_eq!(encrypt_payload("hello", "not base64!"), None);
    assert_eq!(encrypt_payload("hello", SHORT_KEY), None);
    assert_eq!(encrypt_payload("hello", ""), None);
    assert_eq!(seal_payload("hello", SHORT_KEY, &NONCE), None);
}

#[test]
fn unusable_payloads_decrypt_to_nothing() {
    assert_eq!(decrypt_payload(HELLO, "not base64!"), None);
    assert_eq!(decrypt_payload(HELLO, SHORT_KEY), None);
    assert_eq!(decrypt_payload("not base64!", KEY), None);
    // Eleven bytes: no whole nonce.
    assert_eq!(decrypt_payload(&STANDARD.encode([0u8; 11]), KEY), None);
    // A nonce and nothing else: no tag.
    assert_eq!(decrypt_payload(&STANDARD.encode([0u8; 12]), KEY), None);
    let mut bytes = STANDARD.decode(HELLO).unwrap();
    bytes[12] ^= 1;
    assert_eq!(decrypt_payload(&STANDARD.encode(bytes), KEY), None);
}

#[test]
fn what_is_not_utf8_decrypts_to_nothing() {
    let key = STANDARD.decode(KEY).unwrap();
    let cipher = ChaCha20Poly1305::new_from_slice(&key).unwrap();
    let sealed = cipher.encrypt(Nonce::from_slice(&NONCE), &[0xffu8, 0xfe][..]).unwrap();
    let mut bytes = NONCE.to_vec();
    bytes.extend_from_slice(&sealed);
    assert_eq!(decrypt_payload(&STANDARD.encode(bytes), KEY), None);
}

#[test]
fn what_is_sent_is_received() {
    for secret in [None, Some(KEY), Some(SHORT_KEY), Some("not base64!")] {
        let wire = protect("hello".to_string(), secret);
        assert_eq!(unprotect(wire, secret), "hello");
    }
}

#[test]
fn only_a_usable_key_changes_the_text() {
    assert_ne!(protect("hello".to_string(), Some(KEY)), "hello");
    assert_eq!(protect("hello".to_string(), Some(SHORT_KEY)), "hello");
    assert_eq!(protect("hello".to_string(), None), "hello");
    assert_eq!(unprotect(HELLO.to_string(), Some(KEY)), "hello");
    assert_eq!(unprotect(HELLO.to_string(), Some(SHORT_KEY)), HELLO);
    assert_eq!(unprotect("hello".to_string(), Some(KEY)), "hello");
    assert_eq!(unprotect(HELLO.to_string(), None), HELLO);
}

/// 32 zero bytes.
fn zero_key() -> String {
    "A".repeat(43) + "="
}

#[test]
fn payloads_are_as_long_as_they_should_be() {
    let payload = encrypt_payload("", &zero_key()).unwrap();
    assert_eq!(payload.len(), 40);
    assert!(payload.ends_with("=="));
    for n in 0..20 {
        let payload = encrypt_payload(&"x".repeat(n), KEY).unwrap();
        assert_eq!(STANDARD.decode(&payload).unwrap().len(), n + 28);
        assert_eq!(payload.len(), 4 * ((n + 30) / 3));
    }
}

#[test]
fn payloads_without_nonce_and_tag_are_refused() {
    let key = zero_key();
    for text in ["", "AAAAAAAAAAAAAAA=", "AAAAAAAAAAAAAAAA", "{}"] {
        assert_eq!(decrypt_payload(text, &key), None);
    }
    for n in 0..28 {
        assert_eq!(decrypt_payload(&STANDARD.encode(vec![0u8; n]), &key), None);
    }
}

#[test]
fn bytes_are_sealed_and_opened() {
    let key = STANDARD.decode(KEY).unwrap();
    let bytes = seal_bytes(&key, &NONCE, b"hello").unwrap();
    assert_eq!(bytes, STANDARD.decode(HELLO).unwrap());
    assert_eq!(open_bytes(&key, &bytes), Some("hello".to_string()));
    assert_eq!(open_bytes(&key, &bytes[..27]), None);
    assert_eq!(open_bytes(&key[..31], &bytes), None);
    assert_eq!(open_bytes(&key, &[]), None);
    assert_eq!(seal_bytes(&key[..31], &NONCE, b"hello"), None);
}

#[test]
fn a_changed_tag_is_refused() {
    let bytes = STANDARD.decode(HELLO).unwrap();
    for i in bytes.len() - 16..bytes.len() {
        let mut changed = bytes.clone();
        changed[i] ^= 0x10;
        assert_eq!(decrypt_payload(&STANDARD.encode(changed), KEY), None);
    }
}

#[test]
fn only_sealings_open() {
    let payload = encrypt_payload("hello", KEY).unwrap();
    let nonce: [u8; 12] = STANDARD.decode(&payload).unwrap()[..12].try_into().unwrap();
    let data = decrypt_payload(&payload, KEY).unwrap();
    assert_eq!(seal_payload(&data, KEY, &nonce), Some(payload));
}

#[test]
fn other_spellings_of_base64_are_refused() {
    let payload = seal_payload("", KEY, &NONCE).unwrap();
    assert!(payload.ends_with("0g=="));
    assert_eq!(decrypt_payload(&payload, KEY), Some(String::new()));
    assert_eq!(decrypt_payload(payload.trim_end_matches('='), KEY), None);
    assert_eq!(decrypt_payload(&payload.replace("0g==", "0h=="), KEY), None);
    assert_eq!(decrypt_payload(&(payload + "\n"), KEY), None);
}

#[test]
fn a_usable_key_has_44_characters() {
    assert_eq!(KEY.len(), 44);
    assert!(KEY.ends_with('=') && !KEY.ends_with("=="));
    for n in 0..80 {
        let key = STANDARD.encode(vec![7u8; n]);
        let usable = n == 32;
        assert_eq!(key.len() == 44 && key.ends_with('=') && !key.ends_with("=="), usable);
        assert_eq!(encrypt_payload("hello", &key).is_some(), usable);
        assert_eq!(decrypt_payload(HELLO, &key), None);
        assert_eq!(protect("hello".to_string(), Some(&key)) == "hello", !usable);
        assert_eq!(unprotect(HELLO.to_string(), Some(&key)), HELLO);
    }
    assert_eq!(encrypt_payload("hello", &KEY[..43]), None);
    assert_eq!(decrypt_payload(HELLO, &KEY[..43]), None);
}
