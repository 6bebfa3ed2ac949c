use catpls::cat::{Cat, DEFAULT_CONTENT_TYPE};
use catpls::content::{
    kv_bytes, kv_str, new_attachment, new_remote_attachment, remote_attachment_from, Envelope,
    CONTENT_DIGEST, FALLBACK, SCHEME,
};
use catpls::error::ContentError;
use catpls::hexstr::to_prefixed_hex;
use catpls::kdf;
use catpls::nonce::{nonce_bytes, CounterNonceSequence};
use catpls::random::{new_salt, new_secret};
use catpls::seal::{encrypt, seal, seal_next, ASSOCIATED_DATA, TAG_LEN};

fn param<'a>(e: &'a Envelope, key: &str) -> Option<&'a str> {
    e.parameters.iter().find(|(k, _)| k == key).map(|(_, v)| v.as_str())
}

fn open(key: &[u8; 32], nonce: [u8; 12], sealed: &[u8]) -> Result<Vec<u8>, ring::error::Unspecified> {
    let key = ring::aead::LessSafeKey::new(ring::aead::UnboundKey::new(&ring::aead::AES_256_GCM, key)?);
    let mut buf = sealed.to_vec();
    let n = key
        .open_in_place(
            ring::aead::Nonce::assume_unique_for_key(nonce),
            ring::aead::Aad::from(ASSOCIATED_DATA.as_bytes()),
            &mut buf,
        )?
        .len();
    buf.truncate(n);
    Ok(buf)
}

#[test]
fn encrypt_message() {
    let mut message = "this should be secret".to_string().into_bytes();
    let preserved = message.clone();
    let secret = new_secret();
    let salt = new_salt();
    encrypt(&mut message, &secret, salt, 0).unwrap();
    println!("message: 0x{}, encrypted: 0x{}", hex::encode(&preserved), hex::encode(&message));
    assert_ne!(message, preserved);
}

#[test]
fn random_material_lengths() {
    assert_eq!(new_secret().len(), 32);
    assert_eq!(new_salt().len(), 16);
    assert_ne!(new_secret(), new_secret());
}

#[test]
fn nonce_is_zero_padded_big_endian_counter() {
    assert_eq!(nonce_bytes(0), [0u8; 12]);
    assert_eq!(nonce_bytes(0x0102_0304), [0, 0, 0, 0, 0, 0, 0, 0, 1, 2, 3, 4]);
    assert_eq!(nonce_bytes(u32::MAX), [0, 0, 0, 0, 0, 0, 0, 0, 255, 255, 255, 255]);
}

#[test]
fn nonce_sequence_advances_by_one() {
    let mut s = CounterNonceSequence::new(0);
    assert_eq!(s.next(), [0u8; 12]);
    assert_eq!(s.advance(), Ok([0u8; 12]));
    assert_eq!(s.counter(), 1);
    assert_eq!(s.advance(), Ok([0, 0, 0, 0, 0, 0, 0, 0, 0, 0, 0, 1]));
    assert_eq!(s.counter(), 2);
}

#[test]
fn nonce_sequence_exhausted_at_max() {
    let mut s = CounterNonceSequence::new(u32::MAX);
    assert_eq!(s.advance(), Err(ContentError::NonceExhausted));
    assert_eq!(s.counter(), u32::MAX);
}

#[test]
fn derive_is_deterministic() {
    let secret = [7u8; 32];
    let salt = [9u8; 16];
    let a = kdf::derive(&secret, &salt).unwrap();
    let b = kdf::derive(&secret, &salt).unwrap();
    assert_eq!(a, b);
    assert_eq!(a.len(), 32);
}

#[test]
fn derive_differs_for_distinct_salts() {
    let secret = [7u8; 32];
    let a = kdf::derive(&secret, &[0u8; 16]).unwrap();
    let b = kdf::derive(&secret, &[1u8; 16]).unwrap();
    assert_ne!(a, b);
}

#[test]
fn derive_rejects_wrong_secret_length() {
    assert_eq!(kdf::derive(&[1u8; 31], &[0u8; 16]), Err(ContentError::PreconditionError));
    assert_eq!(kdf::derive(&[1u8; 33], &[0u8; 16]), Err(ContentError::PreconditionError));
    assert_eq!(kdf::derive(&[], &[0u8; 16]), Err(ContentError::PreconditionError));
}

#[test]
fn derive_matches_hkdf_sha256() {
    let secret = [3u8; 32];
    let salt = [5u8; 16];
    let prk = ring::hkdf::Salt::new(ring::hkdf::HKDF_SHA256, &salt).extract(&secret);
    let mut expected = [0u8; 32];
    prk.expand(&[], ring::hkdf::HKDF_SHA256).unwrap().fill(&mut expected).unwrap();
    let key = kdf::derive(&secret, &salt).unwrap();
    assert_eq!(key, expected);
    assert_ne!(key, secret);
}

#[test]
fn seal_differs_under_distinct_nonces() {
    let key = [1u8; 32];
    let plaintext = b"same plaintext".to_vec();
    let mut a = plaintext.clone();
    let mut b = plaintext.clone();
    seal(&mut a, &key, nonce_bytes(0)).unwrap();
    seal(&mut b, &key, nonce_bytes(1)).unwrap();
    assert_ne!(a, b);
}

#[test]
fn encrypt_differs_under_counters_zero_and_one() {
    let secret = [2u8; 32];
    let salt = [4u8; 16];
    let mut a = b"cat".to_vec();
    let mut b = b"cat".to_vec();
    encrypt(&mut a, &secret, salt, 0).unwrap();
    encrypt(&mut b, &secret, salt, 1).unwrap();
    assert_ne!(a, b);
}

#[test]
fn encrypt_appends_tag() {
    for len in [0usize, 1, 15, 16, 17, 100] {
        let plaintext: Vec<u8> = (0..len).map(|i| i as u8).collect();
        let mut buf = plaintext.clone();
        encrypt(&mut buf, &new_secret(), new_salt(), 0).unwrap();
        assert_eq!(buf.len(), len + TAG_LEN);
        if len > 0 {
            assert_ne!(&buf[..len], &plaintext[..]);
        }
    }
}

#[test]
fn encrypt_then_open_recovers_plaintext() {
    let secret = [6u8; 32];
    let salt = [8u8; 16];
    let plaintext = b"a picture of a cat".to_vec();
    let mut buf = plaintext.clone();
    encrypt(&mut buf, &secret, salt, 0).unwrap();
    let key = kdf::derive(&secret, &salt).unwrap();
    assert_eq!(open(&key, nonce_bytes(0), &buf).unwrap(), plaintext);
    let mut tampered = buf.clone();
    tampered[0] ^= 1;
    assert!(open(&key, nonce_bytes(0), &tampered).is_err());
    assert!(open(&key, nonce_bytes(1), &buf).is_err());
}

#[test]
fn encrypt_refuses_short_secret_and_keeps_buffer() {
    let mut buf = b"cat".to_vec();
    assert_eq!(encrypt(&mut buf, &[0u8; 16], [0u8; 16], 0), Err(ContentError::PreconditionError));
    assert_eq!(buf, b"cat".to_vec());
}

#[test]
fn encrypt_refuses_exhausted_counter() {
    let mut buf = b"cat".to_vec();
    assert_eq!(encrypt(&mut buf, &[0u8; 32], [0u8; 16], u32::MAX), Err(ContentError::NonceExhausted));
    assert_eq!(buf, b"cat".to_vec());
}

#[test]
fn prefixed_hex_is_lowercase() {
    assert_eq!(to_prefixed_hex(&[0x01, 0xab, 0xff, 0x00]), "0x01abff00");
    assert_eq!(to_prefixed_hex(&[]), "0x");
}

#[test]
fn kv_pairs() {
    assert_eq!(kv_str("scheme", "https://"), ("scheme".to_string(), "https://".to_string()));
    assert_eq!(kv_bytes("salt", &[0xde, 0xad]), ("salt".to_string(), "0xdead".to_string()));
}

#[test]
fn attachment_envelope() {
    let b = vec![1u8, 2, 3, 255];
    let e = new_attachment(&b, "image/jpeg", "cat.jpg");
    assert_eq!(e.content_type.authority_id, "xmtp.org");
    assert_eq!(e.content_type.type_id, "attachment");
    assert_eq!(e.content_type.version_major, 1);
    assert_eq!(e.content_type.version_minor, 0);
    assert_eq!(e.parameters.len(), 2);
    assert_eq!(param(&e, "mimeType"), Some("image/jpeg"));
    assert_eq!(param(&e, "filename"), Some("cat.jpg"));
    assert_eq!(e.fallback.as_deref(), Some(FALLBACK));
    assert!(e.compression.is_none());
    assert_eq!(e.content, b);
}

#[test]
fn attachment_envelope_empty_content() {
    let e = new_attachment(&[], "", "");
    assert!(e.content.is_empty());
    assert_eq!(param(&e, "mimeType"), Some(""));
}

#[test]
fn remote_attachment_envelope() {
    let b = b"some picture bytes".to_vec();
    let e = new_remote_attachment(b.clone()).unwrap();
    assert_eq!(e.content_type.authority_id, "xmtp.org");
    assert_eq!(e.content_type.type_id, "remoteStaticContent");
    assert_eq!(e.content_type.version_major, 1);
    assert_eq!(e.content_type.version_minor, 0);
    assert_eq!(e.content.len(), b.len() + 16);
    assert_eq!(e.parameters.len(), 5);
    for (key, bytes) in [("secret", 32usize), ("salt", 16), ("nonce", 12)] {
        let v = param(&e, key).unwrap();
        assert!(v.starts_with("0x"));
        assert_eq!(v.len() - 2, 2 * bytes);
        assert!(v[2..].chars().all(|c| c.is_ascii_digit() || ('a'..='f').contains(&c)));
    }
    assert_eq!(param(&e, "nonce"), Some("0x000000000000000000000000"));
    assert_eq!(param(&e, "scheme"), Some(SCHEME));
    assert_eq!(param(&e, "contentDigest"), Some(CONTENT_DIGEST));
    assert_eq!(e.fallback.as_deref(), Some(FALLBACK));
    assert!(e.compression.is_none());
}

#[test]
fn remote_attachment_decrypts_with_its_parameters() {
    let b = b"another cat".to_vec();
    let e = new_remote_attachment(b.clone()).unwrap();
    let secret = hex::decode(&param(&e, "secret").unwrap()[2..]).unwrap();
    let salt: [u8; 16] = hex::decode(&param(&e, "salt").unwrap()[2..]).unwrap().try_into().unwrap();
    let nonce: [u8; 12] = hex::decode(&param(&e, "nonce").unwrap()[2..]).unwrap().try_into().unwrap();
    let key = kdf::derive(&secret, &salt).unwrap();
    assert_eq!(open(&key, nonce, &e.content).unwrap(), b);
}

#[test]
fn remote_attachment_from_given_material() {
    let secret = [0xabu8; 32];
    let salt = [0x01u8; 16];
    let e = remote_attachment_from(b"cat".to_vec(), &secret, salt).unwrap();
    assert_eq!(param(&e, "secret"), Some(format!("0x{}", "ab".repeat(32)).as_str()));
    assert_eq!(param(&e, "salt"), Some(format!("0x{}", "01".repeat(16)).as_str()));
    let mut expected = b"cat".to_vec();
    encrypt(&mut expected, &secret, salt, 0).unwrap();
    assert_eq!(e.content, expected);
}

#[test]
fn remote_attachment_from_short_secret() {
    let r = remote_attachment_from(b"cat".to_vec(), &[0u8; 31], [0u8; 16]);
    assert!(matches!(r, Err(ContentError::PreconditionError)));
}

#[test]
fn cat_content_type_defaults_to_jpeg() {
    let c = Cat::from_object(None, vec![1, 2]);
    assert_eq!(c.content_type, DEFAULT_CONTENT_TYPE);
    assert_eq!(c.content_type, "image/jpeg");
    assert_eq!(c.bytes, vec![1, 2]);
    let d = Cat::from_object(Some("image/png"), vec![]);
    assert_eq!(d.content_type, "image/png");
}

#[test]
fn seal_next_uses_each_nonce_once() {
    let key = [9u8; 32];
    let mut sequence = CounterNonceSequence::new(0);
    let mut a = b"cat".to_vec();
    let mut b = b"cat".to_vec();
    seal_next(&mut a, &key, &mut sequence).unwrap();
    seal_next(&mut b, &key, &mut sequence).unwrap();
    assert_eq!(sequence.counter(), 2);
    assert_ne!(a, b);
    let mut expected = b"cat".to_vec();
    seal(&mut expected, &key, nonce_bytes(1)).unwrap();
    assert_eq!(b, expected);
}

#[test]
fn seal_next_exhausted_changes_nothing() {
    let mut sequence = CounterNonceSequence::new(u32::MAX);
    let mut buf = b"cat".to_vec();
    assert_eq!(seal_next(&mut buf, &[0u8; 32], &mut sequence), Err(ContentError::NonceExhausted));
    assert_eq!(buf, b"cat".to_vec());
    assert_eq!(sequence.counter(), u32::MAX);
}
