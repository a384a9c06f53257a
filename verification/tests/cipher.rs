use rust_crypto::cipher::{decrypt, encrypt, KEY_SIZE, MAX_PLAINTEXT_LEN, NONCE_SIZE, TAG_SIZE};
use rust_crypto::error::CryptoError;

fn from_hex(text: &str) -> Vec<u8> {
    (0..text.len()).step_by(2).map(|i| u8::from_str_radix(&text[i..i + 2], 16).unwrap()).collect()
}

#[test]
fn sizes_are_those_of_aes_256_gcm() {
    assert_eq!(KEY_SIZE, 32);
    assert_eq!(NONCE_SIZE, 12);
    assert_eq!(TAG_SIZE, 16);
    assert_eq!(MAX_PLAINTEXT_LEN, 1u64 << 36);
}

#[test]
fn encrypt_matches_the_published_vector_for_an_empty_plaintext() {
    let key = [0u8; 32];
    let nonce = [0u8; 12];
    assert_eq!(encrypt(&key, &nonce, &[]), Ok(from_hex("530f8afbc74536b9a963b4f1c4cb738b")));
}

#[test]
fn encrypt_matches_the_published_vector_for_one_block() {
    let key = [0u8; 32];
    let nonce = [0u8; 12];
    let sealed = encrypt(&key, &nonce, &[0u8; 16]).unwrap();
    assert_eq!(
        sealed,
        from_hex("cea7403d4d606b6e074ec5d3baf39d18d0d1c8a799996bf0265b98b5d48ab919")
    );
    assert_eq!(decrypt(&key, &nonce, &sealed), Ok(vec![0u8; 16]));
}

#[test]
fn decrypt_inverts_encrypt() {
    let key = [0x11u8; 32];
    let nonce = [0x22u8; 12];
    for len in [0usize, 1, 15, 16, 17, 1000] {
        let plaintext: Vec<u8> = (0..len).map(|i| (i % 251) as u8).collect();
        let sealed = encrypt(&key, &nonce, &plaintext).unwrap();
        assert_eq!(sealed.len(), len + TAG_SIZE);
        if len > 0 {
            assert_ne!(&sealed[..len], &plaintext[..]);
        }
        assert_eq!(decrypt(&key, &nonce, &sealed), Ok(plaintext));
    }
}

#[test]
fn a_key_of_the_wrong_length_is_a_cipher_init_error() {
    let nonce = [0u8; 12];
    for len in [0usize, 16, 31, 33, 64] {
        let key = vec![0u8; len];
        assert_eq!(encrypt(&key, &nonce, b"x"), Err(CryptoError::CipherInit));
        assert_eq!(decrypt(&key, &nonce, &[0u8; 17]), Err(CryptoError::CipherInit));
    }
}

#[test]
fn a_nonce_of_the_wrong_length_is_refused() {
    let key = [0u8; 32];
    for len in [0usize, 11, 13, 16] {
        let nonce = vec![0u8; len];
        assert_eq!(encrypt(&key, &nonce, b"x"), Err(CryptoError::Encryption));
        assert_eq!(decrypt(&key, &nonce, &[0u8; 17]), Err(CryptoError::Decryption));
    }
}

#[test]
fn decrypt_fails_in_one_way_only() {
    let key = [3u8; 32];
    let nonce = [4u8; 12];
    let sealed = encrypt(&key, &nonce, b"attack at dawn").unwrap();
    let mut other_key = key;
    other_key[0] ^= 1;
    let mut other_nonce = nonce;
    other_nonce[11] ^= 0x80;
    let mut changed = sealed.clone();
    changed[0] ^= 1;
    let mut changed_tag = sealed.clone();
    let last = changed_tag.len() - 1;
    changed_tag[last] ^= 1;
    assert_eq!(decrypt(&other_key, &nonce, &sealed), Err(CryptoError::Decryption));
    assert_eq!(decrypt(&key, &other_nonce, &sealed), Err(CryptoError::Decryption));
    assert_eq!(decrypt(&key, &nonce, &changed), Err(CryptoError::Decryption));
    assert_eq!(decrypt(&key, &nonce, &changed_tag), Err(CryptoError::Decryption));
    assert_eq!(decrypt(&key, &nonce, &sealed[..sealed.len() - 1]), Err(CryptoError::Decryption));
    assert_eq!(decrypt(&key, &nonce, &[]), Err(CryptoError::Decryption));
}

#[test]
fn every_error_has_its_message() {
    let all = [
        CryptoError::KeyDerivation,
        CryptoError::CipherInit,
        CryptoError::Encryption,
        CryptoError::Decryption,
        CryptoError::MetadataParse,
        CryptoError::UnsupportedVersion,
    ];
    for (i, a) in all.iter().enumerate() {
        assert!(!a.message().is_empty());
        for b in &all[i + 1..] {
            assert_ne!(a.message(), b.message());
        }
    }
    assert_eq!(
        CryptoError::Decryption.message(),
        "Decryption failed. Invalid password or corrupted data."
    );
}
