use rust_crypto::filename::{extension_of, get_file_extension};
use rust_crypto::password::{
    generate_secure_password, hash_password, password_char, PASSWORD_ALPHABET_LEN,
};

const ALPHABET: &str =
    "abcdefghijklmnopqrstuvwxyzABCDEFGHIJKLMNOPQRSTUVWXYZ0123456789!@#$%^&*()-_=+[]{}|;:,.<>?";

#[test]
fn hash_password_is_sha256_in_hex() {
    assert_eq!(
        hash_password("abc"),
        "ba7816bf8f01cfea414140de5dae2223b00361a396177a9cb410ff61f20015ad"
    );
    assert_eq!(
        hash_password(""),
        "e3b0c44298fc1c149afbf4c8996fb92427ae41e4649b934ca495991b7852b855"
    );
    assert_eq!(hash_password("pässwörd").len(), 64);
    assert_eq!(hash_password("abc"), hash_password("abc"));
    assert_ne!(hash_password("abc"), hash_password("abd"));
}

#[test]
fn generated_password_has_the_length_asked_for() {
    let password = generate_secure_password(32);
    assert_eq!(password.chars().count(), 32);
    assert!(password.chars().all(|c| ALPHABET.contains(c)));
}

#[test]
fn generated_password_of_every_length() {
    for length in [0u8, 1, 2, 85, 88, 255] {
        let password = generate_secure_password(length);
        assert_eq!(password.chars().count(), length as usize);
        assert!(password.chars().all(|c| ALPHABET.contains(c)));
    }
    assert_eq!(generate_secure_password(0), "");
}

#[test]
fn generated_passwords_differ() {
    assert_ne!(generate_secure_password(40), generate_secure_password(40));
}

#[test]
fn a_draw_selects_a_character_modulo_the_alphabet() {
    assert_eq!(PASSWORD_ALPHABET_LEN, ALPHABET.len());
    let alphabet: Vec<char> = ALPHABET.chars().collect();
    for draw in 0..300u32 {
        assert_eq!(password_char(draw), alphabet[draw as usize % alphabet.len()]);
    }
    assert_eq!(password_char(0), 'a');
    assert_eq!(password_char(87), '?');
    assert_eq!(password_char(88), 'a');
    assert_eq!(password_char(u32::MAX), alphabet[(u32::MAX % 88) as usize]);
}

#[test]
fn file_extension_scenario() {
    assert_eq!(get_file_extension("archive.tar.gz"), "gz");
    assert_eq!(get_file_extension("README"), "");
}

#[test]
fn file_extension_is_lower_case() {
    assert_eq!(get_file_extension("photo.JPG"), "jpg");
    assert_eq!(get_file_extension("Report.Final.PdF"), "pdf");
    assert_eq!(get_file_extension("straße.ÄÖ"), "äö");
}

#[test]
fn file_extension_edge_cases() {
    assert_eq!(get_file_extension(""), "");
    assert_eq!(get_file_extension("."), "");
    assert_eq!(get_file_extension("name."), "");
    assert_eq!(get_file_extension(".bashrc"), "bashrc");
    assert_eq!(get_file_extension("a.b/c"), "b/c");
    assert_eq!(get_file_extension("日本語.テキスト"), "テキスト");
}

#[test]
fn extension_is_found_as_written() {
    assert_eq!(extension_of("archive.tar.GZ"), Some("GZ"));
    assert_eq!(extension_of("name."), Some(""));
    assert_eq!(extension_of("README"), None);
    assert_eq!(extension_of(""), None);
    assert_eq!(extension_of("é.ü"), Some("ü"));
}
