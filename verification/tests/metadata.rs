use rust_crypto::encoding::{decode_base64, encode_base64, to_decimal, to_hex};
use rust_crypto::error::CryptoError;
use rust_crypto::metadata::{unpack, EncryptionMetadata, FORMAT_VERSION};

#[test]
fn base64_matches_the_standard_alphabet_with_padding() {
    assert_eq!(encode_base64(b""), "");
    assert_eq!(encode_base64(b"f"), "Zg==");
    assert_eq!(encode_base64(b"fo"), "Zm8=");
    assert_eq!(encode_base64(b"foo"), "Zm9v");
    assert_eq!(encode_base64(b"hello"), "aGVsbG8=");
    assert_eq!(encode_base64(&[0xfb, 0xff]), "+/8=");
    assert_eq!(decode_base64("aGVsbG8="), Some(b"hello".to_vec()));
    assert_eq!(decode_base64(""), Some(Vec::new()));
    assert_eq!(decode_base64("+/8="), Some(vec![0xfb, 0xff]));
}

#[test]
fn base64_refuses_malformed_text() {
    for text in ["a", "aGVsbG8", "aGVs bG8=", "-_8=", "aGVsbG8=\n", "!!!!", "Zg=", "Zh=="] {
        assert_eq!(decode_base64(text), None);
    }
}

#[test]
fn base64_round_trip() {
    for len in 0..40usize {
        let bytes: Vec<u8> = (0..len).map(|i| (i * 37 + 11) as u8).collect();
        assert_eq!(decode_base64(&encode_base64(&bytes)), Some(bytes));
    }
}

#[test]
fn hex_is_lower_case_and_two_digits_per_byte() {
    assert_eq!(to_hex(&[]), "");
    assert_eq!(to_hex(&[0]), "00");
    assert_eq!(to_hex(&[0x0a, 0xf0, 0x9c, 0xff, 0x10]), "0af09cff10");
}

#[test]
fn decimal_has_no_leading_zeros() {
    for v in 0..=255u8 {
        assert_eq!(to_decimal(v), format!("{}", v));
    }
}

#[test]
fn the_record_is_written_as_compact_json() {
    let metadata = EncryptionMetadata::new(&[0u8; 16], &[0u8; 12]);
    assert_eq!(metadata.salt(), "AAAAAAAAAAAAAAAAAAAAAA==");
    assert_eq!(metadata.nonce(), "AAAAAAAAAAAAAAAA");
    assert_eq!(metadata.version(), FORMAT_VERSION);
    assert_eq!(
        metadata.to_json(),
        "{\"salt\":\"AAAAAAAAAAAAAAAAAAAAAA==\",\"nonce\":\"AAAAAAAAAAAAAAAA\",\"version\":1}"
    );
}

#[test]
fn the_written_record_is_json_that_serde_reads() {
    let salt: Vec<u8> = (0..16).collect();
    let nonce: Vec<u8> = (100..112).collect();
    let text = EncryptionMetadata::new(&salt, &nonce).to_json();
    let value: serde_json::Value = serde_json::from_str(&text).unwrap();
    assert_eq!(value.as_object().unwrap().len(), 3);
    assert_eq!(value.get("salt").unwrap().as_str().unwrap(), encode_base64(&salt));
    assert_eq!(value.get("nonce").unwrap().as_str().unwrap(), encode_base64(&nonce));
    assert_eq!(value.get("version").unwrap().as_u64(), Some(1));
}

#[test]
fn strings_are_escaped_when_written() {
    let metadata = EncryptionMetadata::from_fields(
        Some("a\"b\\c\n".to_string()),
        Some("é".to_string()),
        Some(1),
    )
    .unwrap();
    let text = metadata.to_json();
    assert_eq!(text, "{\"salt\":\"a\\\"b\\\\c\\n\",\"nonce\":\"é\",\"version\":1}");
    let again = EncryptionMetadata::from_json(&text).unwrap();
    assert_eq!(again.salt(), "a\"b\\c\n");
    assert_eq!(again.nonce(), "é");
}

#[test]
fn the_record_is_read_from_json() {
    let text = " { \"version\" : 1, \"nonce\" : \"AAAAAAAAAAAAAAAA\", \"extra\" : [true],
        \"salt\" : \"AAECAwQFBgcICQoLDA0ODw==\" } ";
    let metadata = EncryptionMetadata::from_json(text).unwrap();
    assert_eq!(metadata.salt(), "AAECAwQFBgcICQoLDA0ODw==");
    assert_eq!(metadata.nonce(), "AAAAAAAAAAAAAAAA");
    assert_eq!(metadata.version(), 1);
    let params = metadata.decode().unwrap();
    assert_eq!(params.salt, (0..16).collect::<Vec<u8>>());
    assert_eq!(params.nonce, vec![0u8; 12]);
    assert_eq!(params.version, 1);
    let unpacked = unpack(text).unwrap();
    assert_eq!(unpacked.salt, params.salt);
    assert_eq!(unpacked.nonce, params.nonce);
    assert_eq!(unpacked.version, 1);
}

#[test]
fn write_then_read_gives_the_same_record() {
    let salt = [0xa5u8; 16];
    let nonce = [0x5au8; 12];
    let metadata = EncryptionMetadata::new(&salt, &nonce);
    let again = EncryptionMetadata::from_json(&metadata.to_json()).unwrap();
    assert_eq!(again.salt(), metadata.salt());
    assert_eq!(again.nonce(), metadata.nonce());
    assert_eq!(again.version(), metadata.version());
    let params = unpack(&metadata.to_json()).unwrap();
    assert_eq!(params.salt, salt.to_vec());
    assert_eq!(params.nonce, nonce.to_vec());
}

#[test]
fn version_two_is_refused_though_salt_and_nonce_are_well_formed() {
    let text = "{\"salt\":\"AAAAAAAAAAAAAAAAAAAAAA==\",\"nonce\":\"AAAAAAAAAAAAAAAA\",\"version\":2}";
    assert!(matches!(EncryptionMetadata::from_json(text), Err(CryptoError::UnsupportedVersion)));
    assert!(matches!(unpack(text), Err(CryptoError::UnsupportedVersion)));
    assert!(matches!(
        EncryptionMetadata::from_fields(
            Some("AAAAAAAAAAAAAAAAAAAAAA==".to_string()),
            Some("AAAAAAAAAAAAAAAA".to_string()),
            Some(2)
        ),
        Err(CryptoError::UnsupportedVersion)
    ));
}

#[test]
fn a_missing_member_is_a_parse_error_before_the_version_is_looked_at() {
    assert!(matches!(
        EncryptionMetadata::from_fields(None, Some("AAAA".to_string()), Some(2)),
        Err(CryptoError::MetadataParse)
    ));
    assert!(matches!(
        EncryptionMetadata::from_fields(Some("AAAA".to_string()), None, Some(1)),
        Err(CryptoError::MetadataParse)
    ));
    assert!(matches!(
        EncryptionMetadata::from_fields(Some("AAAA".to_string()), Some("AAAA".to_string()), None),
        Err(CryptoError::MetadataParse)
    ));
    assert!(matches!(
        EncryptionMetadata::from_json("{\"nonce\":\"AAAA\",\"version\":2}"),
        Err(CryptoError::MetadataParse)
    ));
}

#[test]
fn text_that_is_not_base64_is_a_parse_error_when_decoded() {
    let metadata =
        EncryptionMetadata::from_fields(Some("***".to_string()), Some("AAAA".to_string()), Some(1))
            .unwrap();
    assert!(matches!(metadata.decode(), Err(CryptoError::MetadataParse)));
    let metadata =
        EncryptionMetadata::from_fields(Some("AAAA".to_string()), Some("***".to_string()), Some(1))
            .unwrap();
    assert!(matches!(metadata.decode(), Err(CryptoError::MetadataParse)));
}

#[test]
fn a_copy_of_a_record_holds_the_same() {
    let metadata = EncryptionMetadata::new(&[1u8; 16], &[2u8; 12]);
    let copy = metadata.clone();
    assert_eq!(copy.salt(), metadata.salt());
    assert_eq!(copy.nonce(), metadata.nonce());
    assert_eq!(copy.version(), metadata.version());
    assert_eq!(copy.to_json(), metadata.to_json());
}
