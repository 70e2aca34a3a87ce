use aes_gcm::aead::OsRng;
use aes_gcm::{Aes256Gcm, KeyInit};
use vaultsync::envelope::{decrypt_file, encrypt_file, seal_envelope, CodecError};
use vaultsync::key::EncryptionKey;

fn random_key() -> EncryptionKey {
    let key = Aes256Gcm::generate_key(OsRng);
    EncryptionKey::from_bytes(key.as_slice()).expect("32-byte key")
}

fn round_trip(file_name: &str, contents: &[u8], artifact_name: &str) {
    let key = random_key();
    let sealed = encrypt_file(file_name, contents, &key).expect("encryption failed");
    assert_eq!(sealed.artifact_name, artifact_name);
    let (name, plaintext) = decrypt_file(&sealed.bytes, &key).expect("decryption failed");
    assert_eq!(name, file_name);
    assert_eq!(plaintext, contents);
}

#[test]
fn test_encrypt_and_decrypt() {
    round_trip("test.txt", b"vaultsync test data", "test.vault");
}

#[test]
fn test_encrypt_and_decrypt_empty_file() {
    round_trip("empty.txt", b"", "empty.vault");
}

#[test]
fn test_encrypt_and_decrypt_binary_file() {
    let binary_content = vec![0x00, 0xFF, 0xAB, 0xCD, 0x7F];
    round_trip("binary.bin", &binary_content, "binary.vault");
}

#[test]
fn test_encrypt_and_decrypt_unicode_filename() {
    round_trip("文件.txt", b"unicode test content", "文件.vault");
}

#[test]
fn artifact_layout_is_exact() {
    let key = EncryptionKey::from_bytes(&[7u8; 32]).unwrap();
    let nonce = [1u8, 2, 3, 4, 5, 6, 7, 8, 9, 10, 11, 12];
    let a = seal_envelope(&key, &nonce, "ab.txt", b"hello").unwrap();
    assert_eq!(&a[0..12], &nonce);
    assert_eq!(&a[12..14], &[0u8, 6]);
    assert_eq!(&a[14..20], b"ab.txt");
    assert_eq!(a.len(), 20 + 5 + 16);
    assert_ne!(&a[20..25], b"hello");
}

#[test]
fn name_length_is_big_endian() {
    let key = EncryptionKey::from_bytes(&[7u8; 32]).unwrap();
    let name = "n".repeat(300);
    let a = seal_envelope(&key, &[0u8; 12], &name, b"x").unwrap();
    assert_eq!(&a[12..14], &[1u8, 44]);
}

#[test]
fn flipping_any_bit_of_ciphertext_or_tag_is_rejected() {
    let key = random_key();
    let sealed = encrypt_file("f.txt", b"secret contents", &key).unwrap();
    let body_start = 14 + "f.txt".len();
    for i in body_start..sealed.bytes.len() {
        for bit in 0..8 {
            let mut altered = sealed.bytes.clone();
            altered[i] ^= 1 << bit;
            assert_eq!(decrypt_file(&altered, &key), Err(CodecError::TamperedOrWrongKey));
        }
    }
}

#[test]
fn wrong_key_is_rejected() {
    let sealed = encrypt_file("f.txt", b"secret", &random_key()).unwrap();
    assert_eq!(decrypt_file(&sealed.bytes, &random_key()), Err(CodecError::TamperedOrWrongKey));
}

#[test]
fn flipping_a_nonce_bit_is_rejected() {
    let key = random_key();
    let mut bytes = encrypt_file("f.txt", b"secret", &key).unwrap().bytes;
    bytes[0] ^= 0x80;
    assert_eq!(decrypt_file(&bytes, &key), Err(CodecError::TamperedOrWrongKey));
}

#[test]
fn each_encryption_draws_a_new_nonce() {
    let key = random_key();
    let a = encrypt_file("same.txt", b"same plaintext", &key).unwrap().bytes;
    let b = encrypt_file("same.txt", b"same plaintext", &key).unwrap().bytes;
    assert_ne!(&a[0..12], &b[0..12]);
    let body_start = 14 + "same.txt".len();
    assert_ne!(&a[body_start..], &b[body_start..]);
}

#[test]
fn overlong_file_name_is_refused() {
    let key = random_key();
    let name = "a".repeat(65536);
    assert!(matches!(encrypt_file(&name, b"data", &key), Err(CodecError::FilenameTooLong)));
    let multibyte = "é".repeat(32768);
    assert!(matches!(encrypt_file(&multibyte, b"data", &key), Err(CodecError::FilenameTooLong)));
}

#[test]
fn longest_file_name_is_kept_whole() {
    let key = random_key();
    let name = "a".repeat(65535);
    let sealed = encrypt_file(&name, b"data", &key).unwrap();
    assert_eq!(&sealed.bytes[12..14], &[0xFFu8, 0xFF]);
    let (back, plaintext) = decrypt_file(&sealed.bytes, &key).unwrap();
    assert_eq!(back, name);
    assert_eq!(plaintext, b"data");
}

#[test]
fn short_artifact_is_truncated() {
    let key = random_key();
    assert_eq!(decrypt_file(&[0u8; 13], &key), Err(CodecError::Truncated));
    assert_eq!(decrypt_file(&[], &key), Err(CodecError::Truncated));
}

#[test]
fn declared_name_longer_than_artifact_is_truncated() {
    let key = random_key();
    let mut a = vec![0u8; 12];
    a.extend_from_slice(&[0, 5]);
    a.extend_from_slice(b"abcd");
    assert_eq!(decrypt_file(&a, &key), Err(CodecError::Truncated));
}

#[test]
fn name_that_is_not_utf8_is_rejected() {
    let key = random_key();
    let mut a = vec![0u8; 12];
    a.extend_from_slice(&[0, 1, 0xFF]);
    a.extend_from_slice(&[0u8; 16]);
    assert_eq!(decrypt_file(&a, &key), Err(CodecError::InvalidFilename));
}

#[test]
fn missing_tag_is_rejected() {
    let key = random_key();
    let mut a = vec![0u8; 12];
    a.extend_from_slice(&[0, 1, b'x']);
    a.extend_from_slice(&[0u8; 3]);
    assert_eq!(decrypt_file(&a, &key), Err(CodecError::TamperedOrWrongKey));
}

#[test]
fn key_needs_exactly_32_bytes() {
    assert!(EncryptionKey::from_bytes(&[0u8; 31]).is_none());
    assert!(EncryptionKey::from_bytes(&[0u8; 33]).is_none());
    let k = EncryptionKey::from_bytes(&[9u8; 32]).unwrap();
    assert_eq!(k.as_array(), &[9u8; 32]);
}

#[test]
fn wiped_key_is_all_zero() {
    let mut k = EncryptionKey::from_bytes(&[9u8; 32]).unwrap();
    k.wipe();
    assert_eq!(k.as_array(), &[0u8; 32]);
}
