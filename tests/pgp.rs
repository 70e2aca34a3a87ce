use sequoia_openpgp::cert::CertBuilder;
use sequoia_openpgp::serialize::SerializeInto;
use vaultsync::encryptor::{Encryptor, SealError};
use vaultsync::key::EncryptionKey;
use vaultsync::pgp::{encrypt_file_with_pgp, load_public_key, PgpError};

#[test]
fn test_encrypt_file_with_pgp_creates_output() {
    let (cert, _) = CertBuilder::general_purpose(None, Some("recipient@example.org"))
        .generate()
        .unwrap();
    let armored = cert.armored().to_vec().unwrap();
    let cert = load_public_key(&armored).unwrap();
    let sealed =
        encrypt_file_with_pgp("sample.txt", b"Test PGP data\n", &cert).expect("Encryption failed");
    assert_eq!(sealed.artifact_name, "sample.txt.pgp");
    assert!(!sealed.bytes.is_empty());
}

#[test]
fn certificate_without_encryption_key_is_refused() {
    let (cert, _) = CertBuilder::new().add_userid("nobody@example.org").generate().unwrap();
    assert!(matches!(
        encrypt_file_with_pgp("a.txt", b"x", &cert),
        Err(PgpError::NoUsableKey)
    ));
}

#[test]
fn garbage_is_not_a_certificate() {
    assert!(matches!(load_public_key(b"not a certificate"), Err(PgpError::InvalidCertificate)));
}

#[test]
fn encryptor_picks_the_scheme() {
    let key = EncryptionKey::from_bytes(&[3u8; 32]).unwrap();
    let sym = Encryptor::Symmetric(key);
    assert_eq!(sym.encrypt("report.pdf", b"abc").unwrap().artifact_name, "report.vault");
    let long = "x".repeat(70000);
    assert!(matches!(sym.encrypt(&long, b"abc"), Err(SealError::Codec(_))));
    let (cert, _) = CertBuilder::general_purpose(None, Some("r@example.org")).generate().unwrap();
    let pk = Encryptor::PublicKey(cert);
    assert_eq!(pk.encrypt("report.pdf", b"abc").unwrap().artifact_name, "report.pdf.pgp");
}
