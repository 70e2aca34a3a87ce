use vstd::prelude::*;
use std::io::Write;
use sequoia_openpgp::parse::Parse;
use sequoia_openpgp::policy::StandardPolicy;
use sequoia_openpgp::serialize::stream::{Encryptor2, LiteralWriter, Message};
use sequoia_openpgp::Cert;

use crate::envelope::SealedFile;
use crate::naming::{pgp_artifact_name, PGP_EXTENSION};

verus! {

#[verifier::external_type_specification]
#[verifier::external_body]
pub struct ExCert(Cert);

/// Why a file could not be sealed for a certificate.
#[derive(Clone, Copy, Debug, PartialEq, Eq)]
pub enum PgpError {
    /// The bytes are not an OpenPGP certificate.
    InvalidCertificate,
    /// The certificate has no live, unrevoked key for transport encryption.
    NoUsableKey,
    /// The OpenPGP writer failed.
    EncryptionFailed,
}

/// Whether the bytes hold an OpenPGP certificate that sequoia's parser accepts.
pub uninterp spec fn certificate_parses(bytes: Seq<u8>) -> bool;

/// Relies on sequoia's `Cert::from_bytes`: the certificate that the bytes hold, if any; the
/// parse depends on the bytes alone.
#[verifier::external_body]
fn parse_certificate(bytes: &[u8]) -> (r: Option<Cert>)
    ensures
        r is Some <==> certificate_parses(bytes@),
{
    Cert::from_bytes(bytes).ok()
}

/// Relies on sequoia's key selection under `StandardPolicy` and its streaming `Encryptor2`:
/// the OpenPGP message that carries `plaintext` for the first live, unrevoked key of `cert`
/// that is flagged for transport encryption.
#[verifier::external_body]
fn seal_for_recipient(cert: &Cert, plaintext: &[u8]) -> (r: Result<Vec<u8>, PgpError>) {
    let policy = StandardPolicy::new();
    let key = cert.keys().with_policy(&policy, None).alive().revoked(false).for_transport_encryption().next();
    let Some(key) = key else { return Err(PgpError::NoUsableKey) };
    let mut out = Vec::new();
    let written = Encryptor2::for_recipients(Message::new(&mut out), vec![key])
        .build()
        .and_then(|m| LiteralWriter::new(m).build())
        .and_then(|mut w| w.write_all(plaintext).map_err(Into::into).and_then(|_| w.finalize()));
    written.map(|()| out).map_err(|_| PgpError::EncryptionFailed)
}

/// The certificate held in `bytes`, the contents of a public key file.
pub fn load_public_key(bytes: &[u8]) -> (r: Result<Cert, PgpError>)
    ensures
        r is Ok <==> certificate_parses(bytes@),
        r matches Err(e) ==> e == PgpError::InvalidCertificate,
{
    match parse_certificate(bytes) {
        Some(c) => Ok(c),
        None => Err(PgpError::InvalidCertificate),
    }
}

/// Seals the contents of the file `file_name` for `cert` into the artifact `<file_name>.pgp`.
pub fn encrypt_file_with_pgp(file_name: &str, contents: &[u8], cert: &Cert) -> (r: Result<SealedFile, PgpError>)
    ensures
        r matches Ok(f) ==> f.artifact_name@ == file_name@ + "."@ + PGP_EXTENSION@,
        r matches Err(e) ==> e == PgpError::NoUsableKey || e == PgpError::EncryptionFailed,
{
    match seal_for_recipient(cert, contents) {
        Ok(bytes) => Ok(SealedFile { artifact_name: pgp_artifact_name(file_name), bytes }),
        Err(PgpError::NoUsableKey) => Err(PgpError::NoUsableKey),
        Err(_) => Err(PgpError::EncryptionFailed),
    }
}

} // verus!
