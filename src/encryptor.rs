use vstd::prelude::*;
use sequoia_openpgp::Cert;

use crate::envelope::{encrypt_file, seal_error, seal_result, CodecError, SealedFile, NONCE_LEN};
use crate::key::EncryptionKey;
use crate::naming::{stem_of, PGP_EXTENSION, VAULT_EXTENSION};
use crate::pgp::{encrypt_file_with_pgp, PgpError};

verus! {

/// The envelope scheme chosen for a run, with its key material.
pub enum Encryptor {
    /// The AEAD envelope under a 32-byte key.
    Symmetric(EncryptionKey),
    /// The OpenPGP envelope for a recipient certificate.
    PublicKey(Cert),
}

/// Why a file could not be sealed under either scheme.
#[derive(Clone, Copy, Debug, PartialEq, Eq)]
pub enum SealError {
    Codec(CodecError),
    Pgp(PgpError),
}

impl Encryptor {
    /// Seals the contents of the file `file_name` into an artifact under the chosen scheme.
    pub fn encrypt(&self, file_name: &str, contents: &[u8]) -> (r: Result<SealedFile, SealError>)
        ensures
            self matches Encryptor::Symmetric(key) ==> {
                &&& seal_error(file_name@, contents@) matches Some(e) ==> r == Err::<SealedFile, SealError>(SealError::Codec(e))
                &&& seal_error(file_name@, contents@) is None ==> r is Ok
                &&& r matches Ok(f) ==> f.artifact_name@ == stem_of(file_name@) + "."@ + VAULT_EXTENSION@
                &&& r matches Ok(f) ==> f.bytes@.len() >= NONCE_LEN && seal_result(key@, f.bytes@.subrange(0, 12), file_name@, contents@)
                    == Ok::<Seq<u8>, CodecError>(f.bytes@)
            },
            self is PublicKey ==> (r matches Ok(f) ==> f.artifact_name@ == file_name@ + "."@ + PGP_EXTENSION@),
            self is PublicKey ==> (r matches Err(e) ==> e is Pgp),
    {
        match self {
            Encryptor::Symmetric(key) => match encrypt_file(file_name, contents, key) {
                Ok(f) => Ok(f),
                Err(e) => Err(SealError::Codec(e)),
            },
            Encryptor::PublicKey(cert) => match encrypt_file_with_pgp(file_name, contents, cert) {
                Ok(f) => Ok(f),
                Err(e) => Err(SealError::Pgp(e)),
            },
        }
    }
}

} // verus!
