use vstd::prelude::*;
use vstd::utf8::{decode_utf8, encode_utf8, valid_utf8};
use aes_gcm::aead::{Aead, AeadCore, OsRng};
use aes_gcm::{Aes256Gcm, Key, KeyInit, Nonce};

use crate::key::EncryptionKey;
use crate::naming::{stem_of, vault_artifact_name, VAULT_EXTENSION};
use vstd::slice::{slice_subrange, slice_to_vec};

verus! {

broadcast use vstd::utf8::encode_utf8_decode_utf8, vstd::utf8::decode_utf8_encode_utf8, vstd::utf8::encode_utf8_valid_utf8;

/// Length of the nonce that opens every artifact.
pub const NONCE_LEN: usize = 12;

/// Length of the header before the file name: the nonce and the two length bytes.
pub const HEADER_LEN: usize = 14;

/// Length of the authentication tag at the end of the ciphertext.
pub const TAG_LEN: usize = 16;

/// Largest file name, in UTF-8 bytes, that the two length bytes can record.
pub const MAX_NAME_LEN: usize = 65535;

/// Largest plaintext that AES-256-GCM accepts, in bytes.
pub const MAX_PLAINTEXT_LEN: u64 = 0x10_0000_0000;

/// Why a file could not be sealed into an artifact or opened from one.
#[derive(Clone, Copy, Debug, PartialEq, Eq)]
pub enum CodecError {
    /// The file name takes more than 65535 bytes in UTF-8.
    FilenameTooLong,
    /// The cipher refused the plaintext.
    EncryptionFailed,
    /// The artifact is shorter than its header, or than the file name that its header declares.
    Truncated,
    /// The recorded file name is not UTF-8.
    InvalidFilename,
    /// The authentication tag does not verify: the artifact was altered or the key is wrong.
    TamperedOrWrongKey,
}

/// AES-256-GCM under `key` and `nonce` applied to `plaintext`: the ciphertext with its tag.
pub uninterp spec fn aes256gcm_sealed(key: Seq<u8>, nonce: Seq<u8>, plaintext: Seq<u8>) -> Seq<u8>;

/// The two bytes, most significant first, of a number below 65536.
pub open spec fn be16(n: nat) -> Seq<u8> {
    seq![(n / 256) as u8, (n % 256) as u8]
}

/// The number that two bytes record, most significant first.
pub open spec fn from_be16(hi: u8, lo: u8) -> nat {
    hi as nat * 256 + lo as nat
}

/// The artifact layout: nonce, name length, name, ciphertext with tag.
pub open spec fn envelope_bytes(nonce: Seq<u8>, name: Seq<u8>, body: Seq<u8>) -> Seq<u8> {
    nonce + be16(name.len()) + name + body
}

/// The parts of an artifact: its nonce, its file name bytes and its ciphertext with tag;
/// `None` where the bytes are too short for the header or for the declared name.
pub open spec fn parse_envelope(a: Seq<u8>) -> Option<(Seq<u8>, Seq<u8>, Seq<u8>)> {
    if a.len() < HEADER_LEN {
        None
    } else {
        let n = from_be16(a[12], a[13]) as int;
        if HEADER_LEN + n > a.len() {
            None
        } else {
            Some((a.subrange(0, 12), a.subrange(14, 14 + n), a.subrange(14 + n, a.len() as int)))
        }
    }
}

/// The error that sealing `plaintext` under the name `name` meets, if any.
pub open spec fn seal_error(name: Seq<char>, plaintext: Seq<u8>) -> Option<CodecError> {
    if encode_utf8(name).len() > MAX_NAME_LEN {
        Some(CodecError::FilenameTooLong)
    } else if plaintext.len() > MAX_PLAINTEXT_LEN {
        Some(CodecError::EncryptionFailed)
    } else {
        None
    }
}

/// What sealing `plaintext` under `key` with `nonce` and the name `name` gives.
pub open spec fn seal_result(key: Seq<u8>, nonce: Seq<u8>, name: Seq<char>, plaintext: Seq<u8>) -> Result<Seq<u8>, CodecError> {
    match seal_error(name, plaintext) {
        Some(e) => Err(e),
        None => Ok(envelope_bytes(nonce, encode_utf8(name), aes256gcm_sealed(key, nonce, plaintext))),
    }
}

/// Whether the artifact `a` is the sealing, under `key`, of `plaintext` with the name `name`.
pub open spec fn sealed_artifact(key: Seq<u8>, a: Seq<u8>, name: Seq<char>, plaintext: Seq<u8>) -> bool {
    match parse_envelope(a) {
        Some((nonce, name_bytes, body)) => name_bytes == encode_utf8(name) && body == aes256gcm_sealed(key, nonce, plaintext),
        None => false,
    }
}

/// Whether `r` is the file name `name` with the plaintext `p` wherever the artifact is their sealing.
pub open spec fn opened_as(r: Result<(String, Vec<u8>), CodecError>, key: Seq<u8>, a: Seq<u8>, name: Seq<char>, p: Seq<u8>) -> bool {
    p.len() <= MAX_PLAINTEXT_LEN && sealed_artifact(key, a, name, p) ==> (r matches Ok((s, q)) && s@ == name && q@ == p)
}

/// Relies on aes_gcm's `Aes256Gcm::encrypt`: the ciphertext is as long as the plaintext,
/// with the 16-byte tag appended, and only a plaintext over 2^36 bytes is refused.
#[verifier::external_body]
fn aes_seal(key: &[u8; 32], nonce: &[u8; 12], plaintext: &[u8]) -> (r: Option<Vec<u8>>)
    ensures
        r is Some <==> plaintext@.len() <= MAX_PLAINTEXT_LEN,
        r matches Some(c) ==> c@ == aes256gcm_sealed(key@, nonce@, plaintext@),
        r matches Some(c) ==> c@.len() == plaintext@.len() + TAG_LEN,
{
    let cipher = Aes256Gcm::new(Key::<Aes256Gcm>::from_slice(key));
    cipher.encrypt(Nonce::from_slice(nonce), plaintext).ok()
}

/// `r` is the plaintext `p` wherever the ciphertext is a sealing of `p`.
pub open spec fn opens_to(r: Option<Vec<u8>>, key: Seq<u8>, nonce: Seq<u8>, ciphertext: Seq<u8>, p: Seq<u8>) -> bool {
    p.len() <= MAX_PLAINTEXT_LEN && ciphertext == aes256gcm_sealed(key, nonce, p) ==> (r matches Some(q) && q@ == p)
}

/// Relies on aes_gcm's `Aes256Gcm::decrypt`: it returns a plaintext only when the tag
/// verifies, that is when the ciphertext is exactly its encryption under the key and nonce,
/// and it returns the plaintext of every such ciphertext.
#[verifier::external_body]
fn aes_open(key: &[u8; 32], nonce: &[u8; 12], ciphertext: &[u8]) -> (r: Option<Vec<u8>>)
    ensures
        r matches Some(p) ==> ciphertext@ == aes256gcm_sealed(key@, nonce@, p@),
        forall|p: Seq<u8>| #![trigger aes256gcm_sealed(key@, nonce@, p)] opens_to(r, key@, nonce@, ciphertext@, p),
{
    let cipher = Aes256Gcm::new(Key::<Aes256Gcm>::from_slice(key));
    cipher.decrypt(Nonce::from_slice(nonce), ciphertext).ok()
}

/// Relies on aes_gcm's `Aes256Gcm::generate_nonce` over `OsRng`: twelve random bytes.
#[verifier::external_body]
fn fresh_nonce() -> (r: [u8; 12]) {
    Aes256Gcm::generate_nonce(&mut OsRng).into()
}

/// Relies on `String::from_utf8`: the string whose UTF-8 encoding is `bytes`, if they are UTF-8.
#[verifier::external_body]
fn utf8_to_string(bytes: Vec<u8>) -> (r: Option<String>)
    ensures
        r is Some <==> valid_utf8(bytes@),
        r matches Some(s) ==> s@ == decode_utf8(bytes@),
{
    String::from_utf8(bytes).ok()
}

/// Appends `src` to `out`.
fn push_all(out: &mut Vec<u8>, src: &[u8])
    ensures
        final(out)@ == old(out)@ + src@,
{
    let mut i: usize = 0;
    while i < src.len()
        invariant
            i <= src@.len(),
            out@ == old(out)@ + src@.subrange(0, i as int),
        decreases src@.len() - i,
    {
        out.push(src[i]);
        i += 1;
        assert(src@.subrange(0, i as int) =~= src@.subrange(0, i - 1) + seq![src@[i - 1]]);
    }
    assert(src@.subrange(0, i as int) =~= src@);
}

/// Seals `plaintext` into an artifact that records `name`, using the given nonce.
pub fn seal_envelope(key: &EncryptionKey, nonce: &[u8; 12], name: &str, plaintext: &[u8]) -> (r: Result<Vec<u8>, CodecError>)
    ensures
        r matches Ok(a) ==> seal_result(key@, nonce@, name@, plaintext@) == Ok::<Seq<u8>, CodecError>(a@),
        r matches Err(e) ==> seal_result(key@, nonce@, name@, plaintext@) == Err::<Seq<u8>, CodecError>(e),
{
    let name_bytes = name.as_bytes();
    if name_bytes.len() > MAX_NAME_LEN {
        return Err(CodecError::FilenameTooLong);
    }
    let body = match aes_seal(key.as_array(), nonce, plaintext) {
        Some(c) => c,
        None => return Err(CodecError::EncryptionFailed),
    };
    let len = name_bytes.len() as u16;
    let mut out: Vec<u8> = Vec::new();
    push_all(&mut out, nonce);
    out.push((len / 256) as u8);
    out.push((len % 256) as u8);
    push_all(&mut out, name_bytes);
    push_all(&mut out, body.as_slice());
    assert(out@ =~= envelope_bytes(nonce@, encode_utf8(name@), body@));
    Ok(out)
}

/// An artifact ready to be written: its file name and its bytes.
pub struct SealedFile {
    pub artifact_name: String,
    pub bytes: Vec<u8>,
}

/// Seals the contents of the file `file_name` under `key` with a fresh random nonce, into
/// the artifact `<stem>.vault`. The file name is recorded whole, so that it can be restored.
pub fn encrypt_file(file_name: &str, contents: &[u8], key: &EncryptionKey) -> (r: Result<SealedFile, CodecError>)
    ensures
        seal_error(file_name@, contents@) matches Some(e) ==> r == Err::<SealedFile, CodecError>(e),
        seal_error(file_name@, contents@) is None ==> r is Ok,
        r matches Ok(f) ==> f.artifact_name@ == stem_of(file_name@) + "."@ + VAULT_EXTENSION@,
        r matches Ok(f) ==> f.bytes@.len() >= NONCE_LEN && seal_result(key@, f.bytes@.subrange(0, 12), file_name@, contents@)
            == Ok::<Seq<u8>, CodecError>(f.bytes@),
{
    let nonce = fresh_nonce();
    match seal_envelope(key, &nonce, file_name, contents) {
        Ok(bytes) => {
            assert(bytes@.subrange(0, 12) =~= nonce@);
            Ok(SealedFile { artifact_name: vault_artifact_name(file_name), bytes })
        },
        Err(e) => Err(e),
    }
}

/// Opens an artifact under `key`: the recorded file name and the plaintext. Nothing is
/// returned unless the authentication tag verifies.
pub fn decrypt_file(artifact: &[u8], key: &EncryptionKey) -> (r: Result<(String, Vec<u8>), CodecError>)
    ensures
        parse_envelope(artifact@) is None ==> r == Err::<(String, Vec<u8>), CodecError>(CodecError::Truncated),
        parse_envelope(artifact@) matches Some((n, nb, c)) && !valid_utf8(nb)
            ==> r == Err::<(String, Vec<u8>), CodecError>(CodecError::InvalidFilename),
        r matches Ok((name, p)) ==> sealed_artifact(key@, artifact@, name@, p@),
        r matches Err(e) ==> e == CodecError::Truncated || e == CodecError::InvalidFilename || e == CodecError::TamperedOrWrongKey,
        forall|name: Seq<char>, p: Seq<u8>| #![trigger sealed_artifact(key@, artifact@, name, p)]
            opened_as(r, key@, artifact@, name, p),
{
    if artifact.len() < HEADER_LEN {
        return Err(CodecError::Truncated);
    }
    let name_len = artifact[12] as usize * 256 + artifact[13] as usize;
    if name_len > artifact.len() - HEADER_LEN {
        return Err(CodecError::Truncated);
    }
    let mut nonce = [0u8; 12];
    let mut i: usize = 0;
    while i < NONCE_LEN
        invariant
            i <= NONCE_LEN,
            artifact@.len() >= HEADER_LEN,
            nonce@.len() == NONCE_LEN,
            forall|j: int| 0 <= j < i ==> nonce@[j] == artifact@[j],
        decreases NONCE_LEN - i,
    {
        nonce[i] = artifact[i];
        i += 1;
    }
    let name_end = HEADER_LEN + name_len;
    let name_bytes = slice_to_vec(slice_subrange(artifact, HEADER_LEN, name_end));
    let name = match utf8_to_string(name_bytes) {
        Some(s) => s,
        None => return Err(CodecError::InvalidFilename),
    };
    let body = slice_subrange(artifact, name_end, artifact.len());
    assert(nonce@ =~= artifact@.subrange(0, 12));
    let opened = aes_open(key.as_array(), &nonce, body);
    let r = match opened {
        Some(p) => Ok((name, p)),
        None => Err(CodecError::TamperedOrWrongKey),
    };
    assert forall|nm: Seq<char>, p: Seq<u8>| #![trigger sealed_artifact(key@, artifact@, nm, p)]
        opened_as(r, key@, artifact@, nm, p) by {
        if p.len() <= MAX_PLAINTEXT_LEN && sealed_artifact(key@, artifact@, nm, p) {
            assert(opens_to(opened, key@, nonce@, body@, p));
            assert(decode_utf8(encode_utf8(nm)) == nm);
        }
    }
    r
}

proof fn lemma_be16_round_trip(n: nat)
    requires
        n <= MAX_NAME_LEN,
    ensures
        from_be16(be16(n)[0], be16(n)[1]) == n,
{
    assert((n / 256) as u8 as nat == n / 256);
    assert((n % 256) as u8 as nat == n % 256);
}

proof fn lemma_parse_envelope_bytes(nonce: Seq<u8>, name: Seq<u8>, body: Seq<u8>)
    requires
        nonce.len() == NONCE_LEN,
        name.len() <= MAX_NAME_LEN,
    ensures
        parse_envelope(envelope_bytes(nonce, name, body)) == Some((nonce, name, body)),
{
    let a = envelope_bytes(nonce, name, body);
    lemma_be16_round_trip(name.len());
    assert(a[12] == be16(name.len())[0]);
    assert(a[13] == be16(name.len())[1]);
    let n = name.len() as int;
    assert(a.subrange(0, 12) =~= nonce);
    assert(a.subrange(14, 14 + n) =~= name);
    assert(a.subrange(14 + n, a.len() as int) =~= body);
}

/// Sealing and opening are inverse: the artifact that sealing a plaintext under a file
/// name produces opens, under the same key, to exactly that file name and that plaintext.
pub proof fn lemma_round_trip(key: Seq<u8>, nonce: Seq<u8>, name: Seq<char>, plaintext: Seq<u8>)
    requires
        nonce.len() == NONCE_LEN,
        seal_error(name, plaintext) is None,
    ensures
        seal_result(key, nonce, name, plaintext) matches Ok(a) && sealed_artifact(key, a, name, plaintext),
        forall|a: Seq<u8>, r: Result<(String, Vec<u8>), CodecError>|
            seal_result(key, nonce, name, plaintext) == Ok::<Seq<u8>, CodecError>(a)
                && #[trigger] opened_as(r, key, a, name, plaintext)
                ==> (r matches Ok((s, q)) && s@ == name && q@ == plaintext),
{
    lemma_parse_envelope_bytes(nonce, encode_utf8(name), aes256gcm_sealed(key, nonce, plaintext));
}

/// An artifact altered anywhere in its ciphertext or tag is not the sealing of the original
/// file name and plaintext, so opening it never returns them.
pub proof fn lemma_altered_body_never_opens_to_original(
    key: Seq<u8>,
    a: Seq<u8>,
    altered: Seq<u8>,
    name: Seq<char>,
    plaintext: Seq<u8>,
)
    requires
        sealed_artifact(key, a, name, plaintext),
        altered.len() == a.len(),
        altered != a,
        forall|i: int| 0 <= i < HEADER_LEN + encode_utf8(name).len() ==> altered[i] == a[i],
    ensures
        !sealed_artifact(key, altered, name, plaintext),
{
    let n = encode_utf8(name).len() as int;
    assert(altered[12] == a[12] && altered[13] == a[13]);
    assert(altered.subrange(0, 12) =~= a.subrange(0, 12));
    assert(altered.subrange(14, 14 + n) =~= a.subrange(14, 14 + n));
    if altered.subrange(14 + n, altered.len() as int) == a.subrange(14 + n, a.len() as int) {
        assert forall|i: int| 0 <= i < a.len() implies altered[i] == a[i] by {
            if i >= 14 + n {
                assert(altered.subrange(14 + n, altered.len() as int)[i - 14 - n] == altered[i]);
            }
        }
        assert(altered =~= a);
    }
}

} // verus!
