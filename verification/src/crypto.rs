//! The cryptographic primitives, each behind one small call.
//!
//! Nothing in this file is proved: every function is a call into a crate
//! that implements the primitive, and its contract is what that crate is
//! trusted to do. Where the result takes a standard to describe (a digest, a
//! ciphertext, a signature), it is given a name, and the contract says only
//! that the call computes it.

use vstd::prelude::*;

verus! {

/// The failure of an AEAD operation, which says nothing about its cause.
#[verifier::external_type_specification]
#[verifier::external_body]
pub struct ExAeadError(aes_gcm::Error);

/// The failure of a signing-key or signature operation.
#[verifier::external_type_specification]
#[verifier::external_body]
pub struct ExSignatureError(p256::ecdsa::Error);

/// The SHA3-256 digest of `data`.
pub uninterp spec fn spec_sha3_256(data: Seq<u8>) -> Seq<u8>;

/// The `len` bytes that PBKDF2 with HMAC-SHA3-256 derives from a password
/// and a salt in `rounds` iterations.
pub uninterp spec fn spec_pbkdf2_sha3_256(
    password: Seq<u8>,
    salt: Seq<u8>,
    rounds: u32,
    len: nat,
) -> Seq<u8>;

/// The ciphertext, tag included, that AES-256-GCM makes of `plaintext`
/// under `key` and `nonce`, with no associated data.
pub uninterp spec fn spec_aes256_gcm_seal(
    key: Seq<u8>,
    nonce: Seq<u8>,
    plaintext: Seq<u8>,
) -> Seq<u8>;

/// The plaintext that AES-256-GCM recovers from `ciphertext` under `key`
/// and `nonce`, or `None` where the tag does not verify.
pub uninterp spec fn spec_aes256_gcm_open(
    key: Seq<u8>,
    nonce: Seq<u8>,
    ciphertext: Seq<u8>,
) -> Option<Seq<u8>>;

/// The uncompressed SEC1 encoding of the public point of a secret scalar.
pub uninterp spec fn spec_p256_public_point(secret: Seq<u8>) -> Seq<u8>;

/// The deterministic ECDSA signature of `message` under a secret scalar, as
/// `r` followed by `s`, or `None` where no signature comes out.
pub uninterp spec fn spec_p256_sign(secret: Seq<u8>, message: Seq<u8>) -> Option<Seq<u8>>;

/// The largest plaintext, in bytes, that AES-GCM takes.
pub open spec fn aes_gcm_max_plaintext() -> nat {
    0x10_0000_0000
}

/// The length of an AES-GCM authentication tag.
pub open spec fn aes_gcm_tag_len() -> nat {
    16
}

/// The number that big-endian `bytes` stand for.
pub open spec fn be_value(bytes: Seq<u8>) -> nat
    decreases bytes.len(),
{
    if bytes.len() == 0 {
        0
    } else {
        be_value(bytes.drop_last()) * 256 + bytes.last() as nat
    }
}

/// The order of the group of the curve P-256.
pub open spec fn p256_order() -> nat {
    0xffffffff00000000ffffffffffffffffbce6faada7179e84f3b9cac2fc632551nat
}

/// Bytes that the curve accepts as a secret scalar: 24 to 32 of them, read
/// big-endian, standing for a number above zero and below the group order.
pub open spec fn valid_secret(bytes: Seq<u8>) -> bool {
    &&& 24 <= bytes.len() <= 32
    &&& 0 < be_value(bytes) < p256_order()
}

/// `bytes` with zeros in front to make 32.
pub open spec fn padded_secret(bytes: Seq<u8>) -> Seq<u8> {
    Seq::new((32 - bytes.len()) as nat, |i: int| 0u8) + bytes
}

/// Hashes `data` with `sha3::Sha3_256`.
///
/// Trusted: the result is the SHA3-256 digest of the bytes.
#[verifier::external_body]
pub(crate) fn sha3_256(data: &[u8]) -> (digest: Vec<u8>)
    ensures
        digest@ == spec_sha3_256(data@),
{
    <sha3::Sha3_256 as sha3::Digest>::digest(data).to_vec()
}

/// Derives `len` bytes with `pbkdf2::pbkdf2_hmac` over SHA3-256.
///
/// Trusted: the result is the PBKDF2 output for these inputs and has the
/// length asked for. The call cannot fail: HMAC takes a key of any length.
#[verifier::external_body]
pub(crate) fn pbkdf2_sha3_256(password: &[u8], salt: &[u8], rounds: u32, len: usize) -> (key: Vec<
    u8,
>)
    ensures
        key@ == spec_pbkdf2_sha3_256(password@, salt@, rounds, len as nat),
        key@.len() == len,
{
    let mut key = vec![0u8; len];
    pbkdf2::pbkdf2_hmac::<sha3::Sha3_256>(password, salt, rounds, &mut key);
    key
}

/// Encrypts with `aes_gcm::Aes256Gcm`.
///
/// Trusted: the call fails exactly when the plaintext is longer than the
/// crate's `P_MAX`; otherwise the result is the ciphertext followed by its
/// 16-byte tag, and opening it under the same key and nonce gives the
/// plaintext back. The key and nonce lengths are demanded because the crate
/// panics on others.
#[verifier::external_body]
#[allow(deprecated)]
pub(crate) fn aes256_gcm_seal(key: &[u8], nonce: &[u8], plaintext: &[u8]) -> (r: Result<
    Vec<u8>,
    aes_gcm::Error,
>)
    requires
        key@.len() == 32,
        nonce@.len() == 12,
    ensures
        r is Ok <==> plaintext@.len() <= aes_gcm_max_plaintext(),
        r matches Ok(sealed) ==> {
            &&& sealed@ == spec_aes256_gcm_seal(key@, nonce@, plaintext@)
            &&& sealed@.len() == plaintext@.len() + aes_gcm_tag_len()
            &&& spec_aes256_gcm_open(key@, nonce@, sealed@) == Some(plaintext@)
        },
{
    let cipher = <aes_gcm::Aes256Gcm as aes_gcm::KeyInit>::new(aes_gcm::Key::<
        aes_gcm::Aes256Gcm,
    >::from_slice(key));
    aes_gcm::aead::Aead::encrypt(&cipher, aes_gcm::Nonce::from_slice(nonce), plaintext)
}

/// Decrypts with `aes_gcm::Aes256Gcm`.
///
/// Trusted: the call succeeds exactly when the tag verifies, and then
/// returns the plaintext. The key and nonce lengths are demanded because the
/// crate panics on others.
#[verifier::external_body]
#[allow(deprecated)]
pub(crate) fn aes256_gcm_open(key: &[u8], nonce: &[u8], ciphertext: &[u8]) -> (r: Result<
    Vec<u8>,
    aes_gcm::Error,
>)
    requires
        key@.len() == 32,
        nonce@.len() == 12,
    ensures
        match r {
            Ok(plaintext) => spec_aes256_gcm_open(key@, nonce@, ciphertext@) == Some(plaintext@),
            Err(_) => spec_aes256_gcm_open(key@, nonce@, ciphertext@) is None,
        },
{
    let cipher = <aes_gcm::Aes256Gcm as aes_gcm::KeyInit>::new(aes_gcm::Key::<
        aes_gcm::Aes256Gcm,
    >::from_slice(key));
    aes_gcm::aead::Aead::decrypt(&cipher, aes_gcm::Nonce::from_slice(nonce), ciphertext)
}

/// Fills `len` bytes from the operating system's random source, with
/// `rand::RngCore::fill_bytes` on `OsRng`.
///
/// Trusted: the length. Nothing is said about the bytes.
#[verifier::external_body]
pub(crate) fn random_bytes(len: usize) -> (out: Vec<u8>)
    ensures
        out@.len() == len,
{
    let mut out = vec![0u8; len];
    rand::RngCore::fill_bytes(&mut aes_gcm::aead::OsRng, &mut out);
    out
}

/// Draws a fresh secret scalar with `p256::ecdsa::SigningKey::random`.
///
/// Trusted: whatever is drawn is 32 bytes that the curve accepts.
#[verifier::external_body]
pub(crate) fn random_secret() -> (secret: Vec<u8>)
    ensures
        secret@.len() == 32,
        valid_secret(secret@),
{
    p256::ecdsa::SigningKey::random(&mut aes_gcm::aead::OsRng).to_bytes().to_vec()
}

/// Checks a secret scalar with `p256::ecdsa::SigningKey::from_slice` and
/// returns it as the key's own 32 bytes.
///
/// Trusted: the crate accepts 24 to 32 bytes that stand for a number above
/// zero and below the group order, pads shorter input with zeros in front,
/// and refuses everything else.
#[verifier::external_body]
pub(crate) fn secret_from_slice(bytes: &[u8]) -> (r: Result<Vec<u8>, p256::ecdsa::Error>)
    ensures
        r is Ok <==> valid_secret(bytes@),
        r matches Ok(secret) ==> secret@ == padded_secret(bytes@),
{
    let key = p256::ecdsa::SigningKey::from_slice(bytes)?;
    Ok(key.to_bytes().to_vec())
}

/// Computes the public point of a secret scalar, with
/// `p256::ecdsa::SigningKey::from_slice` and
/// `VerifyingKey::to_encoded_point`.
///
/// Trusted: the call succeeds exactly on a secret that the curve accepts,
/// and the point comes uncompressed: 65 bytes, a marker byte and the two
/// coordinates.
#[verifier::external_body]
pub(crate) fn public_point(secret: &[u8]) -> (r: Result<Vec<u8>, p256::ecdsa::Error>)
    ensures
        r is Ok <==> valid_secret(secret@),
        r matches Ok(point) ==> point@ == spec_p256_public_point(secret@) && point@.len() == 65,
{
    let key = p256::ecdsa::SigningKey::from_slice(secret)?;
    Ok(key.verifying_key().to_encoded_point(false).as_bytes().to_vec())
}

/// Signs `message` with `p256::ecdsa::SigningKey`, through
/// `signature::Signer::try_sign`.
///
/// Trusted: the signature is a function of the secret and the message alone,
/// the ephemeral scalar being derived from both (RFC 6979).
#[verifier::external_body]
pub(crate) fn p256_sign(secret: &[u8], message: &[u8]) -> (r: Result<Vec<u8>, p256::ecdsa::Error>)
    ensures
        match r {
            Ok(signature) => spec_p256_sign(secret@, message@) == Some(signature@),
            Err(_) => spec_p256_sign(secret@, message@) is None,
        },
{
    let key = p256::ecdsa::SigningKey::from_slice(secret)?;
    let signature: p256::ecdsa::Signature = p256::ecdsa::signature::Signer::try_sign(
        &key,
        message,
    )?;
    Ok(signature.to_vec())
}

/// Overwrites a buffer with zeros and empties it, with
/// `zeroize::Zeroize::zeroize`.
///
/// Trusted: the buffer is empty afterwards.
#[verifier::external_body]
pub(crate) fn wipe(buffer: &mut Vec<u8>)
    ensures
        final(buffer)@.len() == 0,
{
    zeroize::Zeroize::zeroize(buffer);
}

} // verus!
