//! Key custody: signing keys, the records that keep them encrypted at rest,
//! and the vault that holds the records by alias.

use vstd::prelude::*;
use vstd::string::StringExecFns;
use vstd::string::StringSliceAdditionalSpecFns;
use vstd::utf8::encode_utf8;

use crate::crypto::{
    aes256_gcm_open, aes256_gcm_seal, be_value, p256_sign, padded_secret, pbkdf2_sha3_256,
    public_point, random_bytes, random_secret, secret_from_slice, sha3_256, spec_aes256_gcm_open,
    spec_aes256_gcm_seal, spec_p256_public_point, spec_p256_sign, spec_pbkdf2_sha3_256,
    spec_sha3_256, valid_secret, wipe,
};
use crate::errors::{MtmfError, Result};
use crate::hexfmt::{
    hex_decode, hex_encode, hex_text, is_hex, lemma_hex_text_bytes, lemma_unhex_hex, unhex,
};
use crate::text::{str_eq, texts};

verus! {

/// The number of PBKDF2 iterations that turn a passphrase into a key.
/// Records are written and read with this number unless a vault is made
/// for another.
pub const PBKDF2_ITERATIONS: u32 = 600_000;

/// The length of the salt of a record.
pub const SALT_LEN: usize = 32;

/// The length of the nonce of a record.
pub const NONCE_LEN: usize = 12;

/// The length of the symmetric key derived from a passphrase.
pub const KEY_LEN: usize = 32;

/// The length of a public key: the two coordinates of the point.
pub const PUBLIC_KEY_LEN: usize = 64;

/// The public key of a secret scalar: the coordinates of its point, which
/// is the uncompressed encoding without its leading marker byte.
pub open spec fn spec_public_key(secret: Seq<u8>) -> Seq<u8> {
    spec_p256_public_point(secret).skip(1)
}

/// The signature of a message: the ECDSA signature, under the secret, of
/// the SHA3-256 digest of the message.
pub open spec fn spec_sign_message(secret: Seq<u8>, message: Seq<u8>) -> Option<Seq<u8>> {
    spec_p256_sign(secret, spec_sha3_256(message))
}

/// Zeros stand for nothing.
proof fn lemma_be_value_zeros(count: nat)
    ensures
        be_value(Seq::new(count, |i: int| 0u8)) == 0,
    decreases count,
{
    if count > 0 {
        let zeros = Seq::new(count, |i: int| 0u8);
        assert(zeros.drop_last() =~= Seq::new((count - 1) as nat, |i: int| 0u8));
        lemma_be_value_zeros((count - 1) as nat);
    }
}

/// Zeros in front of a number do not change it.
proof fn lemma_be_value_leading_zeros(count: nat, bytes: Seq<u8>)
    ensures
        be_value(Seq::new(count, |i: int| 0u8) + bytes) == be_value(bytes),
    decreases bytes.len(),
{
    let zeros = Seq::new(count, |i: int| 0u8);
    if bytes.len() == 0 {
        assert(zeros + bytes =~= zeros);
        lemma_be_value_zeros(count);
    } else {
        assert((zeros + bytes).drop_last() =~= zeros + bytes.drop_last());
        lemma_be_value_leading_zeros(count, bytes.drop_last());
    }
}

/// A P-256 signing key: a secret scalar that the curve accepts, kept as its
/// 32 big-endian bytes.
pub struct SigningKey {
    secret: Vec<u8>,
}

impl View for SigningKey {
    type V = Seq<u8>;

    /// The 32 bytes of the secret scalar.
    closed spec fn view(&self) -> Seq<u8> {
        self.secret@
    }
}

impl SigningKey {
    #[verifier::type_invariant]
    spec fn well_formed(self) -> bool {
        &&& self.secret@.len() == 32
        &&& valid_secret(self.secret@)
    }

    /// Makes a key of a secret scalar. Fails with `InvalidKeyMaterial`
    /// unless the curve accepts the bytes; fewer than 32 accepted bytes are
    /// padded with zeros in front.
    pub fn from_slice(bytes: &[u8]) -> (r: Result<SigningKey>)
        ensures
            r is Ok <==> valid_secret(bytes@),
            r matches Ok(key) ==> key@ == padded_secret(bytes@),
            r matches Err(e) ==> e matches MtmfError::InvalidKeyMaterial(m) && m@
                == "Invalid private key"@,
    {
        match secret_from_slice(bytes) {
            Ok(secret) => {
                proof {
                    lemma_be_value_leading_zeros((32 - bytes@.len()) as nat, bytes@);
                }
                Ok(SigningKey { secret })
            },
            Err(_) => Err(MtmfError::InvalidKeyMaterial(String::from_str("Invalid private key"))),
        }
    }

    /// Draws a fresh key from the operating system's random source.
    /// Whatever is drawn is a scalar that the curve accepts.
    pub fn random() -> (key: SigningKey)
        ensures
            key@.len() == 32,
            valid_secret(key@),
    {
        SigningKey { secret: random_secret() }
    }

    /// The 32 bytes of the secret scalar.
    pub fn to_bytes(&self) -> (bytes: Vec<u8>)
        ensures
            bytes@ == self@,
            bytes@.len() == 32,
            valid_secret(bytes@),
    {
        proof {
            use_type_invariant(self);
        }
        self.secret.clone()
    }

    /// Overwrites the secret with zeros and gives the key up.
    pub fn wipe(self) {
        let mut secret = self.secret;
        wipe(&mut secret);
    }

    /// The public key: the 64 bytes of the point's coordinates.
    pub fn public_key(&self) -> (public_key: Vec<u8>)
        ensures
            public_key@ == spec_public_key(self@),
            public_key@.len() == PUBLIC_KEY_LEN,
    {
        proof {
            use_type_invariant(self);
        }
        match public_point(self.secret.as_slice()) {
            Ok(point) => {
                let coordinates = vstd::slice::slice_subrange(point.as_slice(), 1, point.len());
                let public_key = vstd::slice::slice_to_vec(coordinates);
                assert(public_key@ =~= spec_public_key(self@));
                public_key
            },
            Err(_) => {
                proof {
                    assert(false);
                }
                Vec::new()
            },
        }
    }
}

/// Signs a message: hashes it with SHA3-256 and signs the digest.
///
/// The signature is a function of the key and the message. Where the
/// signature scheme produces none, the error is `Crypto`; it says nothing of
/// the key or the message.
pub fn sign_message(signing_key: &SigningKey, message: &[u8]) -> (r: Result<Vec<u8>>)
    ensures
        match r {
            Ok(signature) => spec_sign_message(signing_key@, message@) == Some(signature@),
            Err(e) => {
                &&& spec_sign_message(signing_key@, message@) is None
                &&& e matches MtmfError::Crypto(m)
                &&& m@ == "Signing failed"@
            },
        },
{
    let digest = sha3_256(message);
    match p256_sign(signing_key.secret.as_slice(), digest.as_slice()) {
        Ok(signature) => Ok(signature),
        Err(_) => Err(MtmfError::Crypto(String::from_str("Signing failed"))),
    }
}

/// A signing key encrypted at rest, with what is needed to decrypt it.
#[derive(Debug, Clone, PartialEq, Eq)]
pub struct KeyRecord {
    pub alias: String,
    pub salt: Vec<u8>,
    pub nonce: Vec<u8>,
    pub ciphertext: Vec<u8>,
    pub public_key: Vec<u8>,
}

/// What a `KeyRecord` holds.
pub struct KeyRecordView {
    pub alias: Seq<char>,
    pub salt: Seq<u8>,
    pub nonce: Seq<u8>,
    pub ciphertext: Seq<u8>,
    pub public_key: Seq<u8>,
}

impl View for KeyRecord {
    type V = KeyRecordView;

    open spec fn view(&self) -> KeyRecordView {
        KeyRecordView {
            alias: self.alias@,
            salt: self.salt@,
            nonce: self.nonce@,
            ciphertext: self.ciphertext@,
            public_key: self.public_key@,
        }
    }
}

impl KeyRecordView {
    /// A record as this crate writes it: a 32-byte salt, a 12-byte nonce
    /// and a 64-byte public key.
    pub open spec fn is_well_formed(self) -> bool {
        &&& self.salt.len() == SALT_LEN
        &&& self.nonce.len() == NONCE_LEN
        &&& self.public_key.len() == PUBLIC_KEY_LEN
    }
}

/// The symmetric key that a passphrase and a salt give in `rounds`
/// iterations.
pub open spec fn spec_derive_key(passphrase: Seq<u8>, salt: Seq<u8>, rounds: u32) -> Seq<u8> {
    spec_pbkdf2_sha3_256(passphrase, salt, rounds, KEY_LEN as nat)
}

/// The record that encrypting `secret` under a passphrase gives, for a
/// given salt and nonce.
pub open spec fn spec_encrypt(
    alias: Seq<char>,
    secret: Seq<u8>,
    passphrase: Seq<u8>,
    salt: Seq<u8>,
    nonce: Seq<u8>,
    rounds: u32,
) -> KeyRecordView {
    KeyRecordView {
        alias,
        salt,
        nonce,
        ciphertext: spec_aes256_gcm_seal(
            spec_derive_key(passphrase, salt, rounds),
            nonce,
            secret,
        ),
        public_key: spec_public_key(secret),
    }
}

/// The plaintext that a record gives up to a passphrase, or `None` where
/// the nonce is no nonce or the ciphertext does not authenticate.
pub open spec fn spec_decrypt(record: KeyRecordView, passphrase: Seq<u8>, rounds: u32) -> Option<
    Seq<u8>,
> {
    if record.nonce.len() != NONCE_LEN {
        None
    } else {
        spec_aes256_gcm_open(
            spec_derive_key(passphrase, record.salt, rounds),
            record.nonce,
            record.ciphertext,
        )
    }
}

/// Encrypts a key under a passphrase with the given salt and nonce.
///
/// Decrypting the record with the same passphrase gives the key back. The
/// derived symmetric key is wiped before the function returns.
pub fn encrypt_key_with(
    alias: &str,
    key: &SigningKey,
    passphrase: &str,
    salt: Vec<u8>,
    nonce: Vec<u8>,
    rounds: u32,
) -> (record: KeyRecord)
    requires
        nonce@.len() == NONCE_LEN,
    ensures
        record@ == spec_encrypt(alias@, key@, passphrase.spec_bytes(), salt@, nonce@, rounds),
        record@.public_key.len() == PUBLIC_KEY_LEN,
        spec_decrypt(record@, passphrase.spec_bytes(), rounds) == Some(key@),
{
    proof {
        use_type_invariant(key);
    }
    let mut derived = pbkdf2_sha3_256(passphrase.as_bytes(), salt.as_slice(), rounds, KEY_LEN);
    let sealed = aes256_gcm_seal(derived.as_slice(), nonce.as_slice(), key.secret.as_slice());
    wipe(&mut derived);
    let ciphertext = match sealed {
        Ok(ciphertext) => ciphertext,
        Err(_) => {
            proof {
                assert(false);
            }
            Vec::new()
        },
    };
    let public_key = key.public_key();
    KeyRecord { alias: String::from_str(alias), salt, nonce, ciphertext, public_key }
}

/// Encrypts a key under a passphrase, with a salt and a nonce drawn from
/// the operating system's random source.
pub fn encrypt_key(alias: &str, key: &SigningKey, passphrase: &str, rounds: u32) -> (record:
    KeyRecord)
    ensures
        record@.alias == alias@,
        record@.public_key == spec_public_key(key@),
        record@.is_well_formed(),
        record@ == spec_encrypt(
            alias@,
            key@,
            passphrase.spec_bytes(),
            record@.salt,
            record@.nonce,
            rounds,
        ),
        spec_decrypt(record@, passphrase.spec_bytes(), rounds) == Some(key@),
{
    let salt = random_bytes(SALT_LEN);
    let nonce = random_bytes(NONCE_LEN);
    encrypt_key_with(alias, key, passphrase, salt, nonce, rounds)
}

/// Decrypts the secret of a record.
///
/// Fails with `DecryptionFailed`, and nothing more specific, whenever the
/// record does not open under the passphrase. The derived symmetric key is
/// wiped on every path.
pub fn decrypt_key(record: &KeyRecord, passphrase: &str, rounds: u32) -> (r: Result<Vec<u8>>)
    ensures
        match r {
            Ok(secret) => spec_decrypt(record@, passphrase.spec_bytes(), rounds) == Some(secret@),
            Err(e) => spec_decrypt(record@, passphrase.spec_bytes(), rounds) is None && e
                == MtmfError::DecryptionFailed,
        },
{
    if record.nonce.len() != NONCE_LEN {
        return Err(MtmfError::DecryptionFailed);
    }
    let mut derived = pbkdf2_sha3_256(
        passphrase.as_bytes(),
        record.salt.as_slice(),
        rounds,
        KEY_LEN,
    );
    let opened = aes256_gcm_open(
        derived.as_slice(),
        record.nonce.as_slice(),
        record.ciphertext.as_slice(),
    );
    wipe(&mut derived);
    match opened {
        Ok(secret) => Ok(secret),
        Err(_) => Err(MtmfError::DecryptionFailed),
    }
}

/// The views of a vector of records.
pub open spec fn record_views(records: Seq<KeyRecord>) -> Seq<KeyRecordView> {
    Seq::new(records.len(), |i: int| records[i]@)
}

/// The first record stored under `alias`, if there is one.
pub open spec fn lookup(records: Seq<KeyRecordView>, alias: Seq<char>) -> Option<KeyRecordView>
    decreases records.len(),
{
    if records.len() == 0 {
        None
    } else if records[0].alias == alias {
        Some(records[0])
    } else {
        lookup(records.drop_first(), alias)
    }
}

/// No two records share an alias.
pub open spec fn distinct_aliases(records: Seq<KeyRecordView>) -> bool {
    forall|i: int, j: int|
        0 <= i < j < records.len() ==> (#[trigger] records[i]).alias != (#[trigger] records[j]).alias
}

/// `after` is `before` with one more record, which is stored under `alias`,
/// is well formed, carries the public key of `secret` and gives `secret` up
/// to `passphrase` after `rounds` iterations.
pub open spec fn holds_new_key(
    before: Seq<KeyRecordView>,
    after: Seq<KeyRecordView>,
    alias: Seq<char>,
    secret: Seq<u8>,
    passphrase: Seq<u8>,
    rounds: u32,
) -> bool {
    &&& after.len() == before.len() + 1
    &&& after.drop_last() == before
    &&& after.last().alias == alias
    &&& after.last().is_well_formed()
    &&& after.last().public_key == spec_public_key(secret)
    &&& spec_decrypt(after.last(), passphrase, rounds) == Some(secret)
}

/// A lookup that finds nothing means that no record carries the alias.
pub proof fn lemma_lookup_none(records: Seq<KeyRecordView>, alias: Seq<char>)
    requires
        lookup(records, alias) is None,
    ensures
        forall|i: int| 0 <= i < records.len() ==> (#[trigger] records[i]).alias != alias,
    decreases records.len(),
{
    if records.len() > 0 {
        lemma_lookup_none(records.drop_first(), alias);
        assert forall|i: int| 0 <= i < records.len() implies (#[trigger] records[i]).alias
            != alias by {
            if i > 0 {
                assert(records[i] == records.drop_first()[i - 1]);
            }
        }
    }
}

/// A record that was just stored under a fresh alias is the one that a
/// lookup of that alias finds.
pub proof fn lemma_lookup_pushed(
    records: Seq<KeyRecordView>,
    record: KeyRecordView,
    alias: Seq<char>,
)
    requires
        lookup(records, alias) is None,
        record.alias == alias,
    ensures
        lookup(records.push(record), alias) == Some(record),
    decreases records.len(),
{
    if records.len() > 0 {
        assert(records.push(record).drop_first() =~= records.drop_first().push(record));
        lemma_lookup_pushed(records.drop_first(), record, alias);
    } else {
        assert(records.push(record)[0] == record);
    }
}

/// The keys of a user, one encrypted record for each alias.
pub struct KeyVault {
    records: Vec<KeyRecord>,
    rounds: u32,
}

impl View for KeyVault {
    type V = Seq<KeyRecordView>;

    /// The records in the order in which they were stored.
    closed spec fn view(&self) -> Seq<KeyRecordView> {
        record_views(self.records@)
    }
}

impl KeyVault {
    /// The vault is in order: no two of its records share an alias. Every
    /// vault that this module makes or changes is.
    pub open spec fn is_well_formed(&self) -> bool {
        distinct_aliases(self@)
    }

    /// The number of PBKDF2 iterations with which the vault writes and
    /// reads its records.
    pub closed spec fn spec_rounds(&self) -> u32 {
        self.rounds
    }

    /// An empty vault that works with `PBKDF2_ITERATIONS`, as the records
    /// kept on disk demand.
    pub fn new() -> (vault: KeyVault)
        ensures
            vault@ == Seq::<KeyRecordView>::empty(),
            vault.spec_rounds() == PBKDF2_ITERATIONS,
            vault.is_well_formed(),
    {
        KeyVault::with_rounds(PBKDF2_ITERATIONS)
    }

    /// An empty vault that works with another number of iterations. Its
    /// records cannot be read by a vault made with `new`, nor the other way
    /// round: the number is no part of a record.
    pub fn with_rounds(rounds: u32) -> (vault: KeyVault)
        ensures
            vault@ == Seq::<KeyRecordView>::empty(),
            vault.spec_rounds() == rounds,
            vault.is_well_formed(),
    {
        let vault = KeyVault { records: Vec::new(), rounds };
        assert(vault@ =~= Seq::<KeyRecordView>::empty());
        vault
    }

    /// The number of PBKDF2 iterations with which the vault works.
    pub fn rounds(&self) -> (rounds: u32)
        ensures
            rounds == self.spec_rounds(),
    {
        self.rounds
    }

    /// The records in the order in which they were stored.
    pub fn records(&self) -> (records: &Vec<KeyRecord>)
        ensures
            record_views(records@) == self@,
    {
        &self.records
    }

    /// The record stored under `alias`, if there is one.
    pub fn get(&self, alias: &str) -> (found: Option<&KeyRecord>)
        ensures
            match found {
                Some(record) => lookup(self@, alias@) == Some(record@),
                None => lookup(self@, alias@) is None,
            },
    {
        let mut i: usize = 0;
        assert(self@.skip(0) =~= self@);
        while i < self.records.len()
            invariant
                i <= self.records.len(),
                lookup(self@, alias@) == lookup(self@.skip(i as int), alias@),
            decreases self.records.len() - i,
        {
            if crate::text::str_eq(self.records[i].alias.as_str(), alias) {
                assert(self@.skip(i as int)[0] == self.records@[i as int]@);
                return Some(&self.records[i]);
            }
            assert(self@.skip(i as int).drop_first() =~= self@.skip(i + 1));
            i = i + 1;
        }
        assert(self@.skip(i as int).len() == 0);
        None
    }

    /// Whether a record is stored under `alias`.
    pub fn contains(&self, alias: &str) -> (found: bool)
        ensures
            found == lookup(self@, alias@) is Some,
    {
        self.get(alias).is_some()
    }

    /// Stores a record. Fails with `KeyAlreadyExists`, leaving the vault as
    /// it was, when a record is already stored under its alias.
    pub fn insert(&mut self, record: KeyRecord) -> (r: Result<()>)
        requires
            old(self).is_well_formed(),
        ensures
            final(self).is_well_formed(),
            final(self).spec_rounds() == old(self).spec_rounds(),
            match r {
                Ok(_) => {
                    &&& lookup(old(self)@, record@.alias) is None
                    &&& final(self)@ == old(self)@.push(record@)
                    &&& lookup(final(self)@, record@.alias) == Some(record@)
                },
                Err(e) => {
                    &&& lookup(old(self)@, record@.alias) is Some
                    &&& final(self)@ == old(self)@
                    &&& e matches MtmfError::KeyAlreadyExists(alias)
                    &&& alias@ == record@.alias
                },
            },
    {
        if self.contains(record.alias.as_str()) {
            return Err(MtmfError::KeyAlreadyExists(record.alias.clone()));
        }
        proof {
            lemma_lookup_none(self@, record@.alias);
            lemma_lookup_pushed(self@, record@, record@.alias);
        }
        let ghost before = self@;
        self.records.push(record);
        proof {
            assert(self@ =~= before.push(record@));
            assert forall|i: int, j: int| 0 <= i < j < self@.len() implies (#[trigger] self@[i]).alias
                != (#[trigger] self@[j]).alias by {
                if j < before.len() {
                    assert(self@[i] == before[i] && self@[j] == before[j]);
                } else {
                    assert(self@[i] == before[i]);
                }
            }
        }
        Ok(())
    }
}

/// Overwrites a buffer that held a secret with zeros and empties it.
pub fn wipe_secret(buffer: &mut Vec<u8>)
    ensures
        final(buffer)@.len() == 0,
{
    wipe(buffer);
}

/// Whether a passphrase and its repetition may protect a key: the
/// passphrase is not empty and the two are the same.
pub open spec fn passphrase_accepted(passphrase: Seq<char>, confirmation: Seq<char>) -> bool {
    passphrase.len() > 0 && passphrase == confirmation
}

/// The reason for which a passphrase is refused. It never holds the
/// passphrase.
pub open spec fn spec_passphrase_fault(passphrase: Seq<char>) -> Seq<char> {
    if passphrase.len() == 0 {
        "Passphrase cannot be empty"@
    } else {
        "Passphrases do not match"@
    }
}

/// Checks a passphrase and its repetition before a key is encrypted.
///
/// Fails with a `Key` error when the passphrase is empty or the repetition
/// differs from it.
pub fn check_passphrase(passphrase: &str, confirmation: &str) -> (r: Result<()>)
    ensures
        r is Ok <==> passphrase_accepted(passphrase@, confirmation@),
        r matches Err(e) ==> e matches MtmfError::Key(m) && m@ == spec_passphrase_fault(
            passphrase@,
        ),
{
    if passphrase.is_empty() {
        return Err(MtmfError::Key(String::from_str("Passphrase cannot be empty")));
    }
    if !str_eq(passphrase, confirmation) {
        return Err(MtmfError::Key(String::from_str("Passphrases do not match")));
    }
    Ok(())
}

/// Encrypts `key` under `passphrase` and stores the record under `alias`,
/// which must be free.
fn store_key(vault: &mut KeyVault, alias: &str, key: &SigningKey, passphrase: &str) -> (public_key:
    Vec<u8>)
    requires
        old(vault).is_well_formed(),
        lookup(old(vault)@, alias@) is None,
    ensures
        final(vault).is_well_formed(),
        final(vault).spec_rounds() == old(vault).spec_rounds(),
        holds_new_key(
            old(vault)@,
            final(vault)@,
            alias@,
            key@,
            passphrase.spec_bytes(),
            old(vault).spec_rounds(),
        ),
        lookup(final(vault)@, alias@) == Some(final(vault)@.last()),
        public_key@ == spec_public_key(key@),
{
    let record = encrypt_key(alias, key, passphrase, vault.rounds);
    let public_key = record.public_key.clone();
    let ghost before = vault@;
    let ghost stored = record@;
    match vault.insert(record) {
        Ok(_) => {
            assert(vault@.drop_last() =~= before);
            assert(vault@.last() == stored);
        },
        Err(_) => {
            proof {
                assert(false);
            }
        },
    }
    public_key
}

/// Generates a key and stores it, encrypted under `passphrase`, as `alias`.
/// Returns the public key.
///
/// Fails with `KeyAlreadyExists` when the alias is taken, and otherwise with
/// a `Key` error when the passphrase is empty or `confirmation` differs from
/// it; the vault is then unchanged. On success the vault holds one more
/// record, which gives a key that the curve accepts back to the passphrase
/// and carries that key's public key.
pub fn generate(vault: &mut KeyVault, alias: &str, passphrase: &str, confirmation: &str) -> (r:
    Result<Vec<u8>>)
    requires
        old(vault).is_well_formed(),
    ensures
        final(vault).is_well_formed(),
        final(vault).spec_rounds() == old(vault).spec_rounds(),
        match r {
            Ok(public_key) => {
                &&& lookup(old(vault)@, alias@) is None
                &&& passphrase_accepted(passphrase@, confirmation@)
                &&& spec_decrypt(
                    final(vault)@.last(),
                    passphrase.spec_bytes(),
                    old(vault).spec_rounds(),
                ) matches Some(secret)
                &&& secret.len() == 32
                &&& valid_secret(secret)
                &&& holds_new_key(
                    old(vault)@,
                    final(vault)@,
                    alias@,
                    secret,
                    passphrase.spec_bytes(),
                    old(vault).spec_rounds(),
                )
                &&& lookup(final(vault)@, alias@) == Some(final(vault)@.last())
                &&& public_key@ == spec_public_key(secret)
            },
            Err(e) => {
                &&& final(vault)@ == old(vault)@
                &&& if lookup(old(vault)@, alias@) is Some {
                    e matches MtmfError::KeyAlreadyExists(taken) && taken@ == alias@
                } else {
                    &&& !passphrase_accepted(passphrase@, confirmation@)
                    &&& e matches MtmfError::Key(m)
                    &&& m@ == spec_passphrase_fault(passphrase@)
                }
            },
        },
{
    if vault.contains(alias) {
        return Err(MtmfError::KeyAlreadyExists(String::from_str(alias)));
    }
    let key = SigningKey::random();
    match check_passphrase(passphrase, confirmation) {
        Err(e) => Err(e),
        Ok(_) => {
            proof {
                use_type_invariant(&key);
            }
            let public_key = store_key(vault, alias, &key, passphrase);
            key.wipe();
            Ok(public_key)
        },
    }
}

/// The secret scalar that hexadecimal `text` stands for: 32 bytes that the
/// curve accepts. `None` for anything else.
pub open spec fn spec_import_secret(text: Seq<u8>) -> Option<Seq<u8>> {
    if is_hex(text) && unhex(text).len() == 32 && valid_secret(unhex(text)) {
        Some(unhex(text))
    } else {
        None
    }
}

/// The reason for which text is refused as a key. It never holds the
/// text.
pub open spec fn spec_import_fault(text: Seq<u8>) -> Seq<char> {
    if !is_hex(text) {
        "Invalid key format. Expected hex-encoded private key."@
    } else if unhex(text).len() != 32 {
        "Invalid key length. Expected 32 bytes for P-256 private key."@
    } else {
        "Invalid private key"@
    }
}

/// Reads a secret scalar from hexadecimal text.
///
/// Fails with `InvalidKeyMaterial` unless the text is hexadecimal, stands
/// for exactly 32 bytes, and the curve accepts them.
pub fn parse_secret(hex_key: &str) -> (r: Result<SigningKey>)
    ensures
        match r {
            Ok(key) => spec_import_secret(hex_key.spec_bytes()) == Some(key@),
            Err(e) => {
                &&& spec_import_secret(hex_key.spec_bytes()) is None
                &&& e matches MtmfError::InvalidKeyMaterial(m)
                &&& m@ == spec_import_fault(hex_key.spec_bytes())
            },
        },
{
    let mut bytes = match hex_decode(hex_key.as_bytes()) {
        Ok(bytes) => bytes,
        Err(_) => {
            return Err(
                MtmfError::InvalidKeyMaterial(
                    String::from_str("Invalid key format. Expected hex-encoded private key."),
                ),
            );
        },
    };
    if bytes.len() != 32 {
        wipe(&mut bytes);
        return Err(
            MtmfError::InvalidKeyMaterial(
                String::from_str("Invalid key length. Expected 32 bytes for P-256 private key."),
            ),
        );
    }
    let parsed = SigningKey::from_slice(bytes.as_slice());
    proof {
        assert(padded_secret(bytes@) =~= bytes@);
    }
    wipe(&mut bytes);
    parsed
}

/// Imports a key given as hexadecimal text and stores it, encrypted under
/// `passphrase`, as `alias`. Returns the public key.
///
/// Fails with `KeyAlreadyExists` when the alias is taken; otherwise with
/// `InvalidKeyMaterial` when the text is no valid key; otherwise with a
/// `Key` error when the passphrase is empty. The vault is then unchanged.
pub fn import(vault: &mut KeyVault, alias: &str, hex_key: &str, passphrase: &str) -> (r: Result<
    Vec<u8>,
>)
    requires
        old(vault).is_well_formed(),
    ensures
        final(vault).is_well_formed(),
        final(vault).spec_rounds() == old(vault).spec_rounds(),
        match r {
            Ok(public_key) => {
                &&& lookup(old(vault)@, alias@) is None
                &&& passphrase@.len() > 0
                &&& spec_import_secret(hex_key.spec_bytes()) matches Some(secret)
                &&& holds_new_key(
                    old(vault)@,
                    final(vault)@,
                    alias@,
                    secret,
                    passphrase.spec_bytes(),
                    old(vault).spec_rounds(),
                )
                &&& lookup(final(vault)@, alias@) == Some(final(vault)@.last())
                &&& public_key@ == spec_public_key(secret)
            },
            Err(e) => {
                &&& final(vault)@ == old(vault)@
                &&& if lookup(old(vault)@, alias@) is Some {
                    e matches MtmfError::KeyAlreadyExists(taken) && taken@ == alias@
                } else if spec_import_secret(hex_key.spec_bytes()) is None {
                    e matches MtmfError::InvalidKeyMaterial(m) && m@ == spec_import_fault(
                        hex_key.spec_bytes(),
                    )
                } else {
                    &&& passphrase@.len() == 0
                    &&& e matches MtmfError::Key(m)
                    &&& m@ == spec_passphrase_fault(passphrase@)
                }
            },
        },
{
    if vault.contains(alias) {
        return Err(MtmfError::KeyAlreadyExists(String::from_str(alias)));
    }
    let key = match parse_secret(hex_key) {
        Ok(key) => key,
        Err(e) => {
            return Err(e);
        },
    };
    if passphrase.is_empty() {
        key.wipe();
        return Err(MtmfError::Key(String::from_str("Passphrase cannot be empty")));
    }
    let public_key = store_key(vault, alias, &key, passphrase);
    key.wipe();
    Ok(public_key)
}

/// Decrypts the key stored under `alias` and returns it as hexadecimal
/// text. The caller shows or writes the text and must warn that it is a
/// secret.
///
/// Fails with `KeyNotFound` when nothing is stored under the alias, and with
/// `DecryptionFailed` when the record does not open under the passphrase.
pub fn export(vault: &KeyVault, alias: &str, passphrase: &str) -> (r: Result<String>)
    ensures
        match r {
            Ok(text) => {
                &&& lookup(vault@, alias@) matches Some(record)
                &&& spec_decrypt(record, passphrase.spec_bytes(), vault.spec_rounds())
                    matches Some(secret)
                &&& text@ == hex_text(secret)
            },
            Err(e) => match lookup(vault@, alias@) {
                None => e matches MtmfError::KeyNotFound(missing) && missing@ == alias@,
                Some(record) => spec_decrypt(
                    record,
                    passphrase.spec_bytes(),
                    vault.spec_rounds(),
                ) is None && e == MtmfError::DecryptionFailed,
            },
        },
{
    match vault.get(alias) {
        None => Err(MtmfError::KeyNotFound(String::from_str(alias))),
        Some(record) => {
            match decrypt_key(record, passphrase, vault.rounds) {
                Err(e) => Err(e),
                Ok(secret) => {
                    let text = hex_encode(secret.as_slice());
                    let mut secret = secret;
                    wipe(&mut secret);
                    Ok(text)
                },
            }
        },
    }
}

/// The bytes of a public key that a listing shows: the first eight, or all
/// of a shorter one.
pub open spec fn listed_prefix(public_key: Seq<u8>) -> Seq<u8> {
    if public_key.len() >= 8 {
        public_key.take(8)
    } else {
        public_key
    }
}

/// The line of a listing for one record: the alias, then the start of the
/// public key in hexadecimal between `(` and `...)`.
pub open spec fn spec_list_entry(record: KeyRecordView) -> Seq<char> {
    record.alias + " ("@ + hex_text(listed_prefix(record.public_key)) + "...)"@
}

/// The line of a listing for one record.
pub fn list_entry(record: &KeyRecord) -> (entry: String)
    ensures
        entry@ == spec_list_entry(record@),
{
    let shown: usize = if record.public_key.len() >= 8 {
        8
    } else {
        record.public_key.len()
    };
    let prefix = vstd::slice::slice_subrange(record.public_key.as_slice(), 0, shown);
    assert(prefix@ =~= listed_prefix(record@.public_key));
    let digits = hex_encode(prefix);
    let mut entry = record.alias.clone();
    entry.append(" (");
    entry.append(digits.as_str());
    entry.append("...)");
    entry
}

/// The lines of a listing, one for each record.
pub open spec fn spec_list(records: Seq<KeyRecordView>) -> Seq<Seq<char>> {
    Seq::new(records.len(), |i: int| spec_list_entry(records[i]))
}

/// Lists the keys of the vault, one line for each record, in the order in
/// which they were stored. An empty vault gives an empty listing.
pub fn list(vault: &KeyVault) -> (lines: Vec<String>)
    ensures
        texts(lines@) == spec_list(vault@),
{
    let mut lines: Vec<String> = Vec::new();
    let mut i: usize = 0;
    while i < vault.records.len()
        invariant
            i <= vault.records.len(),
            lines@.len() == i,
            forall|j: int| 0 <= j < i ==> (#[trigger] lines@[j])@ == spec_list_entry(vault@[j]),
        decreases vault.records.len() - i,
    {
        let entry = list_entry(&vault.records[i]);
        lines.push(entry);
        i = i + 1;
    }
    assert(texts(lines@) =~= spec_list(vault@));
    lines
}

/// Decrypts the key stored under `alias` for signing.
///
/// Fails with `KeyNotFound` when nothing is stored under the alias. Fails
/// with `DecryptionFailed` when the record does not open under the
/// passphrase, and also when what it holds is no key: the two are not told
/// apart.
pub fn load_signing_key(vault: &KeyVault, alias: &str, passphrase: &str) -> (r: Result<SigningKey>)
    ensures
        match r {
            Ok(key) => {
                &&& lookup(vault@, alias@) matches Some(record)
                &&& spec_decrypt(record, passphrase.spec_bytes(), vault.spec_rounds())
                    matches Some(secret)
                &&& valid_secret(secret)
                &&& key@ == padded_secret(secret)
            },
            Err(e) => match lookup(vault@, alias@) {
                None => e matches MtmfError::KeyNotFound(missing) && missing@ == alias@,
                Some(record) => {
                    &&& e == MtmfError::DecryptionFailed
                    &&& match spec_decrypt(record, passphrase.spec_bytes(), vault.spec_rounds()) {
                        None => true,
                        Some(secret) => !valid_secret(secret),
                    }
                },
            },
        },
{
    match vault.get(alias) {
        None => Err(MtmfError::KeyNotFound(String::from_str(alias))),
        Some(record) => {
            match decrypt_key(record, passphrase, vault.rounds) {
                Err(e) => Err(e),
                Ok(secret) => {
                    let parsed = SigningKey::from_slice(secret.as_slice());
                    let mut secret = secret;
                    wipe(&mut secret);
                    match parsed {
                        Ok(key) => Ok(key),
                        Err(_) => Err(MtmfError::DecryptionFailed),
                    }
                },
            }
        },
    }
}

/// Importing the text that `export` returns for a key gives that key
/// again, and so the same public key: the hexadecimal form of 32 bytes that
/// the curve accepts is read back as exactly those bytes.
pub proof fn lemma_export_then_import(secret: Seq<u8>)
    requires
        secret.len() == 32,
        valid_secret(secret),
    ensures
        spec_import_secret(encode_utf8(hex_text(secret))) == Some(secret),
{
    lemma_hex_text_bytes(secret);
    lemma_unhex_hex(secret);
}

} // verus!
