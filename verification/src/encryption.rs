//! Password-based authenticated encryption of the folder list.
//!
//! A key is derived from the password with PBKDF2 (HMAC-SHA-256) and the data is
//! sealed with ChaCha20-Poly1305 under empty associated data. Both primitives are
//! `ring`'s; what this module believes of them is written on the private
//! functions that call them.

use ring::aead::{Aad, LessSafeKey, Nonce, UnboundKey, CHACHA20_POLY1305};
use ring::error::Unspecified;
use ring::pbkdf2;
use ring::rand::{SecureRandom, SystemRandom};
use std::num::NonZeroU32;
use vstd::prelude::*;
use vstd::slice::{slice_subrange, slice_to_vec};
use vstd::string::StringSliceAdditionalSpecFns;

verus! {

/// The number of iterations for PBKDF2.
pub const PBKDF2_ITERATIONS: u32 = 100_000;

/// The length of the salt for PBKDF2 in bytes.
pub const PBKDF2_SALT_LEN: usize = 16;

/// The length of the nonce of the cipher in bytes.
pub const NONCE_LEN: usize = 12;

/// The length of the key of the cipher in bytes.
pub const KEY_LEN: usize = 32;

/// The length of the authentication tag that sealing appends, in bytes.
pub const TAG_LEN: usize = 16;

/// The length of what precedes the ciphertext in a stored blob: salt, then nonce.
pub const HEADER_LEN: usize = 28;

/// The longest plaintext that the cipher seals under one nonce, in bytes.
pub const MAX_PLAINTEXT_LEN: u64 = 274_877_906_880;

/// The longest password and the longest salt that key derivation is asked to
/// hash, in bytes. It lies well below the limit of SHA-256's length counter.
pub const MAX_KDF_INPUT_LEN: u64 = 0x1000_0000_0000_0000;

/// The error that `ring` reports, without detail, for every failure.
#[verifier::external_type_specification]
#[verifier::external_body]
pub struct ExUnspecified(Unspecified);

/// The `len` bytes that PBKDF2 with HMAC-SHA-256 derives from `secret` and
/// `salt` in `iterations` rounds.
pub uninterp spec fn pbkdf2_hmac_sha256(
    secret: Seq<u8>,
    salt: Seq<u8>,
    iterations: u32,
    len: nat,
) -> Seq<u8>;

/// The ciphertext, followed by its tag, that ChaCha20-Poly1305 produces for
/// `plaintext` under `key` and `nonce` with empty associated data.
pub uninterp spec fn chacha20_poly1305_seal(
    key: Seq<u8>,
    nonce: Seq<u8>,
    plaintext: Seq<u8>,
) -> Seq<u8>;

/// What ChaCha20-Poly1305 recovers from `sealed` under `key` and `nonce` with
/// empty associated data, or `None` where it rejects `sealed`.
pub uninterp spec fn chacha20_poly1305_open(
    key: Seq<u8>,
    nonce: Seq<u8>,
    sealed: Seq<u8>,
) -> Option<Seq<u8>>;

/// Why the codec gave no result.
#[derive(Clone, Copy, Debug, PartialEq, Eq, Structural)]
pub enum VaultError {
    /// The operating system's random source gave no bytes.
    RandomSource,
    /// The plaintext is longer than `MAX_PLAINTEXT_LEN`.
    PlaintextTooLong,
    /// The blob does not open under the password: the password is wrong or
    /// the blob was altered. The two cannot be told apart.
    AuthenticationFailure,
    /// The stored form is too short to hold a salt and a nonce.
    Truncated,
    /// The password is longer than `MAX_KDF_INPUT_LEN`.
    PasswordTooLong,
}

/// Data structure to save: Salt + Nonce + Ciphertext (including Tag)
#[derive(Debug)]
pub struct EncryptedFile {
    pub salt: [u8; PBKDF2_SALT_LEN],
    pub nonce: [u8; NONCE_LEN],
    pub ciphertext_with_tag: Vec<u8>,
}

/// An `EncryptedFile` as three byte sequences.
pub struct EncryptedFileView {
    pub salt: Seq<u8>,
    pub nonce: Seq<u8>,
    pub ciphertext_with_tag: Seq<u8>,
}

impl View for EncryptedFile {
    type V = EncryptedFileView;

    open spec fn view(&self) -> EncryptedFileView {
        EncryptedFileView {
            salt: self.salt@,
            nonce: self.nonce@,
            ciphertext_with_tag: self.ciphertext_with_tag@,
        }
    }
}

impl EncryptedFileView {
    /// The field lengths of every blob that encryption produces.
    pub open spec fn well_formed(self) -> bool {
        &&& self.salt.len() == PBKDF2_SALT_LEN
        &&& self.nonce.len() == NONCE_LEN
        &&& self.ciphertext_with_tag.len() >= TAG_LEN
    }

    /// The stored form: the three fields one after the other, with nothing
    /// between them.
    pub open spec fn stored(self) -> Seq<u8> {
        self.salt + self.nonce + self.ciphertext_with_tag
    }
}

/// The blob that a stored form of at least `HEADER_LEN` bytes stands for.
pub open spec fn blob_of(bytes: Seq<u8>) -> EncryptedFileView {
    EncryptedFileView {
        salt: bytes.subrange(0, PBKDF2_SALT_LEN as int),
        nonce: bytes.subrange(PBKDF2_SALT_LEN as int, HEADER_LEN as int),
        ciphertext_with_tag: bytes.subrange(HEADER_LEN as int, bytes.len() as int),
    }
}

/// Whether key derivation takes a password, or a salt, of these bytes.
pub open spec fn kdf_input_fits(bytes: Seq<u8>) -> bool {
    bytes.len() <= MAX_KDF_INPUT_LEN
}

/// The key for `password` and `salt`.
pub open spec fn derive_key_spec(password: Seq<u8>, salt: Seq<u8>) -> Seq<u8> {
    pbkdf2_hmac_sha256(password, salt, PBKDF2_ITERATIONS, KEY_LEN as nat)
}

/// The blob that encrypting `plaintext` under `password` gives once `salt` and
/// `nonce` are chosen.
pub open spec fn encrypt_spec(
    plaintext: Seq<u8>,
    password: Seq<u8>,
    salt: Seq<u8>,
    nonce: Seq<u8>,
) -> EncryptedFileView {
    EncryptedFileView {
        salt,
        nonce,
        ciphertext_with_tag: chacha20_poly1305_seal(
            derive_key_spec(password, salt),
            nonce,
            plaintext,
        ),
    }
}

/// What `blob` decrypts to under `password`, or `None` where it does not open.
pub open spec fn decrypt_spec(blob: EncryptedFileView, password: Seq<u8>) -> Option<Seq<u8>> {
    chacha20_poly1305_open(
        derive_key_spec(password, blob.salt),
        blob.nonce,
        blob.ciphertext_with_tag,
    )
}

impl EncryptedFile {
    /// The stored form of the blob: salt, nonce and ciphertext with tag, one
    /// after the other.
    pub fn to_bytes(&self) -> (bytes: Vec<u8>)
        ensures
            bytes@ == self@.stored(),
            bytes@.len() == HEADER_LEN + self.ciphertext_with_tag@.len(),
    {
        let mut bytes: Vec<u8> = Vec::new();
        bytes.extend_from_slice(self.salt.as_slice());
        bytes.extend_from_slice(self.nonce.as_slice());
        bytes.extend_from_slice(self.ciphertext_with_tag.as_slice());
        bytes
    }

    /// Reads a blob from its stored form. The salt and the nonce stand at fixed
    /// offsets and all that follows is ciphertext with tag, so only a form too
    /// short to hold salt and nonce is refused.
    pub fn from_bytes(bytes: &[u8]) -> (res: Option<EncryptedFile>)
        ensures
            res is Some <==> bytes@.len() >= HEADER_LEN,
            res matches Some(blob) ==> blob@ == blob_of(bytes@),
    {
        if bytes.len() < HEADER_LEN {
            return None;
        }
        let mut salt = [0u8; PBKDF2_SALT_LEN];
        let mut i: usize = 0;
        while i < PBKDF2_SALT_LEN
            invariant
                i <= PBKDF2_SALT_LEN,
                bytes@.len() >= HEADER_LEN,
                forall|j: int| 0 <= j < i ==> salt@[j] == bytes@[j],
            decreases PBKDF2_SALT_LEN - i,
        {
            salt[i] = bytes[i];
            i += 1;
        }
        let mut nonce = [0u8; NONCE_LEN];
        let mut k: usize = 0;
        while k < NONCE_LEN
            invariant
                k <= NONCE_LEN,
                bytes@.len() >= HEADER_LEN,
                forall|j: int| 0 <= j < k ==> nonce@[j] == bytes@[PBKDF2_SALT_LEN + j],
            decreases NONCE_LEN - k,
        {
            nonce[k] = bytes[PBKDF2_SALT_LEN + k];
            k += 1;
        }
        let rest = slice_subrange(bytes, HEADER_LEN, bytes.len());
        let blob = EncryptedFile { salt, nonce, ciphertext_with_tag: slice_to_vec(rest) };
        assert(blob@.salt =~= blob_of(bytes@).salt);
        assert(blob@.nonce =~= blob_of(bytes@).nonce);
        Some(blob)
    }
}

/// Writing a blob and reading it back gives the same blob.
pub proof fn lemma_stored_then_read(blob: EncryptedFileView)
    requires
        blob.salt.len() == PBKDF2_SALT_LEN,
        blob.nonce.len() == NONCE_LEN,
    ensures
        blob.stored().len() == HEADER_LEN + blob.ciphertext_with_tag.len(),
        blob_of(blob.stored()) == blob,
{
    let read = blob_of(blob.stored());
    assert(read.salt =~= blob.salt);
    assert(read.nonce =~= blob.nonce);
    assert(read.ciphertext_with_tag =~= blob.ciphertext_with_tag);
}

/// Reading a stored form and writing it again gives the same bytes: the layout
/// has no padding and no field that reading drops.
pub proof fn lemma_read_then_stored(bytes: Seq<u8>)
    requires
        bytes.len() >= HEADER_LEN,
    ensures
        blob_of(bytes).salt.len() == PBKDF2_SALT_LEN,
        blob_of(bytes).nonce.len() == NONCE_LEN,
        blob_of(bytes).stored() == bytes,
{
}

/// Calls `ring::rand::SystemRandom::fill` on a fresh array of `N` bytes.
/// Nothing is claimed of the bytes, nor that the call succeeds.
#[verifier::external_body]
fn system_random<const N: usize>() -> Result<[u8; N], Unspecified> {
    let mut bytes = [0u8; N];
    SystemRandom::new().fill(&mut bytes)?;
    Ok(bytes)
}

/// Calls `ring::pbkdf2::derive` with `PBKDF2_HMAC_SHA256`, which overwrites
/// `out` with the derived key. The call keeps the length of `out` and what it
/// writes depends on the four inputs alone. The `requires` leaves out the inputs
/// on which `derive` panics: no rounds, more output than PBKDF2 defines, and
/// inputs too long to hash.
#[verifier::external_body]
fn pbkdf2_derive(iterations: u32, salt: &[u8], secret: &[u8], out: &mut Vec<u8>)
    requires
        iterations > 0,
        salt@.len() <= MAX_KDF_INPUT_LEN,
        secret@.len() <= MAX_KDF_INPUT_LEN,
        old(out)@.len() <= u32::MAX,
    ensures
        final(out)@.len() == old(out)@.len(),
        final(out)@ == pbkdf2_hmac_sha256(secret@, salt@, iterations, old(out)@.len()),
{
    let rounds = NonZeroU32::new(iterations).unwrap();
    pbkdf2::derive(pbkdf2::PBKDF2_HMAC_SHA256, rounds, salt, secret, out);
}

/// Calls `ring::aead::LessSafeKey::seal_in_place_append_tag` with
/// `CHACHA20_POLY1305` and empty associated data on a copy of `plaintext`. The
/// call fails exactly on a plaintext longer than the cipher allows. What it
/// returns is the plaintext's length plus the tag's, depends on the three inputs
/// alone, and opens under the same key and nonce to the plaintext. The key has
/// the cipher's key length, as `UnboundKey::new` asks.
#[verifier::external_body]
fn aead_seal(key: &[u8], nonce: [u8; NONCE_LEN], plaintext: &[u8]) -> (res: Result<
    Vec<u8>,
    Unspecified,
>)
    requires
        key@.len() == KEY_LEN,
    ensures
        res is Ok <==> plaintext@.len() <= MAX_PLAINTEXT_LEN,
        res matches Ok(sealed) ==> {
            &&& sealed@.len() == plaintext@.len() + TAG_LEN
            &&& sealed@ == chacha20_poly1305_seal(key@, nonce@, plaintext@)
            &&& chacha20_poly1305_open(key@, nonce@, sealed@) == Some(plaintext@)
        },
{
    let key = LessSafeKey::new(UnboundKey::new(&CHACHA20_POLY1305, key).unwrap());
    let mut buffer = plaintext.to_vec();
    let nonce = Nonce::assume_unique_for_key(nonce);
    key.seal_in_place_append_tag(nonce, Aad::empty(), &mut buffer)?;
    Ok(buffer)
}

/// Calls `ring::aead::LessSafeKey::open_in_place` with `CHACHA20_POLY1305` and
/// empty associated data on `sealed`. Whether the call succeeds and what it
/// returns depend on the three inputs alone. It rejects an input shorter than a
/// tag, and what it returns is shorter than the input by the tag. The key has
/// the cipher's key length, as `UnboundKey::new` asks.
#[verifier::external_body]
fn aead_open(key: &[u8], nonce: [u8; NONCE_LEN], sealed: Vec<u8>) -> (res: Result<
    Vec<u8>,
    Unspecified,
>)
    requires
        key@.len() == KEY_LEN,
    ensures
        res matches Ok(plaintext) ==> {
            &&& chacha20_poly1305_open(key@, nonce@, sealed@) == Some(plaintext@)
            &&& plaintext@.len() + TAG_LEN == sealed@.len()
        },
        res is Err ==> chacha20_poly1305_open(key@, nonce@, sealed@) is None,
        sealed@.len() < TAG_LEN ==> res is Err,
{
    let key = LessSafeKey::new(UnboundKey::new(&CHACHA20_POLY1305, key).unwrap());
    let mut buffer = sealed;
    let nonce = Nonce::assume_unique_for_key(nonce);
    let plaintext = key.open_in_place(nonce, Aad::empty(), &mut buffer)?;
    Ok(plaintext.to_vec())
}

/// Derives a key from a password and salt using PBKDF2.
///
/// The key depends on the password's bytes and the salt alone, and has the
/// cipher's key length. There is no key for a password or a salt longer than
/// `MAX_KDF_INPUT_LEN`.
pub fn pbkdf2_derive_key(password: &str, salt: &[u8]) -> (res: Option<Vec<u8>>)
    ensures
        res is Some <==> kdf_input_fits(password.spec_bytes()) && kdf_input_fits(salt@),
        res matches Some(key) ==> {
            &&& key@.len() == KEY_LEN
            &&& key@ == derive_key_spec(password.spec_bytes(), salt@)
        },
{
    let secret = password.as_bytes();
    if secret.len() as u64 > MAX_KDF_INPUT_LEN || salt.len() as u64 > MAX_KDF_INPUT_LEN {
        return None;
    }
    let mut key_bytes = vec![0u8; KEY_LEN];
    pbkdf2_derive(PBKDF2_ITERATIONS, salt, secret, &mut key_bytes);
    Some(key_bytes)
}

/// Encrypts `plaintext` under `password` with the given salt and nonce.
///
/// The caller answers for the nonce: one nonce must never seal two plaintexts
/// under one password and salt.
pub fn encrypt_with(
    plaintext: &[u8],
    password: &str,
    salt: [u8; PBKDF2_SALT_LEN],
    nonce: [u8; NONCE_LEN],
) -> (res: Result<EncryptedFile, VaultError>)
    ensures
        match res {
            Ok(blob) => {
                &&& kdf_input_fits(password.spec_bytes())
                &&& plaintext@.len() <= MAX_PLAINTEXT_LEN
                &&& blob@ == encrypt_spec(plaintext@, password.spec_bytes(), salt@, nonce@)
                &&& blob@.well_formed()
                &&& blob.ciphertext_with_tag@.len() == plaintext@.len() + TAG_LEN
                &&& decrypt_spec(blob@, password.spec_bytes()) == Some(plaintext@)
            },
            Err(e) => if !kdf_input_fits(password.spec_bytes()) {
                e == VaultError::PasswordTooLong
            } else {
                e == VaultError::PlaintextTooLong && plaintext@.len() > MAX_PLAINTEXT_LEN
            },
        },
{
    let key_bytes = match pbkdf2_derive_key(password, salt.as_slice()) {
        Some(key_bytes) => key_bytes,
        None => {
            return Err(VaultError::PasswordTooLong);
        },
    };
    match aead_seal(key_bytes.as_slice(), nonce, plaintext) {
        Ok(buffer) => Ok(EncryptedFile { salt, nonce, ciphertext_with_tag: buffer }),
        Err(_) => Err(VaultError::PlaintextTooLong),
    }
}

/// Encrypts the content of a file using a password.
///
/// A fresh salt and a fresh nonce are drawn from the operating system for every
/// call. Whatever they are, the blob has the fixed layout and decrypts under the
/// same password to the plaintext. The call fails on a password or a plaintext
/// that is too long, and where the random source fails.
pub fn encrypt_file(plaintext: &[u8], password: &str) -> (res: Result<EncryptedFile, VaultError>)
    ensures
        match res {
            Ok(blob) => {
                &&& kdf_input_fits(password.spec_bytes())
                &&& plaintext@.len() <= MAX_PLAINTEXT_LEN
                &&& blob@ == encrypt_spec(
                    plaintext@,
                    password.spec_bytes(),
                    blob.salt@,
                    blob.nonce@,
                )
                &&& blob@.well_formed()
                &&& blob.ciphertext_with_tag@.len() == plaintext@.len() + TAG_LEN
                &&& decrypt_spec(blob@, password.spec_bytes()) == Some(plaintext@)
            },
            Err(VaultError::PasswordTooLong) => !kdf_input_fits(password.spec_bytes()),
            Err(VaultError::PlaintextTooLong) => {
                &&& kdf_input_fits(password.spec_bytes())
                &&& plaintext@.len() > MAX_PLAINTEXT_LEN
            },
            Err(e) => e == VaultError::RandomSource && kdf_input_fits(password.spec_bytes()),
        },
{
    if password.as_bytes().len() as u64 > MAX_KDF_INPUT_LEN {
        return Err(VaultError::PasswordTooLong);
    }
    let salt = match system_random::<PBKDF2_SALT_LEN>() {
        Ok(bytes) => bytes,
        Err(_) => {
            return Err(VaultError::RandomSource);
        },
    };
    let nonce = match system_random::<NONCE_LEN>() {
        Ok(bytes) => bytes,
        Err(_) => {
            return Err(VaultError::RandomSource);
        },
    };
    encrypt_with(plaintext, password, salt, nonce)
}

/// Decrypts an encrypted file using the password.
///
/// The plaintext comes back exactly where the blob opens under the key that the
/// password and the blob's salt give. A wrong password and an altered blob give
/// the same error.
pub fn decrypt_file(encrypted_file: EncryptedFile, password: &str) -> (res: Result<
    Vec<u8>,
    VaultError,
>)
    ensures
        match res {
            Ok(plaintext) => {
                &&& kdf_input_fits(password.spec_bytes())
                &&& decrypt_spec(encrypted_file@, password.spec_bytes()) == Some(plaintext@)
                &&& plaintext@.len() + TAG_LEN == encrypted_file.ciphertext_with_tag@.len()
            },
            Err(e) => if !kdf_input_fits(password.spec_bytes()) {
                e == VaultError::PasswordTooLong
            } else {
                &&& e == VaultError::AuthenticationFailure
                &&& decrypt_spec(encrypted_file@, password.spec_bytes()) is None
            },
        },
        !encrypted_file@.well_formed() ==> res is Err,
{
    let key_bytes = match pbkdf2_derive_key(password, encrypted_file.salt.as_slice()) {
        Some(key_bytes) => key_bytes,
        None => {
            return Err(VaultError::PasswordTooLong);
        },
    };
    let nonce = encrypted_file.nonce;
    match aead_open(key_bytes.as_slice(), nonce, encrypted_file.ciphertext_with_tag) {
        Ok(plaintext) => Ok(plaintext),
        Err(_) => Err(VaultError::AuthenticationFailure),
    }
}

} // verus!
