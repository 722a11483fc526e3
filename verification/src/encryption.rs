//! Encryption at rest for keystroke payloads: a 256-bit key derived
//! from a passphrase by a memory-hard password hash, and authenticated
//! encryption of opaque byte payloads.
//!
//! A sealed payload is `nonce || ciphertext || tag` with a fresh random
//! 96-bit nonce, so sealing the same plaintext twice yields different
//! payloads.  The salt of the key derivation is exposed so that it can
//! be persisted alongside the store; a key derived again from the same
//! passphrase and salt opens earlier payloads.

use vstd::prelude::*;
use vstd::string::StringSliceAdditionalSpecFns;

use aes_gcm::aead::rand_core::RngCore;
use aes_gcm::aead::Aead;
use aes_gcm::KeyInit;

use crate::errors::CryptoError;

verus! {

/// Length in bytes of the random nonce that leads every sealed
/// payload.
pub const NONCE_LEN: usize = 12;

/// Length in bytes of the random key-derivation salt.
pub const SALT_LEN: usize = 16;

/// Length in bytes of the derived symmetric key.
pub const KEY_LEN: usize = 32;

/// The longest plaintext and password length handed to the
/// cryptographic calls; inputs beyond it are rejected up front.
pub const MAX_CRYPTO_INPUT: usize = 0x7fff_ffff;

/// The bytes that the memory-hard password hash derives from a
/// password and a salt; a function of the two alone.
pub uninterp spec fn derived_key(password: Seq<u8>, salt: Seq<u8>) -> Seq<u8>;

/// The ciphertext-with-tag that authenticated encryption produces from
/// a key, a nonce and a plaintext; a function of the three alone.
pub uninterp spec fn gcm_seal(key: Seq<u8>, nonce: Seq<u8>, sealed: Seq<u8>) -> Seq<u8>;

/// What authenticated decryption returns for a key, a nonce and a
/// ciphertext-with-tag: the plaintext for an authentic input, nothing
/// for a tampered or mismatched one.
pub uninterp spec fn gcm_open(key: Seq<u8>, nonce: Seq<u8>, sealed: Seq<u8>) -> Option<Seq<u8>>;

/// What opening a whole payload under a key yields: payloads shorter
/// than the nonce open to nothing, the rest split into nonce and
/// ciphertext.
pub open spec fn opens_to(key: Seq<u8>, payload: Seq<u8>) -> Option<Seq<u8>> {
    if payload.len() < NONCE_LEN {
        None
    } else {
        gcm_open(key, payload.take(NONCE_LEN as int), payload.skip(NONCE_LEN as int))
    }
}

/// Relies on `rand_core::OsRng::fill_bytes` (re-exported by aes-gcm's
/// aead facade): fills a buffer with bytes from the operating system's
/// random source.  Nothing is assumed beyond the length.  Should the
/// operating system's source itself fail, the call aborts the process;
/// like allocation failure this is an environment fault, independent
/// of every input, and no `requires` can exclude it.
#[verifier::external_body]
fn os_random_bytes(n: usize) -> (r: Vec<u8>)
    ensures
        r@.len() == n,
{
    let mut buf = vec![0u8; n];
    aes_gcm::aead::OsRng.fill_bytes(&mut buf);
    buf
}

/// Relies on `argon2::Argon2::hash_password_into` with the default
/// algorithm, version and parameters: the derived bytes are a function
/// of the password and salt alone, and derivation succeeds for every
/// password and salt within the length bounds required here.
#[verifier::external_body]
fn argon2_derive(password: &[u8], salt: &[u8]) -> (r: Vec<u8>)
    requires
        salt@.len() == SALT_LEN,
        password@.len() <= MAX_CRYPTO_INPUT,
    ensures
        r@ == derived_key(password@, salt@),
        r@.len() == KEY_LEN,
{
    let mut key = [0u8; 32];
    argon2::Argon2::default()
        .hash_password_into(password, salt, &mut key)
        .expect("lengths are validated by the caller");
    key.to_vec()
}

/// Relies on `aes_gcm::Aes256Gcm` through the `Aead` trait: sealing is
/// deterministic in key, nonce and plaintext, appends the 16-byte
/// authentication tag, succeeds for every plaintext within the length
/// bound required here, and opening an untampered sealed message under
/// the same key and nonce returns the exact plaintext.
#[verifier::external_body]
fn aes_gcm_seal(key: &[u8], nonce: &[u8], plaintext: &[u8]) -> (r: Vec<u8>)
    requires
        key@.len() == KEY_LEN,
        nonce@.len() == NONCE_LEN,
        plaintext@.len() <= MAX_CRYPTO_INPUT,
    ensures
        r@ == gcm_seal(key@, nonce@, plaintext@),
        r@.len() == plaintext@.len() + 16,
        gcm_open(key@, nonce@, r@) == Some(plaintext@),
{
    let cipher = aes_gcm::Aes256Gcm::new_from_slice(key).expect("key length is validated");
    cipher
        .encrypt(aes_gcm::Nonce::from_slice(nonce), plaintext)
        .expect("plaintext length is validated by the caller")
}

/// Relies on `aes_gcm::Aes256Gcm` through the `Aead` trait: opening is
/// deterministic in key, nonce and input, returns the plaintext for an
/// authentic input — the input minus the 16-byte tag — and an error
/// for a tampered or mismatched one.
#[verifier::external_body]
fn aes_gcm_open(key: &[u8], nonce: &[u8], sealed: &[u8]) -> (r: Result<Vec<u8>, CryptoError>)
    requires
        key@.len() == KEY_LEN,
        nonce@.len() == NONCE_LEN,
    ensures
        (match r {
            Ok(p) => gcm_open(key@, nonce@, sealed@) == Some(p@) && p@.len() + 16
                == sealed@.len(),
            Err(e) => gcm_open(key@, nonce@, sealed@) is None && e == CryptoError::Tampered,
        }),
{
    let cipher = aes_gcm::Aes256Gcm::new_from_slice(key).expect("key length is validated");
    match cipher.decrypt(aes_gcm::Nonce::from_slice(nonce), sealed) {
        Ok(p) => Ok(p),
        Err(_) => Err(CryptoError::Tampered),
    }
}

/// Authenticated encryption under a key derived from a passphrase.
pub struct Encryptor {
    key: Vec<u8>,
    salt: Vec<u8>,
}

impl View for Encryptor {
    type V = Seq<u8>;

    /// The derived symmetric key.
    closed spec fn view(&self) -> Seq<u8> {
        self.key@
    }
}

impl Encryptor {
    /// The salt the key was derived with.
    pub closed spec fn spec_salt(self) -> Seq<u8> {
        self.salt@
    }

    /// The key has the full derived length and the salt the generated
    /// length.
    pub closed spec fn wf(self) -> bool {
        &&& self.key@.len() == KEY_LEN
        &&& self.salt@.len() == SALT_LEN
    }

    /// Derive a key from the passphrase under a freshly generated
    /// random salt.  Fails only when the passphrase is longer than the
    /// key-derivation input bound.
    pub fn new(password: &str) -> (r: Result<Encryptor, CryptoError>)
        ensures
            (match r {
                Ok(enc) => {
                    &&& enc.wf()
                    &&& password.spec_bytes().len() <= MAX_CRYPTO_INPUT
                    &&& enc@ == derived_key(password.spec_bytes(), enc.spec_salt())
                },
                Err(e) => {
                    &&& e == CryptoError::KeyDerivation
                    &&& password.spec_bytes().len() > MAX_CRYPTO_INPUT
                },
            }),
    {
        let pw = password.as_bytes();
        if pw.len() > MAX_CRYPTO_INPUT {
            return Err(CryptoError::KeyDerivation);
        }
        let salt = os_random_bytes(SALT_LEN);
        let key = argon2_derive(pw, salt.as_slice());
        Ok(Encryptor { key, salt })
    }

    /// Derive the key again from the passphrase and a persisted salt,
    /// so that payloads sealed before a restart stay readable.  Fails
    /// exactly when the salt does not have the generated length or the
    /// passphrase is longer than the key-derivation input bound.
    pub fn from_salt(password: &str, salt: &[u8]) -> (r: Result<Encryptor, CryptoError>)
        ensures
            (match r {
                Ok(enc) => {
                    &&& enc.wf()
                    &&& salt@.len() == SALT_LEN
                    &&& password.spec_bytes().len() <= MAX_CRYPTO_INPUT
                    &&& enc.spec_salt() == salt@
                    &&& enc@ == derived_key(password.spec_bytes(), salt@)
                },
                Err(e) => {
                    &&& e == CryptoError::KeyDerivation
                    &&& (salt@.len() != SALT_LEN || password.spec_bytes().len()
                        > MAX_CRYPTO_INPUT)
                },
            }),
    {
        let pw = password.as_bytes();
        if salt.len() != SALT_LEN || pw.len() > MAX_CRYPTO_INPUT {
            return Err(CryptoError::KeyDerivation);
        }
        let mut salt_copy: Vec<u8> = Vec::new();
        salt_copy.extend_from_slice(salt);
        let key = argon2_derive(pw, salt);
        proof {
            assert(salt_copy@ =~= salt@);
        }
        Ok(Encryptor { key, salt: salt_copy })
    }

    /// The salt the key was derived with, for persisting next to the
    /// store.
    pub fn salt(&self) -> (r: &Vec<u8>)
        ensures
            r@ == self.spec_salt(),
    {
        &self.salt
    }

    /// Seal a plaintext: a fresh random nonce, then the ciphertext and
    /// tag.  Fails only when the plaintext is longer than the sealing
    /// input bound.
    pub fn encrypt(&self, plaintext: &[u8]) -> (r: Result<Vec<u8>, CryptoError>)
        requires
            self.wf(),
        ensures
            (match r {
                Ok(payload) => {
                    &&& plaintext@.len() <= MAX_CRYPTO_INPUT
                    &&& payload@.len() == plaintext@.len() + NONCE_LEN + 16
                    &&& payload@.skip(NONCE_LEN as int) == gcm_seal(
                        self@,
                        payload@.take(NONCE_LEN as int),
                        plaintext@,
                    )
                    &&& opens_to(self@, payload@) == Some(plaintext@)
                },
                Err(e) => {
                    &&& e == CryptoError::PlaintextTooLong
                    &&& plaintext@.len() > MAX_CRYPTO_INPUT
                },
            }),
    {
        if plaintext.len() > MAX_CRYPTO_INPUT {
            return Err(CryptoError::PlaintextTooLong);
        }
        let mut payload = os_random_bytes(NONCE_LEN);
        let ghost nonce = payload@;
        let mut sealed = aes_gcm_seal(self.key.as_slice(), payload.as_slice(), plaintext);
        let ghost body = sealed@;
        payload.append(&mut sealed);
        proof {
            assert(payload@.take(NONCE_LEN as int) =~= nonce);
            assert(payload@.skip(NONCE_LEN as int) =~= body);
        }
        Ok(payload)
    }

    /// Open a sealed payload: rejects a payload shorter than the nonce
    /// as truncated, rejects a tampered or mismatched payload, and
    /// otherwise returns the exact original bytes, 28 fewer than the
    /// payload (the nonce and the tag stripped).
    pub fn decrypt(&self, payload: &[u8]) -> (r: Result<Vec<u8>, CryptoError>)
        requires
            self.wf(),
        ensures
            r is Ok <==> opens_to(self@, payload@) is Some,
            (match r {
                Ok(p) => opens_to(self@, payload@) == Some(p@) && p@.len() + NONCE_LEN + 16
                    == payload@.len(),
                Err(e) => {
                    &&& payload@.len() < NONCE_LEN <==> e == CryptoError::TruncatedPayload
                    &&& payload@.len() >= NONCE_LEN <==> e == CryptoError::Tampered
                },
            }),
    {
        if payload.len() < NONCE_LEN {
            return Err(CryptoError::TruncatedPayload);
        }
        let nonce = &payload[0..NONCE_LEN];
        let body = &payload[NONCE_LEN..payload.len()];
        proof {
            assert(nonce@ =~= payload@.take(NONCE_LEN as int));
            assert(body@ =~= payload@.skip(NONCE_LEN as int));
        }
        aes_gcm_open(self.key.as_slice(), nonce, body)
    }

    /// Sealing and then opening under the same encryptor returns the
    /// original bytes exactly, for every plaintext the sealer accepts.
    pub fn round_trip(&self, plaintext: &[u8]) -> (r: Vec<u8>)
        requires
            self.wf(),
            plaintext@.len() <= MAX_CRYPTO_INPUT,
        ensures
            r@ == plaintext@,
    {
        let sealed = match self.encrypt(plaintext) {
            Ok(payload) => payload,
            Err(_) => {
                return vstd::pervasive::unreached();
            },
        };
        match self.decrypt(sealed.as_slice()) {
            Ok(p) => p,
            Err(_) => vstd::pervasive::unreached(),
        }
    }
}

/// Two sealed payloads whose leading nonces differ are different byte
/// sequences; together with the freshness of the random nonce this is
/// why sealing the same plaintext twice yields two different payloads.
pub proof fn lemma_distinct_nonces_distinct_payloads(a: Seq<u8>, b: Seq<u8>)
    requires
        a.len() >= NONCE_LEN,
        b.len() >= NONCE_LEN,
        a.take(NONCE_LEN as int) != b.take(NONCE_LEN as int),
    ensures
        a != b,
{
    if a == b {
        assert(a.take(NONCE_LEN as int) =~= b.take(NONCE_LEN as int));
    }
}

} // verus!
