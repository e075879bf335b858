//! The secret store: which backend keeps a secret, and the sealed form of a
//! secret that is kept in a file where the system's keyring cannot be used.

use crate::digest::{sha256, sha256_digest};
use crate::fingerprint::MachineSignals;
use crate::text::{opt_text, push_utf8, utf8};
use aes_gcm::aead::{Aead, KeyInit, OsRng};
use aes_gcm::{Aes256Gcm, Nonce};
use keyring::Entry;
use rand::RngCore;
use vstd::prelude::*;
use vstd::slice::slice_subrange;

verus! {

/// The AES-256-GCM ciphertext, tag included, of `plaintext` under `key` and
/// `nonce`, or `None` where the cipher refuses the plaintext.
pub uninterp spec fn aes256_gcm_sealed(key: Seq<u8>, nonce: Seq<u8>, plaintext: Seq<u8>) -> Option<
    Seq<u8>,
>;

/// The plaintext that an AES-256-GCM ciphertext opens to under `key` and
/// `nonce`, or `None` where the ciphertext is not authentic.
pub uninterp spec fn aes256_gcm_opened(key: Seq<u8>, nonce: Seq<u8>, ciphertext: Seq<u8>) -> Option<
    Seq<u8>,
>;

/// Calls `keyring::Entry::new` and reports whether it gave an entry. That
/// depends on the system: nothing is claimed of the answer.
#[verifier::external_body]
fn keyring_has_entry(service: &str, user: &str) -> (available: bool) {
    Entry::new(service, user).is_ok()
}

/// Calls `OsRng.fill_bytes` on twelve bytes. They are random: only their
/// number is claimed.
#[verifier::external_body]
fn random_nonce() -> (nonce: Vec<u8>)
    ensures
        nonce@.len() == 12,
{
    let mut bytes = [0u8; 12];
    OsRng.fill_bytes(&mut bytes);
    bytes.to_vec()
}

/// Calls `Aes256Gcm::encrypt` with the cipher that `new_from_slice` makes of
/// the key. `aes256_gcm_sealed` is the name of its result.
#[verifier::external_body]
fn aes_gcm_encrypt(key: &[u8], nonce: &[u8], plaintext: &[u8]) -> (sealed: Option<Vec<u8>>)
    requires
        key@.len() == 32,
        nonce@.len() == 12,
    ensures
        match sealed {
            Some(c) => aes256_gcm_sealed(key@, nonce@, plaintext@) == Some(c@),
            None => aes256_gcm_sealed(key@, nonce@, plaintext@) is None,
        },
{
    match Aes256Gcm::new_from_slice(key) {
        Ok(cipher) => match cipher.encrypt(Nonce::from_slice(nonce), plaintext) {
            Ok(sealed) => Some(sealed),
            Err(_) => None,
        },
        Err(_) => None,
    }
}

/// Calls `Aes256Gcm::decrypt` with the cipher that `new_from_slice` makes of
/// the key. `aes256_gcm_opened` is the name of its result.
#[verifier::external_body]
fn aes_gcm_decrypt(key: &[u8], nonce: &[u8], ciphertext: &[u8]) -> (opened: Option<Vec<u8>>)
    requires
        key@.len() == 32,
        nonce@.len() == 12,
    ensures
        match opened {
            Some(p) => aes256_gcm_opened(key@, nonce@, ciphertext@) == Some(p@),
            None => aes256_gcm_opened(key@, nonce@, ciphertext@) is None,
        },
{
    match Aes256Gcm::new_from_slice(key) {
        Ok(cipher) => match cipher.decrypt(Nonce::from_slice(nonce), ciphertext) {
            Ok(opened) => Some(opened),
            Err(_) => None,
        },
        Err(_) => None,
    }
}

/// Calls `String::from_utf8`, which gives the text of bytes that are UTF-8 and
/// refuses all others.
#[verifier::external_body]
fn string_from_utf8(bytes: Vec<u8>) -> (text: Option<String>)
    ensures
        text is Some <==> vstd::utf8::valid_utf8(bytes@),
        text matches Some(s) ==> s@ == vstd::utf8::decode_utf8(bytes@),
{
    match String::from_utf8(bytes) {
        Ok(text) => Some(text),
        Err(_) => None,
    }
}

/// Where a secret is kept.
#[derive(Clone, Copy, Debug, PartialEq, Eq, Structural)]
pub enum SecretBackend {
    /// The keyring of the operating system.
    Keyring,
    /// A file, sealed under a key that is derived from the machine.
    EncryptedFile,
}

/// Why a sealed secret could not be made or opened.
#[derive(Clone, Copy, Debug, PartialEq, Eq, Structural)]
pub enum SecretError {
    /// The cipher refused to seal the secret.
    EncryptionFailed,
    /// The sealed data is too short to hold a nonce.
    InvalidData,
    /// The sealed data is not authentic under this machine's key.
    DecryptionFailed,
    /// The opened secret is not UTF-8 text.
    InvalidUtf8,
}

/// The name under which this application keeps its secrets.
pub open spec fn service_name() -> Seq<char> {
    "ParallaxIntelligence"@
}

/// The bytes that the machine's key is the digest of: the machine's identifier
/// where there is one, the system's name, the architecture, and the service's
/// name.
pub open spec fn machine_key_input(
    machine_uid: Option<Seq<char>>,
    os: Seq<char>,
    arch: Seq<char>,
) -> Seq<u8> {
    (match machine_uid {
        Some(uid) => utf8(uid),
        None => Seq::<u8>::empty(),
    }) + utf8(os) + utf8(arch) + utf8(service_name())
}

/// The key under which this machine seals its secrets.
pub open spec fn machine_key(signals: MachineSignals) -> Seq<u8> {
    sha256(machine_key_input(opt_text(signals.machine_uid), signals.os@, signals.arch@))
}

/// The sealed form of `secret` under `key` with `nonce`: the nonce, then the
/// ciphertext.
pub open spec fn sealed_secret(key: Seq<u8>, nonce: Seq<u8>, secret: Seq<char>) -> Result<
    Seq<u8>,
    SecretError,
> {
    match aes256_gcm_sealed(key, nonce, utf8(secret)) {
        Some(ciphertext) => Ok(nonce + ciphertext),
        None => Err(SecretError::EncryptionFailed),
    }
}

/// The secret that sealed `data` opens to under `key`: the first twelve bytes
/// are the nonce, the rest is the ciphertext, and the plaintext must be UTF-8.
pub open spec fn opened_secret(key: Seq<u8>, data: Seq<u8>) -> Result<Seq<char>, SecretError> {
    if data.len() < 12 {
        Err(SecretError::InvalidData)
    } else {
        match aes256_gcm_opened(key, data.subrange(0, 12), data.subrange(12, data.len() as int)) {
            None => Err(SecretError::DecryptionFailed),
            Some(plain) => if vstd::utf8::valid_utf8(plain) {
                Ok(vstd::utf8::decode_utf8(plain))
            } else {
                Err(SecretError::InvalidUtf8)
            },
        }
    }
}

/// Seals `secret` under `key` with `nonce`.
fn seal_secret(key: &[u8], nonce: &[u8], secret: &str) -> (sealed: Result<Vec<u8>, SecretError>)
    requires
        key@.len() == 32,
        nonce@.len() == 12,
    ensures
        match sealed {
            Ok(data) => sealed_secret(key@, nonce@, secret@) == Ok::<Seq<u8>, SecretError>(data@),
            Err(e) => sealed_secret(key@, nonce@, secret@) == Err::<Seq<u8>, SecretError>(e),
        },
{
    match aes_gcm_encrypt(key, nonce, secret.as_bytes()) {
        None => Err(SecretError::EncryptionFailed),
        Some(ciphertext) => {
            let mut data: Vec<u8> = Vec::new();
            data.extend_from_slice(nonce);
            data.extend_from_slice(ciphertext.as_slice());
            assert(data@ =~= nonce@ + ciphertext@);
            Ok(data)
        },
    }
}

/// Opens sealed `data` under `key`.
fn open_secret(key: &[u8], data: &[u8]) -> (opened: Result<String, SecretError>)
    requires
        key@.len() == 32,
    ensures
        match opened {
            Ok(secret) => opened_secret(key@, data@) == Ok::<Seq<char>, SecretError>(secret@),
            Err(e) => opened_secret(key@, data@) == Err::<Seq<char>, SecretError>(e),
        },
{
    if data.len() < 12 {
        return Err(SecretError::InvalidData);
    }
    let nonce = slice_subrange(data, 0, 12);
    let ciphertext = slice_subrange(data, 12, data.len());
    match aes_gcm_decrypt(key, nonce, ciphertext) {
        None => Err(SecretError::DecryptionFailed),
        Some(plain) => match string_from_utf8(plain) {
            Some(secret) => Ok(secret),
            None => Err(SecretError::InvalidUtf8),
        },
    }
}

/// The secret store's settings: whether the system's keyring can be used.
#[derive(Clone, Copy, Debug)]
pub struct SecurityService {
    pub keyring_available: bool,
}

impl SecurityService {
    /// Probes the system's keyring once and settles on a backend. Which one
    /// depends on the system alone.
    pub fn new() -> (service: SecurityService) {
        SecurityService { keyring_available: Self::check_keyring_availability() }
    }

    /// The settings for a system whose keyring is known to be usable or not.
    pub fn with_keyring(keyring_available: bool) -> (service: SecurityService)
        ensures
            service.keyring_available == keyring_available,
    {
        SecurityService { keyring_available }
    }

    /// Whether the system's keyring gives an entry for this application.
    pub fn check_keyring_availability() -> bool {
        keyring_has_entry("ParallaxIntelligence", "test")
    }

    /// Where secrets are kept: in the keyring where it can be used, in a sealed
    /// file otherwise.
    pub open spec fn backend(self) -> SecretBackend {
        if self.keyring_available {
            SecretBackend::Keyring
        } else {
            SecretBackend::EncryptedFile
        }
    }

    /// Where secrets are kept.
    pub fn secret_backend(&self) -> (backend: SecretBackend)
        ensures
            backend == self.backend(),
    {
        if self.keyring_available {
            SecretBackend::Keyring
        } else {
            SecretBackend::EncryptedFile
        }
    }

    /// Derives the key under which this machine seals its secrets.
    pub fn derive_machine_key(&self, signals: &MachineSignals) -> (key: Vec<u8>)
        ensures
            key@ == machine_key(*signals),
            key@.len() == 32,
    {
        let mut input: Vec<u8> = Vec::new();
        match &signals.machine_uid {
            Some(uid) => push_utf8(&mut input, uid.as_str()),
            None => {},
        }
        push_utf8(&mut input, signals.os.as_str());
        push_utf8(&mut input, signals.arch.as_str());
        push_utf8(&mut input, "ParallaxIntelligence");
        assert(input@ =~= machine_key_input(
            opt_text(signals.machine_uid),
            signals.os@,
            signals.arch@,
        ));
        sha256_digest(input.as_slice())
    }

    /// Seals `value` for the fallback file, under this machine's key and a
    /// fresh random nonce. Whatever the nonce came out as, the data begins with
    /// it and is the sealed form of `value` with it.
    pub fn store_encrypted_fallback(&self, signals: &MachineSignals, value: &str) -> (sealed:
        Result<Vec<u8>, SecretError>)
        ensures
            match sealed {
                Ok(data) => data@.len() >= 12 && sealed_secret(
                    machine_key(*signals),
                    data@.subrange(0, 12),
                    value@,
                ) == Ok::<Seq<u8>, SecretError>(data@),
                Err(e) => e == SecretError::EncryptionFailed,
            },
    {
        let key = self.derive_machine_key(signals);
        let nonce = random_nonce();
        let sealed = seal_secret(key.as_slice(), nonce.as_slice(), value);
        assert(sealed matches Ok(data) ==> data@.subrange(0, 12) =~= nonce@);
        sealed
    }

    /// Opens what the fallback file holds, under this machine's key.
    pub fn get_encrypted_fallback(&self, signals: &MachineSignals, data: &[u8]) -> (opened: Result<
        String,
        SecretError,
    >)
        ensures
            match opened {
                Ok(secret) => opened_secret(machine_key(*signals), data@) == Ok::<
                    Seq<char>,
                    SecretError,
                >(secret@),
                Err(e) => opened_secret(machine_key(*signals), data@) == Err::<
                    Seq<char>,
                    SecretError,
                >(e),
            },
    {
        let key = self.derive_machine_key(signals);
        open_secret(key.as_slice(), data)
    }
}

} // verus!
