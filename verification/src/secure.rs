//! Secure-storage value types.
//!
//! Secrets are wrapped in types that zero their memory on drop and show nothing
//! of their contents.

use vstd::prelude::*;
use zeroize::Zeroizing;

verus! {

/// A password supplied by the user, in a `zeroize::Zeroizing` vector. Never
/// serialized, zeroed on drop.
#[verifier::external_body]
pub struct Secret(Zeroizing<Vec<u8>>);

/// A 32-byte symmetric key, in a `zeroize::Zeroizing` array. Zeroed on drop;
/// never printed or serialized.
#[verifier::external_body]
pub struct SecretKey(Zeroizing<[u8; 32]>);

/// The bytes that a secret holds.
pub uninterp spec fn secret_bytes(s: Secret) -> Seq<u8>;

/// The bytes that a key holds.
pub uninterp spec fn key_bytes(k: SecretKey) -> Seq<u8>;

/// `zeroize::Zeroizing::new` on a vector. Claimed: the wrapper holds its bytes.
#[verifier::external_body]
fn wrap_bytes(bytes: Vec<u8>) -> (r: Secret)
    ensures
        secret_bytes(r) == bytes@,
{
    Secret(Zeroizing::new(bytes))
}

/// The dereference of `zeroize::Zeroizing`. Claimed: it shows the bytes held.
#[verifier::external_body]
fn show_bytes(s: &Secret) -> (r: &[u8])
    ensures
        r@ == secret_bytes(*s),
{
    &s.0
}

/// `zeroize::Zeroizing::new` on a key. Claimed: the wrapper holds its bytes.
#[verifier::external_body]
fn wrap_key(bytes: [u8; 32]) -> (r: SecretKey)
    ensures
        key_bytes(r) == bytes@,
{
    SecretKey(Zeroizing::new(bytes))
}

/// The dereference of `zeroize::Zeroizing`. Claimed: it shows the bytes held.
#[verifier::external_body]
fn show_key(k: &SecretKey) -> (r: &[u8; 32])
    ensures
        r@ == key_bytes(*k),
{
    &k.0
}

/// `zeroize::Zeroize::zeroize` on a string. Claimed: nothing is left in it. That
/// its memory is overwritten is not stated.
#[verifier::external_body]
fn wipe(s: &mut String)
    ensures
        final(s)@.len() == 0,
{
    zeroize::Zeroize::zeroize(s);
}

impl Secret {
    /// Wraps secret bytes.
    #[must_use]
    pub fn new(bytes: Vec<u8>) -> (r: Secret)
        ensures
            secret_bytes(r) == bytes@,
    {
        wrap_bytes(bytes)
    }

    /// The secret that holds the UTF-8 bytes of `s`; `s` itself is wiped.
    #[must_use]
    pub fn from_string(s: String) -> (r: Secret)
        ensures
            secret_bytes(r) == vstd::utf8::encode_utf8(s@),
    {
        let mut s = s;
        let bytes = s.as_str().as_bytes_vec();
        let secret = Secret::new(bytes);
        wipe(&mut s);
        secret
    }

    /// Borrows the secret bytes.
    #[must_use]
    pub fn expose(&self) -> (r: &[u8])
        ensures
            r@ == secret_bytes(*self),
    {
        show_bytes(self)
    }

    /// Length in bytes.
    #[must_use]
    pub fn len(&self) -> (r: usize)
        ensures
            r == secret_bytes(*self).len(),
    {
        show_bytes(self).len()
    }

    /// Whether the secret is empty.
    #[must_use]
    pub fn is_empty(&self) -> (r: bool)
        ensures
            r == (secret_bytes(*self).len() == 0),
    {
        self.len() == 0
    }

    /// What diagnostics print in place of the secret.
    #[must_use]
    pub fn debug_text(&self) -> (r: &'static str)
        ensures
            r@ == "Secret(<redacted>)"@,
    {
        "Secret(<redacted>)"
    }
}

impl SecretKey {
    /// Wraps raw key bytes.
    #[must_use]
    pub fn from_bytes(bytes: [u8; 32]) -> (r: SecretKey)
        ensures
            key_bytes(r) == bytes@,
    {
        wrap_key(bytes)
    }

    /// Borrows the key bytes.
    #[must_use]
    pub fn as_bytes(&self) -> (r: &[u8; 32])
        ensures
            r@ == key_bytes(*self),
    {
        show_key(self)
    }

    /// What diagnostics print in place of the key.
    #[must_use]
    pub fn debug_text(&self) -> (r: &'static str)
        ensures
            r@ == "SecretKey(<redacted>)"@,
    {
        "SecretKey(<redacted>)"
    }
}

impl Clone for SecretKey {
    fn clone(&self) -> (r: SecretKey)
        ensures
            key_bytes(r) == key_bytes(*self),
    {
        SecretKey::from_bytes(*self.as_bytes())
    }
}

/// A random salt for key derivation.
#[derive(Debug, PartialEq, Eq)]
pub struct Salt(pub Vec<u8>);

/// Argon2id cost parameters.
#[derive(Debug, PartialEq, Eq)]
pub struct KdfParams {
    /// Memory cost in KiB.
    pub m_cost: u32,
    /// Iteration cost.
    pub t_cost: u32,
    /// Degree of parallelism.
    pub p_cost: u32,
    /// The salt.
    pub salt: Salt,
}

impl KdfParams {
    /// Interactive defaults: 64 MiB, 3 passes, one lane.
    #[must_use]
    pub fn interactive(salt: Salt) -> (r: KdfParams)
        ensures
            r.m_cost == 65_536,
            r.t_cost == 3,
            r.p_cost == 1,
            r.salt == salt,
    {
        KdfParams { m_cost: 65_536, t_cost: 3, p_cost: 1, salt }
    }
}

/// The AEAD algorithm used to seal a blob.
#[derive(Debug, Clone, Copy, PartialEq, Eq, Structural)]
pub enum AeadAlg {
    /// XChaCha20-Poly1305.
    XChaCha20Poly1305,
}

/// A sealed blob at rest.
#[derive(Debug, PartialEq, Eq)]
pub struct SealedBlob {
    /// The AEAD algorithm.
    pub alg: AeadAlg,
    /// The nonce.
    pub nonce: Vec<u8>,
    /// The ciphertext and authentication tag.
    pub ciphertext: Vec<u8>,
    /// The KDF parameters, present when the key was derived from a password.
    pub kdf: Option<KdfParams>,
}

} // verus!
