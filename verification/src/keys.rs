//! Identity material for one session: signing identity, owner delegation,
//! encryption keypair and symmetric key.
//!
//! Keys are modeled as plain machine words so that ownership checks are a
//! pure equality predicate over key values, independent of any particular
//! cryptographic library. A keypair is well formed when its public half is
//! the fixed derivation of its secret half.

use vstd::prelude::*;

use crate::errors::Error;

verus! {

/// Mask folded into a secret to derive the matching public key.
pub const KEY_DERIVATION_MASK: u64 = 0xA5A5_5A5A_C3C3_3C3Cu64;

/// The public half of a keypair: a participant's address-space identity.
#[derive(Clone, Copy, PartialEq, Eq, Structural, Hash, Debug)]
pub struct PublicKey {
    pub value: u64,
}

/// The secret half of a signing or encryption keypair.
#[derive(Clone, Copy, PartialEq, Eq, Structural, Hash, Debug)]
pub struct SecretKey {
    pub value: u64,
}

/// A symmetric encryption key.
#[derive(Clone, Copy, PartialEq, Eq, Structural, Hash, Debug)]
pub struct SymmetricKey {
    pub value: u64,
}

/// The public key that a given secret derives.
pub open spec fn spec_public_of(secret: u64) -> u64 {
    secret ^ KEY_DERIVATION_MASK
}

/// Derives the public key value of a secret.
pub fn public_of(secret: u64) -> (r: u64)
    ensures
        r == spec_public_of(secret),
{
    secret ^ KEY_DERIVATION_MASK
}

/// A full signing identity: secret key plus the public key it derives.
#[derive(Clone, Copy, PartialEq, Eq, Structural, Hash, Debug)]
pub struct ClientFullId {
    pub public: PublicKey,
    pub secret: SecretKey,
}

impl ClientFullId {
    /// The two halves belong together.
    pub open spec fn spec_wf(&self) -> bool {
        self.public.value == spec_public_of(self.secret.value)
    }

    /// Builds the identity that a secret determines.
    pub fn new(secret: SecretKey) -> (r: ClientFullId)
        ensures
            r.spec_wf(),
            r.secret == secret,
    {
        ClientFullId { public: PublicKey { value: public_of(secret.value) }, secret }
    }

    /// The public identity half.
    pub fn public_id(&self) -> (r: PublicKey)
        ensures
            r == self.public,
    {
        self.public
    }
}

/// A participant's verifiable public identity, as a request carries it.
#[derive(Clone, Copy, PartialEq, Eq, Structural, Hash, Debug)]
pub struct PublicId {
    pub public_key: PublicKey,
}

/// A signing identity wrapped for use as the session's acting key.
#[derive(Clone, Copy, PartialEq, Eq, Structural, Hash, Debug)]
pub enum SafeKey {
    App(ClientFullId),
}

impl SafeKey {
    /// Wraps an application identity.
    pub fn app(full_id: ClientFullId) -> (r: SafeKey)
        ensures
            r == SafeKey::App(full_id),
    {
        SafeKey::App(full_id)
    }

    /// The public key this acting key signs as.
    pub fn public_key(&self) -> (r: PublicKey)
        ensures
            r == self.spec_public_key(),
    {
        match self {
            SafeKey::App(full_id) => full_id.public,
        }
    }

    /// The public key of the wrapped identity.
    pub open spec fn spec_public_key(&self) -> PublicKey {
        match self {
            SafeKey::App(full_id) => full_id.public,
        }
    }
}

/// The key bundle derived for one session: signing identity, owning public
/// key (which may differ from the identity when authorization is delegated),
/// encryption keypair, and symmetric key. Immutable once created.
#[derive(Clone, Copy, PartialEq, Eq, Structural, Hash, Debug)]
pub struct AppKeys {
    pub app_full_id: ClientFullId,
    pub owner_key: PublicKey,
    pub enc_public_key: PublicKey,
    pub enc_secret_key: SecretKey,
    pub enc_key: SymmetricKey,
}

impl AppKeys {
    /// Both keypairs of the bundle are internally consistent.
    pub open spec fn spec_wf(&self) -> bool {
        &&& self.app_full_id.spec_wf()
        &&& self.enc_public_key.value == spec_public_of(self.enc_secret_key.value)
    }

    /// Derives a bundle from fresh secrets, owned by its own identity.
    pub fn new(client_id: ClientFullId, enc_secret: SecretKey, sym: SymmetricKey) -> (r: AppKeys)
        requires
            client_id.spec_wf(),
        ensures
            r.spec_wf(),
            r.app_full_id == client_id,
            r.owner_key == client_id.public,
            r.enc_secret_key == enc_secret,
            r.enc_key == sym,
    {
        AppKeys {
            app_full_id: client_id,
            owner_key: client_id.public,
            enc_public_key: PublicKey { value: public_of(enc_secret.value) },
            enc_secret_key: enc_secret,
            enc_key: sym,
        }
    }

    /// Wraps a caller-supplied bundle under a (possibly delegated) owner key.
    /// Rejects a malformed bundle; performs no other validation.
    pub fn from_existing(keys: AppKeys, owner: PublicKey) -> (r: Result<AppKeys, Error>)
        ensures
            keys.spec_wf() ==> r == Ok::<AppKeys, Error>(
                AppKeys { owner_key: owner, ..keys },
            ),
            !keys.spec_wf() ==> r == Err::<AppKeys, Error>(Error::InvalidKeyMaterial),
    {
        let id_ok = keys.app_full_id.public.value == public_of(keys.app_full_id.secret.value);
        let enc_ok = keys.enc_public_key.value == public_of(keys.enc_secret_key.value);
        if id_ok && enc_ok {
            Ok(AppKeys { owner_key: owner, ..keys })
        } else {
            Err(Error::InvalidKeyMaterial)
        }
    }

    /// The bundle's signing identity as an acting key.
    pub fn app_safe_key(&self) -> (r: SafeKey)
        ensures
            r == SafeKey::App(self.app_full_id),
    {
        SafeKey::App(self.app_full_id)
    }

    /// The public half of the signing identity.
    pub fn public_key(&self) -> (r: PublicKey)
        ensures
            r == self.app_full_id.public,
    {
        self.app_full_id.public
    }
}

/// Relies on rand::random: draws a value of the requested type from the
/// thread-local generator. Nothing is promised of the value.
pub assume_specification<T>[ rand::random::<T> ]() -> (r: T)
    where
        rand::distributions::Standard: rand::distributions::Distribution<T>,
;

/// Produces a fresh bundle from random secrets: a random signing identity
/// owned by itself, a random encryption keypair and a random symmetric key.
/// Always succeeds; nothing is promised of the drawn secrets.
pub fn generate_keys() -> (r: AppKeys)
    ensures
        r.spec_wf(),
        r.owner_key == r.app_full_id.public,
{
    let client_id = ClientFullId::new(SecretKey { value: rand::random::<u64>() });
    let enc_secret = SecretKey { value: rand::random::<u64>() };
    let sym = SymmetricKey { value: rand::random::<u64>() };
    AppKeys::new(client_id, enc_secret, sym)
}

} // verus!
