//! The client session facade: identity material, the bootstrapped
//! connection, and the optional transfer validator, composed behind
//! read-only accessors.
//!
//! An unregistered session is built over freshly generated keys and holds
//! no transfer validator, so mutations are rejected at the session level.
//! An authenticated session wraps caller-supplied keys under a (possibly
//! delegated) owner key and binds a validator to its connection. The
//! embedding that shares one session across tasks guards it with its own
//! lock and hands out these snapshots per call.

use vstd::prelude::*;

use crate::bootstrap::{ConnectionHandle, NetworkTx, REQUEST_TIMEOUT_SECS};
use crate::config::BootstrapConfig;
use crate::errors::Error;
use crate::keys::{generate_keys, AppKeys, PublicKey, SafeKey};
use crate::transfer::{Aggregation, TransferActor};

verus! {

/// The connection-side state of a session: the bootstrapped handle, the
/// round-trip ceiling for requests, and the lifecycle-event sink.
#[derive(Debug)]
pub struct Inner {
    pub connection: ConnectionHandle,
    pub request_timeout_secs: u64,
    pub net_tx: NetworkTx,
}

impl Inner {
    /// Bundles the connection-side state.
    pub fn new(connection: ConnectionHandle, request_timeout_secs: u64, net_tx: NetworkTx) -> (r:
        Inner)
        ensures
            r.connection == connection,
            r.request_timeout_secs == request_timeout_secs,
            r.net_tx == net_tx,
    {
        Inner { connection, request_timeout_secs, net_tx }
    }
}

/// The identity-side state of a session: the key bundle, the owner key the
/// session acts under, and the contacts it was bootstrapped with.
#[derive(Debug)]
pub struct AppInner {
    pub keys: AppKeys,
    pub owner_key: PublicKey,
    pub config: Option<BootstrapConfig>,
}

impl AppInner {
    /// Bundles the identity-side state.
    pub fn new(keys: AppKeys, owner_key: PublicKey, config: Option<BootstrapConfig>) -> (r:
        AppInner)
        ensures
            r.keys == keys,
            r.owner_key == owner_key,
            r.config == config,
    {
        AppInner { keys, owner_key, config }
    }
}

/// A client session: identity material, connection state, and the optional
/// transfer validator that gates mutations.
#[derive(Debug)]
pub struct AppClient {
    pub inner: Inner,
    pub app_inner: AppInner,
    pub transfer_actor: Option<TransferActor>,
}

/// The mutation capability a session holds: `InvalidOperation` without a
/// validator, else a fresh response tally bound to the session.
pub open spec fn spec_begin_transfer(c: AppClient) -> Result<Aggregation, Error> {
    match c.transfer_actor {
        Some(_) => Ok(Aggregation { approvals: 0, rejections: 0, rejection: None }),
        None => Err(Error::InvalidOperation),
    }
}

impl AppClient {
    /// The key bundle is well formed and any validator is bound to this
    /// session's identity and connection.
    pub open spec fn wf(&self) -> bool {
        &&& self.app_inner.keys.spec_wf()
        &&& (match self.transfer_actor {
            Some(actor) => actor.identity == SafeKey::App(self.app_inner.keys.app_full_id)
                && actor.connection == self.inner.connection,
            None => true,
        })
    }

    /// Builds an unregistered session over an established connection:
    /// fresh random keys owned by their own identity, and no transfer
    /// validator, so the session can only read.
    pub fn unregistered(
        net_tx: NetworkTx,
        config: Option<BootstrapConfig>,
        connection: ConnectionHandle,
    ) -> (r: AppClient)
        ensures
            r.wf(),
            (r.transfer_actor is None),
            r.app_inner.keys.spec_wf(),
            r.app_inner.owner_key == r.app_inner.keys.app_full_id.public,
            r.app_inner.config == config,
            r.inner.connection == connection,
            r.inner.request_timeout_secs == REQUEST_TIMEOUT_SECS,
            r.inner.net_tx == net_tx,
    {
        let app_keys = generate_keys();
        let pk = app_keys.public_key();
        AppClient {
            inner: Inner::new(connection, REQUEST_TIMEOUT_SECS, net_tx),
            app_inner: AppInner::new(app_keys, pk, config),
            transfer_actor: None,
        }
    }

    /// Builds an authenticated session over an established connection from
    /// caller-supplied keys: the bundle is validated, the owner key may be
    /// delegated, and a transfer validator is bound to the connection.
    pub fn from_keys(
        keys: AppKeys,
        owner: PublicKey,
        net_tx: NetworkTx,
        config: BootstrapConfig,
        connection: ConnectionHandle,
    ) -> (r: Result<AppClient, Error>)
        ensures
            !keys.spec_wf() ==> r == Err::<AppClient, Error>(Error::InvalidKeyMaterial),
            keys.spec_wf() ==> (match r {
                Ok(c) => {
                    &&& c.wf()
                    &&& c.transfer_actor == Some(
                        TransferActor {
                            identity: SafeKey::App(keys.app_full_id),
                            connection,
                        },
                    )
                    &&& c.app_inner.keys == (AppKeys { owner_key: owner, ..keys })
                    &&& c.app_inner.owner_key == owner
                    &&& c.app_inner.config == Some(config)
                    &&& c.inner.connection == connection
                    &&& c.inner.request_timeout_secs == REQUEST_TIMEOUT_SECS
                    &&& c.inner.net_tx == net_tx
                },
                Err(_) => false,
            }),
    {
        let wrapped = match AppKeys::from_existing(keys, owner) {
            Ok(k) => k,
            Err(e) => {
                return Err(e);
            },
        };
        let validator = TransferActor::new(wrapped.app_safe_key(), connection);
        Ok(
            AppClient {
                inner: Inner::new(connection, REQUEST_TIMEOUT_SECS, net_tx),
                app_inner: AppInner::new(wrapped, owner, Some(config)),
                transfer_actor: Some(validator),
            },
        )
    }

    /// The session's acting identity.
    pub fn full_id(&self) -> (r: SafeKey)
        ensures
            r == SafeKey::App(self.app_inner.keys.app_full_id),
    {
        self.app_inner.keys.app_safe_key()
    }

    /// The owner key the session acts under.
    pub fn owner_key(&self) -> (r: PublicKey)
        ensures
            r == self.app_inner.owner_key,
    {
        self.app_inner.owner_key
    }

    /// The caller-supplied contacts the session was bootstrapped with.
    pub fn config(&self) -> (r: Option<BootstrapConfig>)
        ensures
            match r {
                Some(cfg) => (match self.app_inner.config {
                    Some(own) => cfg@ == own@ && cfg.contacts@ == own.contacts@,
                    None => false,
                }),
                None => (self.app_inner.config is None),
            },
    {
        match &self.app_inner.config {
            Some(cfg) => Some(cfg.duplicate()),
            None => None,
        }
    }

    /// The connection-side state.
    pub fn inner(&self) -> (r: &Inner)
        ensures
            r == &self.inner,
    {
        &self.inner
    }

    /// The public half of the encryption keypair.
    pub fn public_encryption_key(&self) -> (r: PublicKey)
        ensures
            r == self.app_inner.keys.enc_public_key,
    {
        self.app_inner.keys.enc_public_key
    }

    /// The secret half of the encryption keypair.
    pub fn secret_encryption_key(&self) -> (r: crate::keys::SecretKey)
        ensures
            r == self.app_inner.keys.enc_secret_key,
    {
        self.app_inner.keys.enc_secret_key
    }

    /// The symmetric encryption key.
    pub fn secret_symmetric_key(&self) -> (r: crate::keys::SymmetricKey)
        ensures
            r == self.app_inner.keys.enc_key,
    {
        self.app_inner.keys.enc_key
    }

    /// The transfer validator, if the session holds one.
    pub fn transfer_actor(&self) -> (r: Option<TransferActor>)
        ensures
            r == self.transfer_actor,
    {
        self.transfer_actor
    }

    /// Opens a mutation submission. Without a validator the session lacks
    /// the capability, and the attempt is rejected here, before it could
    /// reach any vault.
    pub fn begin_transfer(&self) -> (r: Result<Aggregation, Error>)
        ensures
            r == spec_begin_transfer(*self),
    {
        match &self.transfer_actor {
            Some(actor) => Ok(actor.start_aggregation()),
            None => Err(Error::InvalidOperation),
        }
    }

    /// A duplicate sharing the same identity, connection and validator
    /// state; keys are never regenerated nor the connection re-bootstrapped.
    pub fn duplicate(&self) -> (r: AppClient)
        ensures
            r.inner.connection == self.inner.connection,
            r.inner.request_timeout_secs == self.inner.request_timeout_secs,
            r.inner.net_tx.events@ == self.inner.net_tx.events@,
            r.app_inner.keys == self.app_inner.keys,
            r.app_inner.owner_key == self.app_inner.owner_key,
            (match (r.app_inner.config, self.app_inner.config) {
                (Some(a), Some(b)) => a@ == b@,
                (None, None) => true,
                _ => false,
            }),
            r.transfer_actor == self.transfer_actor,
    {
        let net_tx = NetworkTx { events: clone_events(&self.inner.net_tx.events) };
        let config = match &self.app_inner.config {
            Some(cfg) => Some(cfg.duplicate()),
            None => None,
        };
        AppClient {
            inner: Inner::new(self.inner.connection, self.inner.request_timeout_secs, net_tx),
            app_inner: AppInner::new(self.app_inner.keys, self.app_inner.owner_key, config),
            transfer_actor: self.transfer_actor,
        }
    }
}

/// An element-for-element copy of an event list.
fn clone_events(v: &Vec<crate::bootstrap::NetworkEvent>) -> (r: Vec<crate::bootstrap::NetworkEvent>)
    ensures
        r@ == v@,
{
    let r = v.clone();
    proof {
        assert(r@ =~= v@);
    }
    r
}

/// Law: a session without a transfer validator cannot open a mutation
/// submission: the attempt is rejected at the session-capability level.
pub proof fn lemma_no_validator_no_mutation(c: AppClient)
    requires
        (c.transfer_actor is None),
    ensures
        spec_begin_transfer(c) == Err::<Aggregation, Error>(Error::InvalidOperation),
{
}

} // verus!
