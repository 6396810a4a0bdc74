use safe_client::bootstrap::{ConnectionHandle, NetworkTx};
use safe_client::config::{BootstrapConfig, Contact};
use safe_client::errors::Error;
use safe_client::keys::{
    generate_keys, public_of, AppKeys, ClientFullId, PublicKey, SafeKey, SecretKey, SymmetricKey,
};
use safe_client::session::AppClient;

fn connection() -> ConnectionHandle {
    ConnectionHandle { contact: Contact { ip: 1, port: 1 } }
}

fn valid_keys() -> AppKeys {
    AppKeys::new(
        ClientFullId::new(SecretKey { value: 41 }),
        SecretKey { value: 42 },
        SymmetricKey { value: 43 },
    )
}

#[test]
fn generated_keys_are_internally_consistent() {
    let keys = generate_keys();
    assert_eq!(keys.app_full_id.public.value, public_of(keys.app_full_id.secret.value));
    assert_eq!(keys.enc_public_key.value, public_of(keys.enc_secret_key.value));
    assert_eq!(keys.owner_key, keys.app_full_id.public);
}

#[test]
fn from_existing_replaces_the_owner_key() {
    let keys = valid_keys();
    let owner = PublicKey { value: 777 };
    let wrapped = AppKeys::from_existing(keys, owner).expect("a consistent bundle is accepted");
    assert_eq!(wrapped.owner_key, owner);
    assert_eq!(wrapped.app_full_id, keys.app_full_id);
}

#[test]
fn from_existing_rejects_a_malformed_bundle() {
    let mut keys = valid_keys();
    keys.app_full_id.public = PublicKey { value: keys.app_full_id.public.value ^ 1 };
    assert_eq!(
        AppKeys::from_existing(keys, PublicKey { value: 1 }),
        Err(Error::InvalidKeyMaterial)
    );
}

#[test]
fn unregistered_session_has_no_transfer_validator() {
    let client = AppClient::unregistered(NetworkTx::new(), None, connection());
    assert!(client.transfer_actor().is_none());
    assert_eq!(client.owner_key(), client.app_inner.keys.app_full_id.public);
    assert!(client.config().is_none());
}

#[test]
fn unregistered_session_rejects_mutations_at_the_session_level() {
    // The attempted mutation fails before any vault could be addressed.
    let client = AppClient::unregistered(NetworkTx::new(), None, connection());
    assert_eq!(client.begin_transfer(), Err(Error::InvalidOperation));
}

#[test]
fn from_keys_builds_an_authenticated_session() {
    let keys = valid_keys();
    let owner = PublicKey { value: 9 };
    let mut cfg = BootstrapConfig::new();
    cfg.insert(Contact { ip: 3, port: 3 });
    let client = AppClient::from_keys(keys, owner, NetworkTx::new(), cfg, connection())
        .expect("consistent keys build a session");

    let actor = client.transfer_actor().expect("authenticated sessions can mutate");
    assert_eq!(actor.identity, SafeKey::App(keys.app_full_id));
    assert_eq!(actor.identity.public_key(), keys.app_full_id.public_id());
    assert_eq!(actor.connection, connection());
    assert_eq!(client.owner_key(), owner);
    assert_eq!(client.full_id(), SafeKey::App(keys.app_full_id));
    assert_eq!(client.public_encryption_key(), keys.enc_public_key);
    assert_eq!(client.secret_encryption_key(), keys.enc_secret_key);
    assert_eq!(client.secret_symmetric_key(), keys.enc_key);
    assert!(client.config().expect("the contacts are kept").contains(Contact { ip: 3, port: 3 }));

    let tally = client.begin_transfer().expect("the capability is present");
    assert_eq!(tally.approvals, 0);
    assert_eq!(tally.rejections, 0);
}

#[test]
fn from_keys_rejects_a_malformed_bundle() {
    let mut keys = valid_keys();
    keys.enc_public_key = PublicKey { value: 0 };
    let result = AppClient::from_keys(
        keys,
        PublicKey { value: 9 },
        NetworkTx::new(),
        BootstrapConfig::new(),
        connection(),
    );
    assert!(matches!(result, Err(Error::InvalidKeyMaterial)));
}

#[test]
fn duplication_shares_identity_and_connection() {
    let client = AppClient::unregistered(NetworkTx::new(), None, connection());
    let copy = client.duplicate();
    assert_eq!(copy.inner.connection, client.inner.connection);
    assert_eq!(copy.app_inner.keys, client.app_inner.keys);
    assert_eq!(copy.inner.request_timeout_secs, client.inner.request_timeout_secs);
    assert!(copy.transfer_actor().is_none());
}
