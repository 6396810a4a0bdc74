use safe_client::bootstrap::{
    classify_attempt, merge_contacts, Bootstrapper, NetworkEvent, NetworkTx, REQUEST_TIMEOUT_SECS,
};
use safe_client::config::{default_contacts, BootstrapConfig, Contact};
use safe_client::errors::Error;
use safe_client::keys::{generate_keys, SafeKey};
use safe_client::transfer::{
    check_retries, Aggregation, TransferActor, MAX_TRANSFER_ATTEMPTS, RESPONSE_QUORUM,
};

fn contact(ip: u32, port: u16) -> Contact {
    Contact { ip, port }
}

fn identity() -> SafeKey {
    generate_keys().app_safe_key()
}

#[test]
fn union_is_idempotent_and_order_independent() {
    let mut a = BootstrapConfig::new();
    a.insert(contact(1, 10));
    a.insert(contact(2, 20));
    let mut b = BootstrapConfig::new();
    b.insert(contact(2, 20));
    b.insert(contact(3, 30));

    let ab = a.union(&b);
    let ba = b.union(&a);
    for c in [contact(1, 10), contact(2, 20), contact(3, 30)] {
        assert!(ab.contains(c));
        assert!(ba.contains(c));
    }
    assert_eq!(ab.len(), 3);
    assert_eq!(ba.len(), 3);

    let aa = a.union(&a);
    assert_eq!(aa.len(), 2);
}

#[test]
fn default_contact_set_is_baked_in() {
    let defaults = default_contacts();
    assert_eq!(defaults.len(), 2);
    assert!(defaults.contains(contact(0x7F00_0001, 12000)));
    assert!(defaults.contains(contact(0x7F00_0001, 12001)));
}

#[test]
fn merge_without_extras_keeps_the_base() {
    let merged = merge_contacts(&default_contacts(), None);
    assert_eq!(merged.len(), 2);
}

#[test]
fn bootstrapper_offers_each_contact_once_then_gives_up() {
    let mut cfg = BootstrapConfig::new();
    cfg.insert(contact(1, 1));
    cfg.insert(contact(2, 2));
    let mut walker = Bootstrapper::new(identity(), &cfg);

    assert_eq!(walker.next_contact(), Some(contact(1, 1)));
    assert_eq!(walker.next_contact(), Some(contact(2, 2)));
    assert_eq!(walker.next_contact(), None);
    assert_eq!(walker.give_up(), Error::BootstrapFailed);
}

#[test]
fn bootstrap_falls_back_to_supplied_contact() {
    // Every default contact is unreachable; the one caller-supplied contact
    // answers. The merged walk must still reach a connection.
    let reachable = contact(9, 9000);
    let mut extra = BootstrapConfig::new();
    extra.insert(reachable);
    let merged = merge_contacts(&default_contacts(), Some(&extra));

    let mut net_tx = NetworkTx::new();
    let mut walker = Bootstrapper::new(identity(), &merged);
    let mut handle = None;
    while let Some(c) = walker.next_contact() {
        let attempt_connected = c == reachable;
        if classify_attempt(attempt_connected, 1).is_ok() {
            handle = Some(walker.established(c));
            net_tx.send(NetworkEvent::Connected);
            break;
        }
    }
    let handle = handle.expect("a reachable supplied contact must yield a connection");
    assert_eq!(handle.contact, reachable);
    assert_eq!(net_tx.events, vec![NetworkEvent::Connected]);
}

#[test]
fn attempt_over_the_ceiling_is_a_timeout() {
    assert_eq!(classify_attempt(true, REQUEST_TIMEOUT_SECS + 1), Err(Error::Timeout));
    assert_eq!(classify_attempt(false, REQUEST_TIMEOUT_SECS + 1), Err(Error::Timeout));
    assert_eq!(classify_attempt(true, REQUEST_TIMEOUT_SECS), Ok(()));
    assert_eq!(classify_attempt(false, 2), Err(Error::BootstrapFailed));
}

fn fresh_tally() -> Aggregation {
    let actor = TransferActor::new(
        identity(),
        safe_client::bootstrap::ConnectionHandle { contact: contact(1, 1) },
    );
    actor.start_aggregation()
}

#[test]
fn no_outcome_before_an_approval_quorum() {
    let mut tally = fresh_tally();
    for _ in 0..RESPONSE_QUORUM - 1 {
        assert_eq!(tally.record_response(Ok(())), None);
    }
    assert_eq!(tally.record_response(Ok(())), Some(Ok(())));
    assert_eq!(tally.approvals, RESPONSE_QUORUM);
}

#[test]
fn matching_rejections_aggregate_to_the_rejection() {
    let mut tally = fresh_tally();
    for _ in 0..RESPONSE_QUORUM - 1 {
        assert_eq!(tally.record_response(Err(Error::AccessDenied)), None);
    }
    assert_eq!(
        tally.record_response(Err(Error::AccessDenied)),
        Some(Err(Error::AccessDenied))
    );
}

#[test]
fn a_mismatched_rejection_is_not_counted() {
    let mut tally = fresh_tally();
    assert_eq!(tally.record_response(Err(Error::AccessDenied)), None);
    assert_eq!(tally.record_response(Err(Error::NoSuchData)), None);
    assert_eq!(tally.rejections, 1);
    assert_eq!(tally.rejection, Some(Error::AccessDenied));
}

#[test]
fn retries_are_bounded() {
    assert_eq!(check_retries(0), None);
    assert_eq!(check_retries(MAX_TRANSFER_ATTEMPTS - 1), None);
    assert_eq!(check_retries(MAX_TRANSFER_ATTEMPTS), Some(Error::AggregationFailed));
}
