//! Connection bootstrap: merging caller-supplied contacts into the default
//! set and walking the merged set one attempt at a time until a contact
//! yields a connection or the set is exhausted.
//!
//! The network round trips themselves happen outside this crate; a driver
//! asks [`Bootstrapper::next_contact`] which contact to try, performs the
//! attempt, and either seals the handle with [`Bootstrapper::established`]
//! or moves on. [`Bootstrapper::give_up`] can only be called once every
//! contact has been offered, so a bootstrap never fails while a merged-in
//! contact is still untried.

use vstd::prelude::*;

use crate::config::{contact_set, BootstrapConfig, Contact};
use crate::errors::Error;
use crate::keys::SafeKey;

verus! {

/// Ceiling, in seconds, on one connection or request round trip.
pub const REQUEST_TIMEOUT_SECS: u64 = 180;

/// The opaque result of a successful bootstrap, bound to the contact that
/// answered.
#[derive(Clone, Copy, PartialEq, Eq, Structural, Debug)]
pub struct ConnectionHandle {
    pub contact: Contact,
}

/// A network-lifecycle notification emitted toward the caller's channel.
#[derive(Clone, Copy, PartialEq, Eq, Structural, Debug)]
pub enum NetworkEvent {
    Connected,
    Disconnected,
}

/// A fire-and-forget sink of network-lifecycle events; never awaited.
#[derive(Debug)]
pub struct NetworkTx {
    pub events: Vec<NetworkEvent>,
}

impl NetworkTx {
    /// An empty sink.
    pub fn new() -> (r: NetworkTx)
        ensures
            r.events@ == Seq::<NetworkEvent>::empty(),
    {
        NetworkTx { events: Vec::new() }
    }

    /// Records one event.
    pub fn send(&mut self, event: NetworkEvent)
        ensures
            final(self).events@ == old(self).events@.push(event),
    {
        self.events.push(event);
    }
}

/// The contact set bootstrap walks: caller-supplied contacts merged into the
/// base set by union. Neither input is changed.
pub fn merge_contacts(base: &BootstrapConfig, extra: Option<&BootstrapConfig>) -> (r:
    BootstrapConfig)
    requires
        base.wf(),
    ensures
        r.wf(),
        match extra {
            Some(e) => r@ == base@.union(e@),
            None => r@ == base@,
        },
{
    match extra {
        Some(e) => base.union(e),
        None => base.duplicate(),
    }
}

/// Walks a merged contact set, offering each contact for one connection
/// attempt, in order, exactly once.
#[derive(Debug)]
pub struct Bootstrapper {
    pub identity: SafeKey,
    pub contacts: Vec<Contact>,
    pub next_index: usize,
}

impl Bootstrapper {
    /// All contacts of the merged set have been offered.
    pub open spec fn exhausted(&self) -> bool {
        self.next_index >= self.contacts@.len()
    }

    /// Starts a walk of `config`'s contacts on behalf of `identity`.
    pub fn new(identity: SafeKey, config: &BootstrapConfig) -> (r: Bootstrapper)
        ensures
            r.identity == identity,
            r.contacts@ == config.contacts@,
            r.next_index == 0,
    {
        Bootstrapper { identity, contacts: config.duplicate().contacts, next_index: 0 }
    }

    /// The next contact to attempt, or `None` once the set is exhausted.
    pub fn next_contact(&mut self) -> (r: Option<Contact>)
        ensures
            final(self).identity == old(self).identity,
            final(self).contacts@ == old(self).contacts@,
            match r {
                Some(c) => !old(self).exhausted() && c == old(self).contacts@[
                    old(self).next_index as int
                ] && final(self).next_index == old(self).next_index + 1,
                None => old(self).exhausted() && final(self).next_index == old(self).next_index,
            },
    {
        if self.next_index < self.contacts.len() {
            let c = self.contacts[self.next_index];
            self.next_index += 1;
            Some(c)
        } else {
            None
        }
    }

    /// Seals a successful attempt into a connection handle.
    pub fn established(&self, contact: Contact) -> (r: ConnectionHandle)
        ensures
            r.contact == contact,
    {
        ConnectionHandle { contact }
    }

    /// The failure reported once every contact has been offered and none
    /// yielded a connection.
    pub fn give_up(&self) -> (r: Error)
        requires
            self.exhausted(),
        ensures
            r == Error::BootstrapFailed,
    {
        Error::BootstrapFailed
    }
}

/// The outcome of one connection attempt: `Timeout` when the round trip
/// exceeded the ceiling, success for a connection within it, and
/// `BootstrapFailed` for a refusal within it.
pub fn classify_attempt(connected: bool, elapsed_secs: u64) -> (r: Result<(), Error>)
    ensures
        elapsed_secs > REQUEST_TIMEOUT_SECS ==> r == Err::<(), Error>(Error::Timeout),
        elapsed_secs <= REQUEST_TIMEOUT_SECS && connected ==> r == Ok::<(), Error>(()),
        elapsed_secs <= REQUEST_TIMEOUT_SECS && !connected ==> r == Err::<(), Error>(
            Error::BootstrapFailed,
        ),
{
    if elapsed_secs > REQUEST_TIMEOUT_SECS {
        Err(Error::Timeout)
    } else if connected {
        Ok(())
    } else {
        Err(Error::BootstrapFailed)
    }
}

/// Law: a caller-supplied contact survives the merge, so a walk of the
/// merged set offers it at some attempt index; since a walk can only give
/// up after every contact was offered, an unreachable default set cannot
/// make bootstrap fail while a reachable supplied contact is untried.
pub proof fn lemma_supplied_contact_is_attempted(
    b: Bootstrapper,
    base: Set<Contact>,
    extra: Set<Contact>,
    c: Contact,
)
    requires
        extra.contains(c),
        contact_set(b.contacts@) == base.union(extra),
    ensures
        exists|i: int| 0 <= i < b.contacts@.len() && b.contacts@[i] == c,
{
    assert(base.union(extra).contains(c));
    assert(contact_set(b.contacts@).contains(c));
    assert(b.contacts@.contains(c));
}

} // verus!
