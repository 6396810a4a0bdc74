//! The transfer-validation actor: bound to one identity and one connection,
//! it aggregates the responses of the addressed network members into a
//! single outcome, and releases nothing before a quorum of matching
//! responses (or of matching rejections) has been observed.
//!
//! The quorum is a simple majority of a fixed replica count; retries of
//! transient faults are bounded, after which the submission surfaces
//! `AggregationFailed` instead of hanging.

use vstd::prelude::*;

use crate::bootstrap::ConnectionHandle;
use crate::errors::Error;
use crate::keys::SafeKey;

verus! {

/// How many network members answer one addressed request.
pub const REPLICA_COUNT: u64 = 7;

/// A simple majority of the replica count.
pub const RESPONSE_QUORUM: u64 = REPLICA_COUNT / 2 + 1;

/// How many times a submission is re-sent over transient faults before it
/// fails with `AggregationFailed`.
pub const MAX_TRANSFER_ATTEMPTS: u64 = 10;

/// Validates transfers for one identity over one connection. Stateless
/// between submissions; each submission runs its own [`Aggregation`].
#[derive(Clone, Copy, PartialEq, Eq, Structural, Debug)]
pub struct TransferActor {
    pub identity: SafeKey,
    pub connection: ConnectionHandle,
}

impl TransferActor {
    /// Binds a validator to an identity and an established connection.
    pub fn new(identity: SafeKey, connection: ConnectionHandle) -> (r: TransferActor)
        ensures
            r.identity == identity,
            r.connection == connection,
    {
        TransferActor { identity, connection }
    }

    /// Opens the response tally for one submission.
    pub fn start_aggregation(&self) -> (r: Aggregation)
        ensures
            r.wf(),
            r.approvals == 0,
            r.rejections == 0,
            r.rejection is None,
            spec_outcome(r) is None,
    {
        Aggregation { approvals: 0, rejections: 0, rejection: None }
    }
}

/// The running tally of one submission's responses: approvals, and
/// rejections matching the first rejection kind observed. A rejection of a
/// different kind than the first is not counted toward the rejection
/// quorum.
#[derive(Clone, Copy, PartialEq, Eq, Structural, Debug)]
pub struct Aggregation {
    pub approvals: u64,
    pub rejections: u64,
    pub rejection: Option<Error>,
}

/// The outcome an aggregation releases: success on an approval quorum, the
/// matched rejection on a rejection quorum, and nothing before either.
pub open spec fn spec_outcome(a: Aggregation) -> Option<Result<(), Error>> {
    if a.approvals >= RESPONSE_QUORUM {
        Some(Ok(()))
    } else {
        match a.rejection {
            Some(e) => if a.rejections >= RESPONSE_QUORUM {
                Some(Err(e))
            } else {
                None
            },
            None => None,
        }
    }
}

impl Aggregation {
    /// Counts are bounded by the replica count, and a counted rejection has
    /// a recorded kind.
    pub open spec fn wf(&self) -> bool {
        &&& self.approvals + self.rejections <= REPLICA_COUNT
        &&& (self.rejection is None ==> self.rejections == 0)
    }

    /// Folds one member's response into the tally and returns the outcome
    /// once a quorum exists. No outcome is released before a quorum of
    /// matching responses has been observed.
    pub fn record_response(&mut self, response: Result<(), Error>) -> (r: Option<
        Result<(), Error>,
    >)
        requires
            old(self).wf(),
            (spec_outcome(*old(self)) is None),
            old(self).approvals + old(self).rejections < REPLICA_COUNT,
        ensures
            final(self).wf(),
            response is Ok ==> *final(self) == (Aggregation {
                approvals: (old(self).approvals + 1) as u64,
                ..*old(self)
            }),
            response matches Err(e) ==> (match old(self).rejection {
                None => *final(self) == (Aggregation {
                    rejections: 1,
                    rejection: Some(e),
                    ..*old(self)
                }),
                Some(e0) => if e0 == e {
                    *final(self) == (Aggregation {
                        rejections: (old(self).rejections + 1) as u64,
                        ..*old(self)
                    })
                } else {
                    *final(self) == *old(self)
                },
            }),
            r == spec_outcome(*final(self)),
    {
        match response {
            Ok(()) => {
                self.approvals += 1;
            },
            Err(e) => {
                match self.rejection {
                    None => {
                        self.rejection = Some(e);
                        self.rejections = 1;
                    },
                    Some(e0) => {
                        if e0 == e {
                            self.rejections += 1;
                        }
                    },
                }
            },
        }
        self.outcome()
    }

    /// The outcome the tally has reached, if any.
    pub fn outcome(&self) -> (r: Option<Result<(), Error>>)
        ensures
            r == spec_outcome(*self),
    {
        if self.approvals >= RESPONSE_QUORUM {
            Some(Ok(()))
        } else {
            match self.rejection {
                Some(e) => if self.rejections >= RESPONSE_QUORUM {
                    Some(Err(e))
                } else {
                    None
                },
                None => None,
            }
        }
    }
}

/// Law: an aggregation never releases a result before a quorum exists: a
/// success outcome carries an approval quorum, and a rejection outcome a
/// quorum of matching rejections.
pub proof fn lemma_no_outcome_without_quorum(a: Aggregation)
    ensures
        spec_outcome(a) == Some(Ok::<(), Error>(())) ==> a.approvals >= RESPONSE_QUORUM,
        (match spec_outcome(a) {
            Some(r) => r is Err,
            None => false,
        }) ==> a.rejections >= RESPONSE_QUORUM,
{
}

/// Whether another transient fault may still be retried, or the submission
/// must surface `AggregationFailed`.
pub fn check_retries(attempts_used: u64) -> (r: Option<Error>)
    ensures
        attempts_used < MAX_TRANSFER_ATTEMPTS ==> r is None,
        attempts_used >= MAX_TRANSFER_ATTEMPTS ==> r == Some(Error::AggregationFailed),
{
    if attempts_used < MAX_TRANSFER_ATTEMPTS {
        None
    } else {
        Some(Error::AggregationFailed)
    }
}

} // verus!
