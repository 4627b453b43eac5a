//! The single-slot snapshot channel between the scanner and the exporter.
//!
//! One writer publishes each iteration's snapshot, overwriting the previous
//! one; readers always get the most recently published snapshot whole, or
//! the zero-valued placeholder while nothing has been published yet. There
//! is no history, no queue and no blocking.

use vstd::prelude::*;
use crate::data::{spec_zero_data, Data};

verus! {

/// The single slot holding the most recently published snapshot, if any.
pub struct SnapshotChannel {
    latest: Option<Data>,
}

impl SnapshotChannel {
    /// The snapshot most recently published, if one ever was.
    pub closed spec fn spec_latest(&self) -> Option<Data> {
        self.latest
    }

    /// What a read yields: the latest snapshot, or the placeholder before
    /// the first publication.
    pub open spec fn spec_read(&self) -> Data {
        match self.spec_latest() {
            Some(d) => d,
            None => spec_zero_data(),
        }
    }

    /// A channel that has seen no publication yet.
    pub fn new() -> (c: SnapshotChannel)
        ensures
            c.spec_latest() is None,
            c.spec_read() == spec_zero_data(),
    {
        SnapshotChannel { latest: None }
    }

    /// Publishes a snapshot: the slot now holds exactly this value and the
    /// previous one is discarded. Never blocks and keeps no history.
    pub fn publish(&mut self, d: Data)
        ensures
            final(self).spec_latest() == Some(d),
            final(self).spec_read() == d,
    {
        self.latest = Some(d);
    }

    /// Reads the latest snapshot. Never fails and never blocks: before the
    /// first publication it yields the zero-valued placeholder.
    pub fn read(&self) -> (d: Data)
        ensures
            d == self.spec_read(),
            self.spec_latest() is None ==> d == spec_zero_data(),
            self.spec_latest() matches Some(p) ==> d == p,
    {
        match &self.latest {
            Some(d) => *d,
            None => Data::zero(),
        }
    }
}

/// A read never mixes fields from two publications: every field of the value
/// read comes from the one snapshot last published.
pub proof fn lemma_read_is_atomic(c: SnapshotChannel, d: Data)
    requires
        c.spec_latest() == Some(d),
    ensures
        c.spec_read().signing_policy_tx_found == d.signing_policy_tx_found,
        c.spec_read().signing_policy_balance == d.signing_policy_balance,
        c.spec_read().submit_tx_found == d.submit_tx_found,
        c.spec_read().submit_balance == d.submit_balance,
        c.spec_read().submit_signature_tx_found == d.submit_signature_tx_found,
        c.spec_read().submit_signature_balance == d.submit_signature_balance,
{
}

/// Before the first publication a read degrades gracefully to the valid,
/// zero-valued placeholder: no role found, every balance zero.
pub proof fn lemma_read_before_first_publish(c: SnapshotChannel)
    requires
        c.spec_latest() is None,
    ensures
        c.spec_read() == spec_zero_data(),
        !c.spec_read().signing_policy_tx_found,
        !c.spec_read().submit_tx_found,
        !c.spec_read().submit_signature_tx_found,
        c.spec_read().signing_policy_balance == 0,
        c.spec_read().submit_balance == 0,
        c.spec_read().submit_signature_balance == 0,
{
}

} // verus!
