//! The synchronizer: a timer that says when to poll, and the registry that a
//! finished poll replaces or leaves alone.
//!
//! The synchronizer performs no request itself. `tick` says when one is due,
//! the caller makes it off the render path, and `complete_poll` takes what
//! came back. Times are in thousandths of a time unit.

use vstd::prelude::*;
use crate::network::sampleobject::ObjectResponse;

verus! {

/// The time between two polls: one time unit.
pub const POLL_INTERVAL: u64 = 1000;

/// Why a poll brought no listing.
#[derive(Clone, Copy, Debug, PartialEq, Eq, Structural)]
pub enum PollError {
    /// The request was refused or timed out.
    Transport,
    /// The answer was malformed.
    Decode,
}

/// What `tick` asks of its caller.
#[derive(Clone, Copy, Debug, PartialEq, Eq, Structural)]
pub enum PollRequest {
    /// Nothing is due, or a poll is still outstanding.
    Idle,
    /// Start one poll of the listing endpoint.
    Start,
}

/// The registry with the timer that refreshes it.
pub struct Synchronizer {
    /// The address of the listing.
    pub endpoint: String,
    /// The entries of the latest listing that arrived.
    pub objects: Vec<ObjectResponse>,
    /// The time since the timer last ran out.
    pub timer: u64,
    /// A poll was asked for and its outcome has not come back.
    pub in_flight: bool,
}

/// `a + b`, held at the largest `u64`.
pub open spec fn capped_sum(a: u64, b: u64) -> u64 {
    if a + b > u64::MAX {
        u64::MAX
    } else {
        (a + b) as u64
    }
}

impl View for Synchronizer {
    type V = Seq<ObjectResponse>;

    /// The registry: the entries of the latest listing, in its order.
    open spec fn view(&self) -> Seq<ObjectResponse> {
        self.objects@
    }
}

impl Synchronizer {
    /// The timer has run for at least one interval once `elapsed` is added.
    pub open spec fn is_due(self, elapsed: u64) -> bool {
        capped_sum(self.timer, elapsed) >= POLL_INTERVAL
    }

    /// A synchronizer for `endpoint` with an empty registry, a timer at zero
    /// and no poll outstanding.
    pub fn new(endpoint: String) -> (s: Self)
        ensures
            s@ == Seq::<ObjectResponse>::empty(),
            s.endpoint == endpoint,
            s.timer == 0,
            !s.in_flight,
    {
        Synchronizer { endpoint, objects: Vec::new(), timer: 0, in_flight: false }
    }

    /// Adds `elapsed` to the timer. Once an interval has passed the timer
    /// starts again from zero, and a poll is asked for unless one is still
    /// outstanding: then this turn is dropped. The registry is never touched.
    pub fn tick(&mut self, elapsed: u64) -> (request: PollRequest)
        ensures
            final(self)@ == old(self)@,
            final(self).endpoint == old(self).endpoint,
            final(self).timer == (if old(self).is_due(elapsed) {
                0
            } else {
                capped_sum(old(self).timer, elapsed)
            }),
            final(self).in_flight == (old(self).in_flight || old(self).is_due(elapsed)),
            request == (if old(self).is_due(elapsed) && !old(self).in_flight {
                PollRequest::Start
            } else {
                PollRequest::Idle
            }),
    {
        let total: u64 = self.timer.saturating_add(elapsed);
        if total >= POLL_INTERVAL {
            self.timer = 0;
            if self.in_flight {
                PollRequest::Idle
            } else {
                self.in_flight = true;
                PollRequest::Start
            }
        } else {
            self.timer = total;
            PollRequest::Idle
        }
    }

    /// Takes the outcome of the poll that was outstanding. A listing replaces
    /// the registry whole; a failure leaves the registry as it was and is
    /// handed back for the caller to report. Either way no poll is
    /// outstanding afterwards, and the timer runs on.
    pub fn complete_poll(&mut self, outcome: Result<Vec<ObjectResponse>, PollError>) -> (failure:
        Option<PollError>)
        ensures
            !final(self).in_flight,
            final(self).timer == old(self).timer,
            final(self).endpoint == old(self).endpoint,
            match outcome {
                Ok(listing) => final(self)@ == listing@ && failure.is_none(),
                Err(e) => final(self)@ == old(self)@ && failure == Some(e),
            },
    {
        self.in_flight = false;
        match outcome {
            Ok(listing) => {
                self.objects = listing;
                None
            },
            Err(e) => Some(e),
        }
    }

    /// A copy of the registry as it stands.
    pub fn snapshot(&self) -> (copy: Vec<ObjectResponse>)
        ensures
            copy@ == self@,
    {
        let mut copy: Vec<ObjectResponse> = Vec::new();
        let mut i: usize = 0;
        while i < self.objects.len()
            invariant
                i <= self.objects.len(),
                copy@ == self.objects@.subrange(0, i as int),
            decreases self.objects.len() - i,
        {
            let entry = &self.objects[i];
            copy.push(
                ObjectResponse {
                    name: entry.name.clone(),
                    owner: entry.owner.clone(),
                    x: entry.x,
                    y: entry.y,
                    otype: entry.otype,
                },
            );
            proof {
                assert(copy@ =~= self.objects@.subrange(0, i + 1));
            }
            i += 1;
        }
        proof {
            assert(copy@ =~= self.objects@);
        }
        copy
    }
}

} // verus!
