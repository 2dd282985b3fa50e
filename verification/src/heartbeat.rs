//! The liveness probe of one connection: a count of the probes that failed in
//! a row, and the rule that ends the connection when the count is full.

use crate::channel::{offer, ping_frame};
use tokio::sync::mpsc::UnboundedSender;
use tokio_tungstenite::tungstenite::Message;
use vstd::prelude::*;

verus! {

/// Seconds between two probes.
pub const PROBE_PERIOD_SECS: u64 = 5;

/// How many probes may fail in a row before the connection is given up.
pub const MAX_PROBE_FAILURES: u32 = 3;

/// The payload of a probe frame.
pub const PROBE_PAYLOAD: &'static str = "ping";

/// The count after one more probe. A full count stays full: a supervisor that
/// has given up takes no further probe into account.
pub open spec fn count_after(failures: nat, delivered: bool) -> nat {
    if failures >= MAX_PROBE_FAILURES {
        failures
    } else if delivered {
        0
    } else {
        failures + 1
    }
}

/// The count after a run of probes, starting from zero; `true` stands for a
/// probe that was taken by the channel.
pub open spec fn count_after_all(probes: Seq<bool>) -> nat
    decreases probes.len(),
{
    if probes.len() == 0 {
        0
    } else {
        count_after(count_after_all(probes.drop_last()), probes.last())
    }
}

/// Three probes in a row failed, starting at position `at`.
pub open spec fn three_failed_at(probes: Seq<bool>, at: int) -> bool {
    &&& 0 <= at
    &&& at + 2 < probes.len()
    &&& !probes[at]
    &&& !probes[at + 1]
    &&& !probes[at + 2]
}

/// Somewhere in the run, three probes in a row failed.
pub open spec fn three_failed_in_a_row(probes: Seq<bool>) -> bool {
    exists|at: int| three_failed_at(probes, at)
}

/// How many probes failed at the end of the run, since the last success.
pub open spec fn trailing_failures(probes: Seq<bool>) -> nat
    decreases probes.len(),
{
    if probes.len() == 0 || probes.last() {
        0
    } else {
        1 + trailing_failures(probes.drop_last())
    }
}

proof fn lemma_count_tracks_run(probes: Seq<bool>)
    ensures
        three_failed_in_a_row(probes) ==> count_after_all(probes) == MAX_PROBE_FAILURES,
        !three_failed_in_a_row(probes) ==> count_after_all(probes) == trailing_failures(probes)
            && trailing_failures(probes) < MAX_PROBE_FAILURES,
    decreases probes.len(),
{
    if probes.len() > 0 {
        let before = probes.drop_last();
        let n = before.len() as int;
        lemma_count_tracks_run(before);
        assert forall|at: int| three_failed_at(before, at) implies three_failed_at(probes, at) by {}
        if !three_failed_in_a_row(before) {
            if probes.last() {
                assert forall|at: int| !three_failed_at(probes, at) by {
                    if three_failed_at(probes, at) {
                        assert(three_failed_at(before, at));
                    }
                }
            } else if trailing_failures(before) == 2 {
                let earlier = before.drop_last();
                assert(trailing_failures(earlier) == 1);
                assert(three_failed_at(probes, n - 2));
            } else {
                assert forall|at: int| !three_failed_at(probes, at) by {
                    if three_failed_at(probes, at) {
                        if at + 2 < n {
                            assert(three_failed_at(before, at));
                        } else {
                            let earlier = before.drop_last();
                            assert(trailing_failures(earlier) >= 1);
                        }
                    }
                }
            }
        }
    } else {
        assert forall|at: int| !three_failed_at(probes, at) by {}
    }
}

/// The supervisor gives a connection up exactly when three probes in a row
/// have failed: a success in between starts the count anew, so two failures
/// and then a success leave the connection up.
pub proof fn law_gives_up_after_three_failures_in_a_row(probes: Seq<bool>)
    ensures
        count_after_all(probes) >= MAX_PROBE_FAILURES <==> three_failed_in_a_row(probes),
{
    lemma_count_tracks_run(probes);
}

/// The liveness state of one connection.
#[derive(Clone, Copy, Debug)]
pub struct Heartbeat {
    failures: u32,
}

impl Heartbeat {
    /// The probes that have failed in a row.
    pub closed spec fn failures(&self) -> nat {
        self.failures as nat
    }

    /// The count is full: the connection is to be torn down.
    pub open spec fn expired(&self) -> bool {
        self.failures() >= MAX_PROBE_FAILURES
    }

    /// A supervisor that has seen no probe fail.
    pub fn new() -> (h: Self)
        ensures
            h.failures() == 0,
    {
        Heartbeat { failures: 0 }
    }

    /// Whether the count is full.
    pub fn is_expired(&self) -> (b: bool)
        ensures
            b == self.expired(),
    {
        self.failures >= MAX_PROBE_FAILURES
    }

    /// The probes that have failed in a row.
    pub fn consecutive_failures(&self) -> (n: u32)
        ensures
            n == self.failures(),
    {
        self.failures
    }

    /// Takes the outcome of one probe into account, and says whether the
    /// connection stays up.
    pub fn record(&mut self, delivered: bool) -> (alive: bool)
        ensures
            final(self).failures() == count_after(old(self).failures(), delivered),
            alive == !final(self).expired(),
    {
        if self.failures >= MAX_PROBE_FAILURES {
            return false;
        }
        if delivered {
            self.failures = 0;
        } else {
            self.failures = self.failures + 1;
        }
        self.failures < MAX_PROBE_FAILURES
    }

    /// Puts one probe frame on the outbound channel of the connection, takes
    /// the outcome into account, and says whether the connection stays up.
    /// A supervisor that has given up sends nothing.
    pub fn probe(&mut self, sender: &UnboundedSender<Message>) -> (alive: bool)
        ensures
            final(self).failures() == count_after(old(self).failures(), true)
                || final(self).failures() == count_after(old(self).failures(), false),
            alive == !final(self).expired(),
    {
        if self.failures >= MAX_PROBE_FAILURES {
            return false;
        }
        let delivered = offer(sender, ping_frame(PROBE_PAYLOAD)).is_ok();
        self.record(delivered)
    }
}

} // verus!
