//! The pace of tinc's supervision: the wait between checks and the growing
//! wait between restart attempts.
use vstd::prelude::*;

verus! {

/// Seconds between two checks of tinc.
pub const TINC_FREQUENCY: u64 = 5;

/// The wait after a turn that took `elapsed_ms` of a period of
/// `period_secs` seconds: the rest of the period in milliseconds (at most
/// `u64::MAX`), or none when the turn took the whole period.
pub fn remaining_sleep_ms(period_secs: u64, elapsed_ms: u64) -> (r: Option<u64>)
    ensures
        elapsed_ms <= period_secs * 1000 ==> r == Some(
            if period_secs * 1000 - elapsed_ms <= u64::MAX {
                (period_secs * 1000 - elapsed_ms) as u64
            } else {
                u64::MAX
            },
        ),
        elapsed_ms > period_secs * 1000 ==> r is None,
{
    let period_ms: u128 = (period_secs as u128) * 1000;
    let elapsed: u128 = elapsed_ms as u128;
    if elapsed <= period_ms {
        let rest: u128 = period_ms - elapsed;
        if rest <= u64::MAX as u128 {
            Some(rest as u64)
        } else {
            Some(u64::MAX)
        }
    } else {
        None
    }
}

/// The wait, in seconds, before the next attempt to restart tinc after
/// `failures` failed attempts in a row: five seconds more for each failure,
/// at most a minute.
pub open spec fn backoff_secs(failures: nat) -> nat {
    if failures < 12 {
        5 * (failures + 1)
    } else {
        60
    }
}

/// The restart attempts after tinc was found dead.
pub struct RestartBackoff {
    /// The multiplier of five seconds for the next wait (1 to 12).
    pub i: u64,
    /// Failed attempts so far.
    pub failures: Ghost<nat>,
}

impl RestartBackoff {
    /// Well formed: the multiplier follows the failures.
    pub open spec fn wf(&self) -> bool {
        &&& 1 <= self.i <= 12
        &&& self.i == if self.failures@ < 12 {
            self.failures@ + 1
        } else {
            12
        }
    }

    /// No attempt failed yet.
    pub fn new() -> (b: RestartBackoff)
        ensures
            b.wf(),
            b.failures@ == 0,
    {
        RestartBackoff { i: 1, failures: Ghost(0) }
    }

    /// An attempt failed: the seconds to wait before the next one.
    pub fn after_failure(&mut self) -> (secs: u64)
        requires
            old(self).wf(),
        ensures
            final(self).wf(),
            final(self).failures@ == old(self).failures@ + 1,
            secs == backoff_secs(old(self).failures@),
    {
        let secs = self.i * 5;
        if self.i < 12 {
            self.i = self.i + 1;
        }
        self.failures = Ghost(self.failures@ + 1);
        secs
    }
}

/// The wait between restart attempts grows and never exceeds a minute.
pub proof fn lemma_backoff_bounded(f: nat, g: nat)
    requires
        f <= g,
    ensures
        5 <= backoff_secs(f) <= backoff_secs(g) <= 60,
{
}

} // verus!
