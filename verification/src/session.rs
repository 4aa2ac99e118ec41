//! What ends a session, and how long to wait before the next attempt.

use vstd::prelude::*;

verus! {

/// Why the keypad ends a session. None of these ends the process: the
/// session is torn down and started again after a pause.
#[derive(Clone, Copy, Debug, PartialEq, Eq, Structural)]
pub enum SessionError {
    /// The touchpad was not found in the device list, on any attempt.
    Discovery,
    /// The bus did not acknowledge exactly one message.
    HardwareWrite,
    /// The virtual keyboard did not take a burst of events.
    OutputEmit,
}

/// Scans of the device list that one session makes before it gives up.
pub const TRY_TIMES: usize = 5;

/// Milliseconds between two scans of the device list, and between the end of
/// a session and the start of the next.
pub const TRY_SLEEP_MS: u64 = 100;

/// What to do after a scan of the device list that did not find the touchpad.
#[derive(Clone, Copy, Debug, PartialEq, Eq, Structural)]
pub enum Retry {
    /// Sleep for this many milliseconds, then scan again.
    After(u64),
    /// Stop: the session has failed.
    GiveUp(SessionError),
}

/// Counts the scans of the device list that a session may still make.
#[derive(Clone, Copy, Debug, PartialEq, Eq, Structural)]
pub struct Attempts {
    pub left: usize,
}

impl Attempts {
    /// The count after a scan that found nothing, and what to do next: give
    /// up where that was the last scan allowed, else pause and scan again.
    pub open spec fn after_miss(self) -> (Attempts, Retry) {
        if self.left <= 1 {
            (Attempts { left: 0 }, Retry::GiveUp(SessionError::Discovery))
        } else {
            (Attempts { left: (self.left - 1) as usize }, Retry::After(TRY_SLEEP_MS))
        }
    }

    /// The count after `n` scans that found nothing.
    pub open spec fn after_misses(self, n: nat) -> Attempts
        decreases n,
    {
        if n == 0 {
            self
        } else {
            self.after_misses((n - 1) as nat).after_miss().0
        }
    }

    /// The count at the start of a session.
    pub fn new() -> (a: Attempts)
        ensures
            a.left == TRY_TIMES,
    {
        Attempts { left: TRY_TIMES }
    }

    /// Records a scan that did not find the touchpad and says what to do
    /// next.
    pub fn missed(&mut self) -> (next: Retry)
        ensures
            (*final(self), next) == old(self).after_miss(),
    {
        if self.left <= 1 {
            self.left = 0;
            Retry::GiveUp(SessionError::Discovery)
        } else {
            self.left = self.left - 1;
            Retry::After(TRY_SLEEP_MS)
        }
    }
}

/// A session that is allowed `left` scans and keeps missing pauses after
/// each of them but the last, and gives up at the last.
pub proof fn lemma_gives_up_at_last_scan(a: Attempts, n: nat)
    requires
        n < a.left,
    ensures
        a.after_misses(n).left == a.left - n,
        a.after_misses(n).after_miss().1 == (if n + 1 == a.left {
            Retry::GiveUp(SessionError::Discovery)
        } else {
            Retry::After(TRY_SLEEP_MS)
        }),
    decreases n,
{
    if n > 0 {
        lemma_gives_up_at_last_scan(a, (n - 1) as nat);
    }
}

} // verus!
