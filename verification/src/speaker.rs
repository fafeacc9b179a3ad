//! The speaker scheduler's bookkeeping: at most one delayed "stop the tone"
//! action is outstanding at any time.
//!
//! Delayed actions are scheduled by the caller on a monotonic timer that
//! hands out cancellable one-shots; this module only decides, on each tone
//! start and each timer expiry, which token to cancel, which to schedule,
//! and whether a late expiry still counts. Re-arming always cancels the
//! previous token first, so two stop actions never stack.

use vstd::prelude::*;

verus! {

/// The scheduler state for the speaker's self-disable action.
#[derive(Clone, Copy, Debug, PartialEq, Eq, Structural)]
pub struct SpeakerScheduler {
    /// The token of the outstanding delayed stop, if one is armed.
    pub pending: Option<u64>,
    /// The token the next delayed stop will be scheduled under.
    pub next_token: u64,
}

impl SpeakerScheduler {
    /// The scheduler's invariant: an outstanding token was issued earlier
    /// than any token still to come.
    pub open spec fn wf(&self) -> bool {
        match self.pending {
            Some(t) => t < self.next_token,
            None => true,
        }
    }

    /// A fresh scheduler with nothing outstanding.
    pub fn new() -> (r: SpeakerScheduler)
        ensures
            r.wf(),
            r.pending is None,
            r.next_token == 0,
    {
        SpeakerScheduler { pending: None, next_token: 0 }
    }

    /// Arms the delayed stop for a new tone: the previously outstanding
    /// token, if any, must be cancelled by the caller (first component), and
    /// the new stop is scheduled under a fresh token (second component),
    /// which becomes the only outstanding one.
    pub fn arm(&mut self) -> (r: (Option<u64>, u64))
        requires
            old(self).wf(),
            old(self).next_token < u64::MAX,
        ensures
            final(self).wf(),
            r.0 == old(self).pending,
            r.1 == old(self).next_token,
            final(self).pending == Some(old(self).next_token),
            final(self).next_token == old(self).next_token + 1,
    {
        let cancel = self.pending;
        let token = self.next_token;
        self.pending = Some(token);
        self.next_token = token + 1;
        (cancel, token)
    }

    /// A delayed stop fired under `token`. The tone stops only if that token
    /// is still the outstanding one; a token already cancelled or already
    /// fired is a no-op, never an error.
    pub fn fired(&mut self, token: u64) -> (stop: bool)
        requires
            old(self).wf(),
        ensures
            final(self).wf(),
            final(self).next_token == old(self).next_token,
            stop == (old(self).pending == Some(token)),
            final(self).pending == (if old(self).pending == Some(token) {
                None::<u64>
            } else {
                old(self).pending
            }),
    {
        let stop = match self.pending {
            Some(t) => t == token,
            None => false,
        };
        if stop {
            self.pending = None;
        }
        stop
    }
}

} // verus!
