//! The secure pairing window: devices may register only while it is open,
//! and it closes by itself 60 seconds after it was opened.
//!
//! The application ticks the window once a second with the current UNIX time.

use vstd::prelude::*;

verus! {

/// How long, in seconds, a pairing window stays open.
pub const PAIRING_WINDOW_SECS: i64 = 60;

/// Pairing mode and the UNIX time at which it expires (0 when closed).
pub struct PairingWindow {
    active: bool,
    expiry: i64,
}

/// The window's state as a pair: whether it is open, and its expiry time.
pub open spec fn spec_toggle(active: bool, now: i64) -> (bool, i64) {
    if active {
        (true, (now + PAIRING_WINDOW_SECS) as i64)
    } else {
        (false, 0)
    }
}

/// The state after a tick at `now`: an open window whose (positive) expiry
/// time has come is closed; any other state is kept.
pub open spec fn spec_tick(state: (bool, i64), now: i64) -> (bool, i64) {
    if state.1 > 0 && now >= state.1 {
        (false, 0)
    } else {
        state
    }
}

impl PairingWindow {
    pub closed spec fn state(&self) -> (bool, i64) {
        (self.active, self.expiry)
    }

    /// A closed window has no expiry time.
    pub closed spec fn wf(&self) -> bool {
        !self.active ==> self.expiry == 0
    }

    /// A closed window.
    pub fn new() -> (w: Self)
        ensures
            w.wf(),
            w.state() == (false, 0i64),
    {
        PairingWindow { active: false, expiry: 0 }
    }

    /// Whether devices may register now.
    pub fn is_active(&self) -> (b: bool)
        ensures
            b == self.state().0,
    {
        self.active
    }

    /// The UNIX time at which the window closes, 0 when it is closed.
    pub fn expiry(&self) -> (t: i64)
        ensures
            t == self.state().1,
    {
        self.expiry
    }

    /// Opens the window for 60 seconds from `now`, or closes it; returns the
    /// new expiry time (0 when closed).
    pub fn toggle(&mut self, active: bool, now: i64) -> (expiry: i64)
        requires
            active ==> now <= i64::MAX - PAIRING_WINDOW_SECS,
        ensures
            final(self).wf(),
            final(self).state() == spec_toggle(active, now),
            expiry == final(self).state().1,
    {
        self.active = active;
        if active {
            self.expiry = now + PAIRING_WINDOW_SECS;
        } else {
            self.expiry = 0;
        }
        self.expiry
    }

    /// Closes the window if its expiry time has come; returns whether it was
    /// closed by this tick.
    pub fn tick(&mut self, now: i64) -> (expired: bool)
        requires
            old(self).wf(),
        ensures
            final(self).wf(),
            final(self).state() == spec_tick(old(self).state(), now),
            expired == (old(self).state().1 > 0 && now >= old(self).state().1),
    {
        if self.expiry > 0 && now >= self.expiry {
            self.active = false;
            self.expiry = 0;
            true
        } else {
            false
        }
    }
}

/// A window opened at `opened` is still open at any tick before the 60
/// seconds have passed.
pub proof fn lemma_window_open_before_expiry(opened: i64, now: i64)
    requires
        opened <= i64::MAX - PAIRING_WINDOW_SECS,
        now < opened + PAIRING_WINDOW_SECS,
    ensures
        spec_tick(spec_toggle(true, opened), now).0,
{
}

/// A window opened at `opened` (a positive expiry time) is closed by any
/// tick at or after 60 seconds later.
pub proof fn lemma_window_closes_after_expiry(opened: i64, now: i64)
    requires
        opened <= i64::MAX - PAIRING_WINDOW_SECS,
        opened + PAIRING_WINDOW_SECS > 0,
        now >= opened + PAIRING_WINDOW_SECS,
    ensures
        spec_tick(spec_toggle(true, opened), now) == (false, 0i64),
{
}

/// A tick that does not close the window changes nothing: the window stays
/// as it was, expiry time included.
pub proof fn lemma_tick_keeps_unexpired(state: (bool, i64), now: i64)
    requires
        !(state.1 > 0 && now >= state.1),
    ensures
        spec_tick(state, now) == state,
{
}

/// A tick either closes the window or leaves it exactly as it was.
pub proof fn lemma_tick_closes_or_keeps(state: (bool, i64), now: i64)
    ensures
        spec_tick(state, now) == state || spec_tick(state, now) == (false, 0i64),
        spec_tick(state, now).1 == 0 || spec_tick(state, now).1 == state.1,
{
}

/// The state after ticking at each time of `nows`, in order.
pub open spec fn spec_ticks(state: (bool, i64), nows: Seq<i64>) -> (bool, i64)
    decreases nows.len(),
{
    if nows.len() == 0 {
        state
    } else {
        spec_tick(spec_ticks(state, nows.drop_last()), nows.last())
    }
}

/// A window opened at `opened` and then ticked at the times `nows` is still
/// open with its original expiry time while every tick came before the 60
/// seconds had passed, and closed once any tick came at or after that.
pub proof fn lemma_window_after_ticks(opened: i64, nows: Seq<i64>)
    requires
        opened <= i64::MAX - PAIRING_WINDOW_SECS,
        opened + PAIRING_WINDOW_SECS > 0,
    ensures
        (forall|k: int| 0 <= k < nows.len() ==> nows[k] < opened + PAIRING_WINDOW_SECS)
            ==> spec_ticks(spec_toggle(true, opened), nows) == (true, (opened + PAIRING_WINDOW_SECS) as i64),
        (exists|k: int| 0 <= k < nows.len() && nows[k] >= opened + PAIRING_WINDOW_SECS)
            ==> spec_ticks(spec_toggle(true, opened), nows) == (false, 0i64),
    decreases nows.len(),
{
    if nows.len() > 0 {
        let prev = nows.drop_last();
        lemma_window_after_ticks(opened, prev);
        assert forall|k: int| 0 <= k < prev.len() implies prev[k] == nows[k] by {}
        if exists|k: int| 0 <= k < nows.len() && nows[k] >= opened + PAIRING_WINDOW_SECS {
            let k = choose|k: int| 0 <= k < nows.len() && nows[k] >= opened + PAIRING_WINDOW_SECS;
            if k < prev.len() {
                assert(prev[k] >= opened + PAIRING_WINDOW_SECS);
            }
        }
    }
}

} // verus!
