//! Elapsed-time accounting for playback: how long a track has actually
//! played, with paused stretches excluded, driven by absolute millisecond
//! readings that the caller supplies in non-decreasing order.

use vstd::prelude::*;

verus! {

/// Playback timing state: when the track started, when the current pause
/// began (if paused), and how much paused time has accumulated, all in
/// absolute milliseconds. `last_event` records the latest reading handed in,
/// so that later readings can be required not to go backward.
pub struct PlayClock {
    pub started_at: Option<u128>,
    pub paused_at: Option<u128>,
    pub paused_total: u128,
    pub last_event: u128,
}

/// The elapsed playback time the clock reports at reading `now`: time since
/// the start, minus accumulated pauses, frozen at the pause point while
/// paused; zero when no track has started.
pub open spec fn elapsed_spec(c: PlayClock, now: u128) -> int {
    match c.started_at {
        None => 0,
        Some(s) => match c.paused_at {
            Some(p) => p - s - c.paused_total,
            None => now - s - c.paused_total,
        },
    }
}

/// The clock after a pause at reading `now`: an already-paused clock keeps
/// its pause point.
pub open spec fn spec_pause(c: PlayClock, now: u128) -> PlayClock {
    match c.paused_at {
        Some(p) => PlayClock { last_event: now, ..c },
        None => PlayClock { paused_at: Some(now), last_event: now, ..c },
    }
}

/// The clock after a resume at reading `now`: the pause stretch is added to
/// the paused total; a clock that is not paused is unchanged.
pub open spec fn spec_resume(c: PlayClock, now: u128) -> PlayClock {
    match c.paused_at {
        Some(p) => PlayClock {
            paused_at: None,
            paused_total: (c.paused_total + (now - p)) as u128,
            last_event: now,
            ..c
        },
        None => PlayClock { last_event: now, ..c },
    }
}

impl PlayClock {
    /// The orderings the fields keep: the start precedes the pause point,
    /// accumulated pauses fit inside the stretch up to the pause point or
    /// the latest reading, and no recorded time exceeds the latest reading.
    pub open spec fn inv(&self) -> bool {
        &&& (self.started_at matches Some(s) ==> s <= self.last_event && (match self.paused_at {
            Some(p) => s <= p && s + self.paused_total <= p,
            None => s + self.paused_total <= self.last_event,
        }))
        &&& (self.paused_at matches Some(p) ==> p <= self.last_event && self.paused_total <= p)
        &&& self.paused_total <= self.last_event
    }

    pub fn new() -> (r: Self)
        ensures
            r.inv(),
            r.started_at is None,
            r.paused_at is None,
            r.paused_total == 0,
            r.last_event == 0,
    {
        PlayClock { started_at: None, paused_at: None, paused_total: 0, last_event: 0 }
    }

    /// Starts timing a new track at reading `now`: elapsed time restarts
    /// from zero, with no pause pending.
    pub fn on_play(&mut self, now: u128)
        requires
            old(self).inv(),
            now >= old(self).last_event,
        ensures
            final(self).inv(),
            final(self).started_at == Some(now),
            final(self).paused_at is None,
            final(self).paused_total == 0,
            final(self).last_event == now,
            elapsed_spec(*final(self), now) == 0,
    {
        self.started_at = Some(now);
        self.paused_at = None;
        self.paused_total = 0;
        self.last_event = now;
    }

    /// Marks a pause at reading `now`; pausing twice keeps the first pause
    /// point.
    pub fn on_pause(&mut self, now: u128)
        requires
            old(self).inv(),
            now >= old(self).last_event,
        ensures
            final(self).inv(),
            *final(self) == spec_pause(*old(self), now),
            elapsed_spec(*final(self), now) == elapsed_spec(*old(self), now),
    {
        if self.paused_at.is_none() {
            self.paused_at = Some(now);
        }
        self.last_event = now;
    }

    /// Ends a pause at reading `now`: the paused stretch is excluded from
    /// elapsed time from now on.
    pub fn on_resume(&mut self, now: u128)
        requires
            old(self).inv(),
            now >= old(self).last_event,
        ensures
            final(self).inv(),
            *final(self) == spec_resume(*old(self), now),
            elapsed_spec(*final(self), now) == elapsed_spec(*old(self), now),
    {
        match self.paused_at {
            Some(p) => {
                self.paused_total = self.paused_total + (now - p);
                self.paused_at = None;
            },
            None => {},
        }
        self.last_event = now;
    }

    /// Clears the clock: no track, no elapsed time.
    pub fn on_stop(&mut self, now: u128)
        requires
            old(self).inv(),
            now >= old(self).last_event,
        ensures
            final(self).inv(),
            final(self).started_at is None,
            final(self).paused_at is None,
            final(self).paused_total == 0,
            final(self).last_event == now,
            elapsed_spec(*final(self), now) == 0,
    {
        self.started_at = None;
        self.paused_at = None;
        self.paused_total = 0;
        self.last_event = now;
    }

    /// The elapsed playback time at reading `now`.
    pub fn current_ms(&self, now: u128) -> (r: u128)
        requires
            self.inv(),
            now >= self.last_event,
        ensures
            r as int == elapsed_spec(*self, now),
    {
        match self.started_at {
            Some(s) => {
                match self.paused_at {
                    Some(p) => p - s - self.paused_total,
                    None => now - s - self.paused_total,
                }
            },
            None => 0,
        }
    }
}

/// While paused, elapsed time is frozen: however much real time passes
/// between the pause and a later reading, the reported elapsed time is what
/// it was at the pause; and after a resume, elapsed time grows only by the
/// time actually played since the resume.
pub proof fn lemma_pause_excludes_paused_time(c: PlayClock, t1: u128, t2: u128, t3: u128)
    requires
        c.inv(),
        c.started_at is Some,
        t1 >= c.last_event,
        t1 <= t2 <= t3,
    ensures
        elapsed_spec(spec_pause(c, t1), t2) == elapsed_spec(c, t1),
        elapsed_spec(spec_resume(spec_pause(c, t1), t2), t3) == elapsed_spec(c, t1) + (t3 - t2),
{
}

} // verus!
