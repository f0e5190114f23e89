//! The per-patch countdown state machine.
//!
//! A timer stores the instant the cycle was (re)started, whether it is
//! paused, the cumulative time spent paused, and the instant the current
//! pause began. Every query is a pure function of that state and of a
//! wall-clock reading taken at query time, so remaining time and progress
//! stay correct under any polling frequency. All instants and durations
//! are in milliseconds.

use vstd::prelude::*;
use vstd::string::StringExecFns;
use crate::FIXED_DURATION_MS;
use crate::clock::now_millis;
use crate::render;

verus! {

pub struct HerbTimer {
    /// Identifier of the patch, 1 through 8.
    pub patch_id: u8,
    /// Display label resolved from `patch_id`.
    pub patch_name: String,
    /// Instant at which the countdown was (re)started.
    pub planted_at: i64,
    /// True while the countdown is suspended.
    pub paused: bool,
    /// Cumulative time spent paused since the last reset; frozen while running.
    pub elapsed_paused: i64,
    /// Instant at which the current pause began; present iff `paused`.
    pub last_pause_time: Option<i64>,
}

/// The display label of each patch; identifiers outside 1 through 8 fall
/// back to a sentinel rather than failing.
pub open spec fn patch_name_spec(patch_id: u8) -> Seq<char> {
    if patch_id == 1 {
        "Falador"@
    } else if patch_id == 2 {
        "Port Phasmatys"@
    } else if patch_id == 3 {
        "Catherby"@
    } else if patch_id == 4 {
        "Ardougne"@
    } else if patch_id == 5 {
        "Hosidius"@
    } else if patch_id == 6 {
        "Trollheim"@
    } else if patch_id == 7 {
        "Weiss"@
    } else if patch_id == 8 {
        "Civitas illa Fortis"@
    } else {
        "Unknown"@
    }
}

/// The display label for a patch identifier.
pub fn patch_name_for(patch_id: u8) -> (r: String)
    ensures
        r@ == patch_name_spec(patch_id),
{
    let name: &str = if patch_id == 1 {
        "Falador"
    } else if patch_id == 2 {
        "Port Phasmatys"
    } else if patch_id == 3 {
        "Catherby"
    } else if patch_id == 4 {
        "Ardougne"
    } else if patch_id == 5 {
        "Hosidius"
    } else if patch_id == 6 {
        "Trollheim"
    } else if patch_id == 7 {
        "Weiss"
    } else if patch_id == 8 {
        "Civitas illa Fortis"
    } else {
        "Unknown"
    };
    String::from_str(name)
}

/// The state `pause` leaves behind: a running timer freezes at `now`,
/// a paused one is left as it is.
pub open spec fn pause_step(t: HerbTimer, now: i64) -> HerbTimer {
    if t.paused {
        t
    } else {
        HerbTimer { paused: true, last_pause_time: Some(now), ..t }
    }
}

/// The pause account after resuming at `now` a pause begun at
/// `pause_began`: the span in between, never taken as negative, is added
/// to `elapsed`, saturating at the widest representable duration.
pub open spec fn accum_paused(elapsed: i64, pause_began: i64, now: i64) -> int {
    let span = if now >= pause_began {
        now - pause_began
    } else {
        0
    };
    if elapsed + span <= i64::MAX {
        elapsed + span
    } else {
        i64::MAX as int
    }
}

/// The state `resume` leaves behind: a paused timer adds the pause span
/// to its account and runs again, a running one is left as it is.
pub open spec fn resume_step(t: HerbTimer, now: i64) -> HerbTimer {
    if !t.paused {
        t
    } else {
        HerbTimer {
            paused: false,
            last_pause_time: None,
            elapsed_paused: accum_paused(t.elapsed_paused, t.last_pause_time->Some_0, now) as i64,
            ..t
        }
    }
}

/// The state `reset` leaves behind: a fresh epoch anchored at `now`,
/// whatever came before.
pub open spec fn reset_step(t: HerbTimer, now: i64) -> HerbTimer {
    HerbTimer { planted_at: now, paused: false, elapsed_paused: 0, last_pause_time: None, ..t }
}

impl HerbTimer {
    /// The timer's internal invariant.
    pub open spec fn wf(self) -> bool {
        &&& 0 <= self.elapsed_paused
        &&& (self.paused <==> self.last_pause_time is Some)
    }

    /// The instant against which elapsed time is measured: the start of the
    /// current pause while paused, else the wall clock `now`.
    pub open spec fn reference_instant(self, now: int) -> int {
        if self.paused {
            self.last_pause_time->Some_0 as int
        } else {
            now
        }
    }

    /// Milliseconds of active (non-paused) countdown so far.
    pub open spec fn elapsed_active(self, now: int) -> int {
        self.reference_instant(now) - self.planted_at - self.elapsed_paused
    }

    /// Signed milliseconds left of the fixed duration; negative once the
    /// countdown has elapsed.
    pub open spec fn remaining_ms(self, now: int) -> int {
        FIXED_DURATION_MS - self.elapsed_active(now)
    }

    /// Whether the cycle has fully elapsed.
    pub open spec fn ready_at(self, now: int) -> bool {
        self.remaining_ms(now) <= 0
    }

    /// Elapsed active time clamped into the fixed duration, as a fraction
    /// of it in parts per thousand.
    pub open spec fn progress_permille(self, now: int) -> int {
        let e = self.elapsed_active(now);
        let clamped = if e < 0 {
            0
        } else if e > FIXED_DURATION_MS {
            FIXED_DURATION_MS as int
        } else {
            e
        };
        clamped * 1000 / (FIXED_DURATION_MS as int)
    }

    /// The remaining time as shown: never negative.
    pub open spec fn display_ms(self, now: int) -> nat {
        if self.remaining_ms(now) < 0 {
            0
        } else {
            self.remaining_ms(now) as nat
        }
    }

    /// A timer for `patch_id` whose countdown starts at `now`.
    pub fn new_at(patch_id: u8, now: i64) -> (t: Self)
        ensures
            t.wf(),
            t.patch_id == patch_id,
            t.patch_name@ == patch_name_spec(patch_id),
            t.planted_at == now,
            t.paused == false,
            t.elapsed_paused == 0,
            t.last_pause_time is None,
    {
        HerbTimer {
            patch_id,
            patch_name: patch_name_for(patch_id),
            planted_at: now,
            paused: false,
            elapsed_paused: 0,
            last_pause_time: None,
        }
    }

    /// A timer for `patch_id` whose countdown starts at the present instant.
    pub fn new(patch_id: u8) -> (t: Self)
        ensures
            t.wf(),
            t.patch_id == patch_id,
            t.patch_name@ == patch_name_spec(patch_id),
            t.paused == false,
            t.elapsed_paused == 0,
            t.last_pause_time is None,
    {
        let now = now_millis();
        Self::new_at(patch_id, now)
    }

    /// Suspend the countdown as of `now`; a no-op while already paused.
    pub fn pause_at(&mut self, now: i64)
        requires
            old(self).wf(),
        ensures
            final(self).wf(),
            *final(self) == pause_step(*old(self), now),
    {
        if !self.paused {
            self.paused = true;
            self.last_pause_time = Some(now);
        }
    }

    /// Suspend the countdown as of the present instant; a no-op while
    /// already paused.
    pub fn pause(&mut self)
        requires
            old(self).wf(),
        ensures
            final(self).wf(),
            final(self).paused,
            final(self).patch_id == old(self).patch_id,
            final(self).patch_name == old(self).patch_name,
            final(self).planted_at == old(self).planted_at,
            final(self).elapsed_paused == old(self).elapsed_paused,
            old(self).paused ==> *final(self) == *old(self),
            exists|now: i64| *final(self) == pause_step(*old(self), now),
    {
        let now = now_millis();
        self.pause_at(now);
    }

    /// Resume the countdown as of `now`; a no-op while not paused.
    pub fn resume_at(&mut self, now: i64)
        requires
            old(self).wf(),
        ensures
            final(self).wf(),
            *final(self) == resume_step(*old(self), now),
    {
        if self.paused {
            if let Some(pause_began) = self.last_pause_time {
                let span_wide: i128 = now as i128 - pause_began as i128;
                let span: i128 = if span_wide > 0 {
                    span_wide
                } else {
                    0
                };
                let total: i128 = self.elapsed_paused as i128 + span;
                self.elapsed_paused = if total <= i64::MAX as i128 {
                    total as i64
                } else {
                    i64::MAX
                };
            }
            self.paused = false;
            self.last_pause_time = None;
        }
    }

    /// Resume the countdown as of the present instant; a no-op while not
    /// paused. The pause account never decreases.
    pub fn resume(&mut self)
        requires
            old(self).wf(),
        ensures
            final(self).wf(),
            !final(self).paused,
            final(self).last_pause_time is None,
            final(self).patch_id == old(self).patch_id,
            final(self).patch_name == old(self).patch_name,
            final(self).planted_at == old(self).planted_at,
            final(self).elapsed_paused >= old(self).elapsed_paused,
            !old(self).paused ==> *final(self) == *old(self),
            exists|now: i64| *final(self) == resume_step(*old(self), now),
    {
        let now = now_millis();
        self.resume_at(now);
    }

    /// Re-anchor the countdown to `now`, clearing pause state and the
    /// pause account, whatever the state beforehand.
    pub fn reset_at(&mut self, now: i64)
        ensures
            final(self).wf(),
            *final(self) == reset_step(*old(self), now),
    {
        self.planted_at = now;
        self.elapsed_paused = 0;
        self.last_pause_time = None;
        self.paused = false;
    }

    /// Re-anchor the countdown to the present instant, clearing pause
    /// state and the pause account, whatever the state beforehand.
    pub fn reset(&mut self)
        ensures
            final(self).wf(),
            !final(self).paused,
            final(self).elapsed_paused == 0,
            final(self).last_pause_time is None,
            final(self).patch_id == old(self).patch_id,
            final(self).patch_name == old(self).patch_name,
            exists|now: i64| *final(self) == reset_step(*old(self), now),
    {
        let now = now_millis();
        self.reset_at(now);
    }

    /// Signed milliseconds left of the fixed duration, measured against
    /// `now`; negative once the countdown has elapsed. Frozen while paused.
    pub fn time_remaining_at(&self, now: i64) -> (r: i128)
        requires
            self.wf(),
        ensures
            r == self.remaining_ms(now as int),
    {
        let reference: i128 = if self.paused {
            self.last_pause_time.unwrap() as i128
        } else {
            now as i128
        };
        FIXED_DURATION_MS as i128 - (reference - self.planted_at as i128
            - self.elapsed_paused as i128)
    }

    /// Signed milliseconds left, measured against the present instant.
    /// While paused the value does not depend on the clock at all.
    pub fn time_remaining(&self) -> (r: i128)
        requires
            self.wf(),
        ensures
            self.paused ==> forall|now: int| r == #[trigger] self.remaining_ms(now),
            exists|now: i64| r == self.remaining_ms(now as int),
    {
        let now = now_millis();
        self.time_remaining_at(now)
    }

    /// Whether the cycle has fully elapsed as of `now`.
    pub fn is_ready_at(&self, now: i64) -> (r: bool)
        requires
            self.wf(),
        ensures
            r == self.ready_at(now as int),
    {
        self.time_remaining_at(now) <= 0
    }

    /// Whether the cycle has fully elapsed as of the present instant.
    pub fn is_ready(&self) -> (r: bool)
        requires
            self.wf(),
        ensures
            self.paused ==> forall|now: int| r == #[trigger] self.ready_at(now),
            exists|now: i64| r == self.ready_at(now as int),
    {
        let now = now_millis();
        self.is_ready_at(now)
    }

    /// The remaining time as of `now`, rendered `MM:SS.mmm` and clamped
    /// so that an elapsed countdown shows all zeros, never a negative.
    pub fn formatted_remaining_at(&self, now: i64) -> (r: String)
        requires
            self.wf(),
        ensures
            r@ == render::duration_text(self.display_ms(now as int)),
    {
        let rem: i128 = self.time_remaining_at(now);
        let shown: u128 = if rem > 0 {
            rem as u128
        } else {
            0
        };
        render::duration_text_of(shown)
    }

    /// The remaining time as of the present instant, rendered `MM:SS.mmm`.
    pub fn formatted_remaining(&self) -> (r: String)
        requires
            self.wf(),
        ensures
            self.paused ==> forall|now: int| r@ == render::duration_text(
                #[trigger] self.display_ms(now),
            ),
            exists|now: i64| r@ == render::duration_text(self.display_ms(now as int)),
    {
        let now = now_millis();
        self.formatted_remaining_at(now)
    }

    /// Progress through the fixed duration as of `now`, in parts per
    /// thousand, clamped to the range 0 through 1000.
    pub fn progress_at(&self, now: i64) -> (r: u16)
        requires
            self.wf(),
        ensures
            r as int == self.progress_permille(now as int),
            r <= 1000,
    {
        let reference: i128 = if self.paused {
            self.last_pause_time.unwrap() as i128
        } else {
            now as i128
        };
        let elapsed: i128 = reference - self.planted_at as i128 - self.elapsed_paused as i128;
        let clamped: i128 = if elapsed < 0 {
            0
        } else if elapsed > FIXED_DURATION_MS as i128 {
            FIXED_DURATION_MS as i128
        } else {
            elapsed
        };
        (clamped * 1000 / (FIXED_DURATION_MS as i128)) as u16
    }

    /// Progress through the fixed duration as of the present instant, in
    /// parts per thousand.
    pub fn progress(&self) -> (r: u16)
        requires
            self.wf(),
        ensures
            r <= 1000,
            self.paused ==> forall|now: int| r as int == #[trigger] self.progress_permille(now),
            exists|now: i64| r as int == self.progress_permille(now as int),
    {
        let now = now_millis();
        self.progress_at(now)
    }
}

} // verus!
