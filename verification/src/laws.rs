//! Laws of the timer state machine, each proved once and for all over the
//! spec-level transitions that the executable methods are proved to follow.

use vstd::prelude::*;
use crate::FIXED_DURATION_MS;
use crate::render;
use crate::timer::HerbTimer;
use crate::timer::pause_step;
use crate::timer::resume_step;
use crate::timer::reset_step;

verus! {

/// A timer in its freshly created state — running, with an empty pause
/// account — shows no progress and is not ready when queried at the very
/// instant its countdown started.
pub proof fn lemma_fresh_timer(t: HerbTimer)
    requires
        !t.paused,
        t.elapsed_paused == 0,
    ensures
        t.progress_permille(t.planted_at as int) == 0,
        !t.ready_at(t.planted_at as int),
        t.remaining_ms(t.planted_at as int) == FIXED_DURATION_MS,
{
}

/// Once the countdown has elapsed, the display never shows a negative
/// value: it is clamped to all zeros.
pub proof fn lemma_display_clamped(t: HerbTimer, now: int)
    requires
        t.remaining_ms(now) <= 0,
    ensures
        render::duration_text(t.display_ms(now)) == "00:00.000"@,
{
    render::lemma_duration_text_zero();
}

/// Pausing twice in a row leaves exactly the state of pausing once: the
/// second call changes nothing.
pub proof fn lemma_pause_idempotent(t: HerbTimer, first: i64, second: i64)
    ensures
        pause_step(pause_step(t, first), second) == pause_step(t, first),
{
}

/// Resuming twice in a row leaves exactly the state of resuming once: the
/// second call changes nothing.
pub proof fn lemma_resume_idempotent(t: HerbTimer, first: i64, second: i64)
    ensures
        resume_step(resume_step(t, first), second) == resume_step(t, first),
{
}

/// While paused, the remaining time is frozen at the instant pausing
/// began, whatever instant the query is made at.
pub proof fn lemma_paused_remaining_frozen(t: HerbTimer, pause_now: i64, query_now: int)
    requires
        !t.paused,
    ensures
        pause_step(t, pause_now).remaining_ms(query_now) == t.remaining_ms(pause_now as int),
{
}

/// Pausing and later resuming returns the remaining time to exactly where
/// it stood when the pause began: pausing does not advance the countdown.
/// The clock may not run backwards across the pause, and the pause account
/// must stay representable.
pub proof fn lemma_pause_resume_round_trip(t: HerbTimer, pause_now: i64, resume_now: i64)
    requires
        t.wf(),
        !t.paused,
        pause_now <= resume_now,
        t.elapsed_paused + (resume_now - pause_now) <= i64::MAX,
    ensures
        resume_step(pause_step(t, pause_now), resume_now).remaining_ms(resume_now as int)
            == t.remaining_ms(pause_now as int),
{
}

/// After a resume, a running countdown keeps decreasing: remaining time
/// is antitone in the clock while the timer runs.
pub proof fn lemma_running_remaining_decreases(t: HerbTimer, earlier: int, later: int)
    requires
        !t.paused,
        earlier <= later,
    ensures
        t.remaining_ms(later) <= t.remaining_ms(earlier),
{
}

/// Reset always yields a fresh epoch — no progress, not paused, the full
/// duration ahead — regardless of the state beforehand.
pub proof fn lemma_reset_fresh(t: HerbTimer, now: i64)
    ensures
        !reset_step(t, now).paused,
        reset_step(t, now).progress_permille(now as int) == 0,
        reset_step(t, now).remaining_ms(now as int) == FIXED_DURATION_MS,
{
}

} // verus!
