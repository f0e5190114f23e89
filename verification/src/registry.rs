//! The timer registry: a sparse mapping from patch identifiers 1 through 8
//! to optional owned timers. Absence means "not started"; timers are
//! created only by an explicit start action and are never removed.

use vstd::prelude::*;
use crate::clock::now_millis;
use crate::timer::HerbTimer;
use crate::timer::patch_name_spec;
use crate::timer::pause_step;
use crate::timer::resume_step;
use crate::timer::reset_step;

verus! {

/// How many patches the registry tracks.
pub const PATCH_COUNT: u8 = 8;

pub struct TimerRegistry {
    slots: Vec<Option<HerbTimer>>,
}

impl TimerRegistry {
    /// The registry's internal invariant: one slot per patch, every stored
    /// timer well-formed.
    pub closed spec fn wf(self) -> bool {
        &&& self.slots@.len() == PATCH_COUNT
        &&& forall|i: int|
            0 <= i < PATCH_COUNT && self.slots@[i] is Some ==> (#[trigger] self.slots@[i])->Some_0.wf()
    }

    /// The entry stored for `patch_id`; identifiers outside 1 through 8
    /// never hold one.
    pub closed spec fn entry(self, patch_id: u8) -> Option<HerbTimer> {
        if 1 <= patch_id <= PATCH_COUNT {
            self.slots@[patch_id - 1]
        } else {
            None
        }
    }

    /// An empty registry: no patch has been started.
    pub fn new() -> (r: Self)
        ensures
            r.wf(),
            forall|patch_id: u8| #[trigger] r.entry(patch_id) is None,
    {
        let mut slots: Vec<Option<HerbTimer>> = Vec::new();
        let mut i: u8 = 0;
        while i < PATCH_COUNT
            invariant
                i <= PATCH_COUNT,
                slots@.len() == i,
                forall|j: int| 0 <= j < i ==> slots@[j] is None,
            decreases PATCH_COUNT - i,
        {
            slots.push(None);
            i = i + 1;
        }
        TimerRegistry { slots }
    }

    /// The timer at `patch_id`, absent if that patch was never started.
    pub fn get(&self, patch_id: u8) -> (r: Option<&HerbTimer>)
        requires
            self.wf(),
        ensures
            match r {
                Some(t) => self.entry(patch_id) == Some(*t) && t.wf(),
                None => self.entry(patch_id) is None,
            },
    {
        if 1 <= patch_id && patch_id <= PATCH_COUNT {
            match &self.slots[(patch_id - 1) as usize] {
                Some(t) => Some(t),
                None => None,
            }
        } else {
            None
        }
    }

    /// Start the countdown for `patch_id` at `now`: stores a fresh timer
    /// if none exists; a no-op on an identifier already started (an
    /// in-progress countdown is never silently discarded) or out of range.
    pub fn start_at(&mut self, patch_id: u8, now: i64)
        requires
            old(self).wf(),
        ensures
            final(self).wf(),
            !(1 <= patch_id <= PATCH_COUNT) ==> *final(self) == *old(self),
            old(self).entry(patch_id) is Some ==> *final(self) == *old(self),
            (1 <= patch_id <= PATCH_COUNT && old(self).entry(patch_id) is None) ==> {
                &&& final(self).entry(patch_id) is Some
                &&& final(self).entry(patch_id)->Some_0.wf()
                &&& final(self).entry(patch_id)->Some_0.patch_id == patch_id
                &&& final(self).entry(patch_id)->Some_0.patch_name@ == patch_name_spec(patch_id)
                &&& final(self).entry(patch_id)->Some_0.planted_at == now
                &&& final(self).entry(patch_id)->Some_0.paused == false
                &&& final(self).entry(patch_id)->Some_0.elapsed_paused == 0
                &&& final(self).entry(patch_id)->Some_0.last_pause_time is None
            },
            forall|other: u8|
                other != patch_id ==> #[trigger] final(self).entry(other) == old(self).entry(other),
    {
        if 1 <= patch_id && patch_id <= PATCH_COUNT {
            let idx = (patch_id - 1) as usize;
            if self.slots[idx].is_none() {
                let fresh = HerbTimer::new_at(patch_id, now);
                let slot = &mut self.slots[idx];
                *slot = Some(fresh);
            }
        }
    }

    /// Start the countdown for `patch_id` at the present instant; a no-op
    /// on an identifier already started or out of range.
    pub fn start(&mut self, patch_id: u8)
        requires
            old(self).wf(),
        ensures
            final(self).wf(),
            !(1 <= patch_id <= PATCH_COUNT) ==> *final(self) == *old(self),
            old(self).entry(patch_id) is Some ==> *final(self) == *old(self),
            (1 <= patch_id <= PATCH_COUNT && old(self).entry(patch_id) is None) ==> {
                &&& final(self).entry(patch_id) is Some
                &&& final(self).entry(patch_id)->Some_0.wf()
                &&& final(self).entry(patch_id)->Some_0.patch_id == patch_id
                &&& final(self).entry(patch_id)->Some_0.patch_name@ == patch_name_spec(patch_id)
                &&& final(self).entry(patch_id)->Some_0.paused == false
                &&& final(self).entry(patch_id)->Some_0.elapsed_paused == 0
                &&& final(self).entry(patch_id)->Some_0.last_pause_time is None
            },
            forall|other: u8|
                other != patch_id ==> #[trigger] final(self).entry(other) == old(self).entry(other),
    {
        let now = now_millis();
        self.start_at(patch_id, now);
    }

    /// Suspend the timer at `patch_id` as of `now`; a no-op where none is
    /// stored or it is already paused.
    pub fn pause_at(&mut self, patch_id: u8, now: i64)
        requires
            old(self).wf(),
        ensures
            final(self).wf(),
            old(self).entry(patch_id) is None ==> final(self).entry(patch_id) is None,
            old(self).entry(patch_id) matches Some(t) ==> final(self).entry(patch_id) == Some(
                pause_step(t, now),
            ),
            forall|other: u8|
                other != patch_id ==> #[trigger] final(self).entry(other) == old(self).entry(other),
    {
        if 1 <= patch_id && patch_id <= PATCH_COUNT {
            let idx = (patch_id - 1) as usize;
            let slot = &mut self.slots[idx];
            match slot {
                Some(t) => t.pause_at(now),
                None => (),
            }
        }
    }

    /// Resume the timer at `patch_id` as of `now`; a no-op where none is
    /// stored or it is running.
    pub fn resume_at(&mut self, patch_id: u8, now: i64)
        requires
            old(self).wf(),
        ensures
            final(self).wf(),
            old(self).entry(patch_id) is None ==> final(self).entry(patch_id) is None,
            old(self).entry(patch_id) matches Some(t) ==> final(self).entry(patch_id) == Some(
                resume_step(t, now),
            ),
            forall|other: u8|
                other != patch_id ==> #[trigger] final(self).entry(other) == old(self).entry(other),
    {
        if 1 <= patch_id && patch_id <= PATCH_COUNT {
            let idx = (patch_id - 1) as usize;
            let slot = &mut self.slots[idx];
            match slot {
                Some(t) => t.resume_at(now),
                None => (),
            }
        }
    }

    /// Suspend the timer at `patch_id` as of the present instant; a no-op
    /// where none is stored or it is already paused.
    pub fn pause(&mut self, patch_id: u8)
        requires
            old(self).wf(),
        ensures
            final(self).wf(),
            old(self).entry(patch_id) is None ==> final(self).entry(patch_id) is None,
            old(self).entry(patch_id) matches Some(t) ==> exists|now: i64|
                final(self).entry(patch_id) == Some(pause_step(t, now)),
            forall|other: u8|
                other != patch_id ==> #[trigger] final(self).entry(other) == old(self).entry(other),
    {
        let now = now_millis();
        self.pause_at(patch_id, now);
    }

    /// Resume the timer at `patch_id` as of the present instant; a no-op
    /// where none is stored or it is running.
    pub fn resume(&mut self, patch_id: u8)
        requires
            old(self).wf(),
        ensures
            final(self).wf(),
            old(self).entry(patch_id) is None ==> final(self).entry(patch_id) is None,
            old(self).entry(patch_id) matches Some(t) ==> exists|now: i64|
                final(self).entry(patch_id) == Some(resume_step(t, now)),
            forall|other: u8|
                other != patch_id ==> #[trigger] final(self).entry(other) == old(self).entry(other),
    {
        let now = now_millis();
        self.resume_at(patch_id, now);
    }

    /// Reset the timer at `patch_id` to a fresh epoch anchored at `now`;
    /// a no-op where none is stored.
    pub fn reset_at(&mut self, patch_id: u8, now: i64)
        requires
            old(self).wf(),
        ensures
            final(self).wf(),
            old(self).entry(patch_id) is None ==> final(self).entry(patch_id) is None,
            old(self).entry(patch_id) matches Some(t) ==> final(self).entry(patch_id) == Some(
                reset_step(t, now),
            ),
            forall|other: u8|
                other != patch_id ==> #[trigger] final(self).entry(other) == old(self).entry(other),
    {
        if 1 <= patch_id && patch_id <= PATCH_COUNT {
            let idx = (patch_id - 1) as usize;
            let slot = &mut self.slots[idx];
            match slot {
                Some(t) => t.reset_at(now),
                None => (),
            }
        }
    }

    /// Reset the timer at `patch_id` to a fresh epoch anchored at the
    /// present instant; a no-op where none is stored.
    pub fn reset(&mut self, patch_id: u8)
        requires
            old(self).wf(),
        ensures
            final(self).wf(),
            old(self).entry(patch_id) is None ==> final(self).entry(patch_id) is None,
            old(self).entry(patch_id) matches Some(t) ==> exists|now: i64|
                final(self).entry(patch_id) == Some(reset_step(t, now)),
            forall|other: u8|
                other != patch_id ==> #[trigger] final(self).entry(other) == old(self).entry(other),
    {
        let now = now_millis();
        self.reset_at(patch_id, now);
    }
}

} // verus!
