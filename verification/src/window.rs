//! The preparation window: the time budget before the main action starts,
//! and the pickup notes to run in it.

use std::time::{Duration, Instant};
use vstd::prelude::*;

use crate::clock::{
    duration_checked_add, duration_nanos, duration_new, duration_saturating_sub,
    instant_checked_add, instant_duration_since, instant_now, nanos_of, MAX_DURATION_NANOS,
};
use crate::pickup::{PickupNote, PickupNoteModel};

verus! {

/// Total estimated time, in nanoseconds, of the pending notes of `s`.
pub open spec fn pending_time(s: Seq<PickupNoteModel>) -> nat
    decreases s.len(),
{
    if s.len() == 0 {
        0
    } else {
        pending_time(s.drop_last()) + if s.last().is_pending() {
            s.last().estimate()
        } else {
            0
        }
    }
}

/// The notes of `s` that are pending.
pub open spec fn pending_of(s: Seq<PickupNoteModel>) -> Seq<PickupNoteModel> {
    s.filter(|p: PickupNoteModel| p.is_pending())
}

/// The notes of `s` that completed.
pub open spec fn completed_of(s: Seq<PickupNoteModel>) -> Seq<PickupNoteModel> {
    s.filter(|p: PickupNoteModel| p.is_completed())
}

/// The notes of `s` that failed.
pub open spec fn failed_of(s: Seq<PickupNoteModel>) -> Seq<PickupNoteModel> {
    s.filter(|p: PickupNoteModel| p.is_failed())
}

/// What a preparation window holds, as the contracts speak of it.
pub struct WindowModel {
    pub total_time: Duration,
    pub used_time: Duration,
    pub opened_at: Option<Instant>,
    pub action_starts_at: Option<Instant>,
    pub pickups: Seq<PickupNoteModel>,
    pub active: bool,
}

impl WindowModel {
    /// Total preparation time in nanoseconds.
    pub open spec fn total(self) -> nat {
        duration_nanos(self.total_time)
    }

    /// Time used so far in nanoseconds.
    pub open spec fn used(self) -> nat {
        duration_nanos(self.used_time)
    }

    /// Preparation time left in nanoseconds: total minus used, and zero once
    /// more than the total has been used.
    pub open spec fn remaining(self) -> nat {
        if self.used() <= self.total() {
            (self.total() - self.used()) as nat
        } else {
            0
        }
    }

    /// Time is running out: less than a quarter of the total is left, that
    /// is, more than three quarters of it are used (or there was none).
    pub open spec fn is_urgent(self) -> bool {
        self.total() == 0 || 4 * self.used() > 3 * self.total()
    }

    /// Every essential note has completed.
    pub open spec fn essential_complete(self) -> bool {
        forall|i: int|
            0 <= i < self.pickups.len() && #[trigger] self.pickups[i].is_essential()
                ==> self.pickups[i].is_completed()
    }

    /// The pending notes fit into the time left.
    pub open spec fn sufficient_time(self) -> bool {
        pending_time(self.pickups) <= self.remaining()
    }
}

/// The calls that change a preparation window after it is made.
pub enum WindowOp {
    Open,
    Close,
    AddPickup(PickupNoteModel),
    UseTime(Duration),
}

/// What the call `op` makes of a window that held `before`: `after`.
pub open spec fn window_step(before: WindowModel, op: WindowOp, after: WindowModel) -> bool {
    match op {
        WindowOp::Open => {
            &&& after.active
            &&& after.opened_at is Some
            &&& after.total_time == before.total_time
            &&& after.used_time == before.used_time
            &&& after.pickups == before.pickups
        },
        WindowOp::Close => after == (WindowModel { active: false, ..before }),
        WindowOp::AddPickup(p) => after == (WindowModel { pickups: before.pickups.push(p), ..before }),
        WindowOp::UseTime(d) => {
            &&& after.used() == before.used() + duration_nanos(d)
            &&& after == (WindowModel { used_time: after.used_time, ..before })
        },
    }
}

/// Pending time of a prefix never exceeds that of the whole sequence.
proof fn lemma_pending_time_prefix(s: Seq<PickupNoteModel>, j: int)
    requires
        0 <= j <= s.len(),
    ensures
        pending_time(s.take(j)) <= pending_time(s),
    decreases s.len(),
{
    if j < s.len() {
        lemma_pending_time_prefix(s.drop_last(), j);
        assert(s.drop_last().take(j) =~= s.take(j));
    } else {
        assert(s.take(j) =~= s);
    }
}

/// Time before the main action for warmup and preparation.
#[derive(Debug, Clone)]
pub struct PreparationWindow {
    total_time: Duration,
    used_time: Duration,
    opened_at: Option<Instant>,
    action_starts_at: Option<Instant>,
    pickups: Vec<PickupNote>,
    active: bool,
}

impl View for PreparationWindow {
    type V = WindowModel;

    closed spec fn view(&self) -> WindowModel {
        WindowModel {
            total_time: self.total_time,
            used_time: self.used_time,
            opened_at: self.opened_at,
            action_starts_at: self.action_starts_at,
            pickups: self.pickups@.map_values(|p: PickupNote| p@),
            active: self.active,
        }
    }
}

impl PreparationWindow {
    /// A closed window of `total_time`, with nothing used and no pickups.
    pub fn new(total_time: Duration) -> (r: Self)
        ensures
            r@.total_time == total_time,
            r@.used() == 0,
            r@.opened_at is None,
            r@.action_starts_at is None,
            r@.pickups == Seq::<PickupNoteModel>::empty(),
            !r@.active,
    {
        let r = PreparationWindow {
            total_time,
            used_time: duration_new(0, 0),
            opened_at: None,
            action_starts_at: None,
            pickups: Vec::new(),
            active: false,
        };
        assert(r@.pickups =~= Seq::<PickupNoteModel>::empty());
        r
    }

    /// Opens the window: records when it opened and, where the clock can
    /// represent it, when the main action starts (the opening plus the total
    /// time).
    pub fn open(&mut self)
        ensures
            final(self)@.active,
            final(self)@.opened_at is Some,
            final(self)@.total_time == old(self)@.total_time,
            final(self)@.used_time == old(self)@.used_time,
            final(self)@.pickups == old(self)@.pickups,
            window_step(old(self)@, WindowOp::Open, final(self)@),
    {
        let now = instant_now();
        self.opened_at = Some(now);
        self.action_starts_at = instant_checked_add(now, self.total_time);
        self.active = true;
    }

    /// Adds a pickup note at the end.
    pub fn add_pickup(&mut self, pickup: PickupNote)
        ensures
            final(self)@ == (WindowModel { pickups: old(self)@.pickups.push(pickup@), ..old(self)@ }),
            window_step(old(self)@, WindowOp::AddPickup(pickup@), final(self)@),
    {
        self.pickups.push(pickup);
        assert(self@.pickups =~= old(self)@.pickups.push(pickup@));
    }

    /// Preparation time left: total minus used, saturating at zero.
    pub fn remaining(&self) -> (r: Duration)
        ensures
            duration_nanos(r) == self@.remaining(),
    {
        duration_saturating_sub(self.total_time, self.used_time)
    }

    /// Time from now until the main action starts, once the window has
    /// recorded that moment; zero if it has passed.
    pub fn remaining_wall(&self) -> (r: Option<Duration>)
        ensures
            r is Some <==> self@.action_starts_at is Some,
    {
        match &self.action_starts_at {
            Some(t) => Some(instant_duration_since(t, instant_now())),
            None => None,
        }
    }

    /// Records `duration` of preparation time as used.
    pub fn use_time(&mut self, duration: Duration)
        requires
            old(self)@.used() + duration_nanos(duration) <= MAX_DURATION_NANOS,
        ensures
            final(self)@.used() == old(self)@.used() + duration_nanos(duration),
            final(self)@ == (WindowModel { used_time: final(self)@.used_time, ..old(self)@ }),
            window_step(old(self)@, WindowOp::UseTime(duration), final(self)@),
    {
        match duration_checked_add(self.used_time, duration) {
            Some(sum) => {
                self.used_time = sum;
            },
            None => {},
        }
    }

    /// Records `duration` as used where the sum fits into a `Duration`, and
    /// reports whether it did; otherwise the window is left unchanged.
    pub fn try_use_time(&mut self, duration: Duration) -> (r: bool)
        ensures
            r <==> old(self)@.used() + duration_nanos(duration) <= MAX_DURATION_NANOS,
            r ==> final(self)@.used() == old(self)@.used() + duration_nanos(duration),
            r ==> final(self)@ == (WindowModel { used_time: final(self)@.used_time, ..old(self)@ }),
            !r ==> final(self)@ == old(self)@,
            r ==> window_step(old(self)@, WindowOp::UseTime(duration), final(self)@),
    {
        match duration_checked_add(self.used_time, duration) {
            Some(sum) => {
                self.used_time = sum;
                true
            },
            None => false,
        }
    }

    /// Whether `duration` can be recorded as used: the time used would still
    /// fit into a `Duration`. This is what `use_time` needs.
    pub fn can_use_time(&self, duration: Duration) -> (r: bool)
        ensures
            r == (self@.used() + duration_nanos(duration) <= MAX_DURATION_NANOS),
    {
        let used = nanos_of(&self.used_time);
        let d = nanos_of(&duration);
        d <= MAX_DURATION_NANOS - used
    }

    /// Whether the window is open.
    pub fn is_active(&self) -> (r: bool)
        ensures
            r == self@.active,
    {
        self.active
    }

    /// Closes the window: the main action starts.
    pub fn close(&mut self)
        ensures
            final(self)@ == (WindowModel { active: false, ..old(self)@ }),
            window_step(old(self)@, WindowOp::Close, final(self)@),
    {
        self.active = false;
    }

    /// Whether time is running out: less than a quarter of the total is left.
    pub fn is_urgent(&self) -> (r: bool)
        ensures
            r == self@.is_urgent(),
    {
        let total = nanos_of(&self.total_time);
        let used = nanos_of(&self.used_time);
        total == 0 || 4 * used > 3 * total
    }

    /// Total preparation time.
    pub fn total_time(&self) -> (r: Duration)
        ensures
            r == self@.total_time,
    {
        self.total_time
    }

    /// Time used so far.
    pub fn used_time(&self) -> (r: Duration)
        ensures
            r == self@.used_time,
    {
        self.used_time
    }

    /// All pickup notes, in the order they were added.
    pub fn pickups(&self) -> (r: &[PickupNote])
        ensures
            r@.map_values(|p: PickupNote| p@) == self@.pickups,
    {
        self.pickups.as_slice()
    }

    /// The pending pickup notes, in order.
    pub fn pending_pickups(&self) -> (r: Vec<&PickupNote>)
        ensures
            r@.map_values(|p: &PickupNote| p@) == pending_of(self@.pickups),
    {
        let ghost s = self@.pickups;
        let mut out: Vec<&PickupNote> = Vec::new();
        let mut i: usize = 0;
        while i < self.pickups.len()
            invariant
                i <= self.pickups@.len(),
                s == self@.pickups,
                out@.map_values(|p: &PickupNote| p@) == pending_of(s.take(i as int)),
            decreases self.pickups@.len() - i,
        {
            proof {
                assert(s.take(i + 1) =~= s.take(i as int).push(s[i as int]));
                s.take(i as int).lemma_filter_push(s[i as int], |p: PickupNoteModel| p.is_pending());
            }
            let p = &self.pickups[i];
            if p.is_ready() {
                out.push(p);
            }
            assert(out@.map_values(|p: &PickupNote| p@) =~= pending_of(s.take(i + 1)));
            i = i + 1;
        }
        assert(s.take(s.len() as int) =~= s);
        out
    }

    /// The completed pickup notes, in order.
    pub fn completed_pickups(&self) -> (r: Vec<&PickupNote>)
        ensures
            r@.map_values(|p: &PickupNote| p@) == completed_of(self@.pickups),
    {
        let ghost s = self@.pickups;
        let mut out: Vec<&PickupNote> = Vec::new();
        let mut i: usize = 0;
        while i < self.pickups.len()
            invariant
                i <= self.pickups@.len(),
                s == self@.pickups,
                out@.map_values(|p: &PickupNote| p@) == completed_of(s.take(i as int)),
            decreases self.pickups@.len() - i,
        {
            proof {
                assert(s.take(i + 1) =~= s.take(i as int).push(s[i as int]));
                s.take(i as int).lemma_filter_push(s[i as int], |p: PickupNoteModel| p.is_completed());
            }
            let p = &self.pickups[i];
            if p.is_completed() {
                out.push(p);
            }
            assert(out@.map_values(|p: &PickupNote| p@) =~= completed_of(s.take(i + 1)));
            i = i + 1;
        }
        assert(s.take(s.len() as int) =~= s);
        out
    }

    /// The failed pickup notes, in order.
    pub fn failed_pickups(&self) -> (r: Vec<&PickupNote>)
        ensures
            r@.map_values(|p: &PickupNote| p@) == failed_of(self@.pickups),
    {
        let ghost s = self@.pickups;
        let mut out: Vec<&PickupNote> = Vec::new();
        let mut i: usize = 0;
        while i < self.pickups.len()
            invariant
                i <= self.pickups@.len(),
                s == self@.pickups,
                out@.map_values(|p: &PickupNote| p@) == failed_of(s.take(i as int)),
            decreases self.pickups@.len() - i,
        {
            proof {
                assert(s.take(i + 1) =~= s.take(i as int).push(s[i as int]));
                s.take(i as int).lemma_filter_push(s[i as int], |p: PickupNoteModel| p.is_failed());
            }
            let p = &self.pickups[i];
            if p.is_failed() {
                out.push(p);
            }
            assert(out@.map_values(|p: &PickupNote| p@) =~= failed_of(s.take(i + 1)));
            i = i + 1;
        }
        assert(s.take(s.len() as int) =~= s);
        out
    }

    /// Number of pickup notes.
    pub fn pickup_count(&self) -> (r: usize)
        ensures
            r == self@.pickups.len(),
    {
        self.pickups.len()
    }

    /// Whether every essential pickup note has completed.
    pub fn essential_pickups_complete(&self) -> (r: bool)
        ensures
            r == self@.essential_complete(),
    {
        let ghost s = self@.pickups;
        let mut i: usize = 0;
        while i < self.pickups.len()
            invariant
                i <= self.pickups@.len(),
                s == self@.pickups,
                forall|k: int| 0 <= k < i && #[trigger] s[k].is_essential() ==> s[k].is_completed(),
            decreases self.pickups@.len() - i,
        {
            let p = &self.pickups[i];
            if p.is_essential() && !p.is_completed() {
                assert(s[i as int].is_essential());
                return false;
            }
            i = i + 1;
        }
        true
    }

    /// Whether the estimated time of the pending pickup notes fits into the
    /// preparation time left.
    pub fn has_sufficient_time(&self) -> (r: bool)
        ensures
            r == self@.sufficient_time(),
    {
        let ghost s = self@.pickups;
        let rem = nanos_of(&self.remaining());
        let mut acc: u128 = 0;
        let mut i: usize = 0;
        while i < self.pickups.len()
            invariant
                i <= self.pickups@.len(),
                s == self@.pickups,
                rem == self@.remaining(),
                acc == pending_time(s.take(i as int)),
                acc <= rem,
            decreases self.pickups@.len() - i,
        {
            assert(s.take(i + 1).drop_last() =~= s.take(i as int));
            let p = &self.pickups[i];
            if p.is_ready() {
                let e = nanos_of(&p.estimated_duration());
                if e > rem - acc {
                    proof {
                        lemma_pending_time_prefix(s, i + 1);
                    }
                    return false;
                }
                acc = acc + e;
            }
            i = i + 1;
        }
        assert(s.take(s.len() as int) =~= s);
        true
    }
}

} // verus!
