//! Properties that hold across the operations of the library.

use vstd::prelude::*;

use crate::clock::duration_nanos;
use crate::metadata::Metadata;
use crate::pickup::{note_step, NoteOp, PickupNoteModel};
use crate::setup::{
    failing, failure_lines, has_critical_failure, passing, setup_step, verdict, CheckModel,
    ResultModel, SetupModel, SetupOp,
};
use crate::window::{pending_time, window_step, WindowModel, WindowOp};

verus! {

/// Every check either passes or fails: the passing and the failing checks
/// together are all the checks.
pub proof fn law_checks_partition(s: Seq<CheckModel>)
    ensures
        passing(s).len() + failing(s).len() == s.len(),
    decreases s.len(),
{
    if s.len() > 0 {
        law_checks_partition(s.drop_last());
        assert(s.drop_last().push(s.last()) =~= s);
        s.drop_last().lemma_filter_push(s.last(), |c: CheckModel| c.passed);
        s.drop_last().lemma_filter_push(s.last(), |c: CheckModel| !c.passed);
    } else {
        reveal(Seq::filter);
    }
}

/// The verdict is ready exactly when no check failed, not ready exactly when
/// a critical check failed, and partially ready exactly when some check
/// failed and none of the failed ones is critical. The lines of a not-ready
/// or partially-ready verdict report every failed check, one line each.
pub proof fn law_verdict(s: Seq<CheckModel>)
    ensures
        verdict(s) is Ready <==> failing(s).len() == 0,
        verdict(s) is NotReady <==> has_critical_failure(s),
        verdict(s) is PartiallyReady <==> (failing(s).len() > 0 && !has_critical_failure(s)),
        verdict(s) matches ResultModel::NotReady { failures } ==> failures.len() == failing(s).len(),
        verdict(s) matches ResultModel::PartiallyReady { warnings } ==> warnings.len()
            == failing(s).len(),
{
    if s.len() == 0 {
        reveal(Seq::filter);
    }
    if has_critical_failure(s) {
        let i = choose|i: int| 0 <= i < s.len() && #[trigger] s[i].critical && !s[i].passed;
        s.lemma_filter_contains(|c: CheckModel| !c.passed, i);
    }
    assert(failure_lines(s, "failed"@).len() == failing(s).len());
    assert(failure_lines(s, "warning"@).len() == failing(s).len());
}

/// "Urgent" means that less than a quarter of the preparation time is left:
/// the window is urgent exactly when it has no time at all or four times
/// what remains is less than the total.
pub proof fn law_urgent_when_quarter_left(w: WindowModel)
    ensures
        w.is_urgent() <==> (w.total() == 0 || 4 * w.remaining() < w.total()),
        w.remaining() <= w.total(),
{
}

/// With no essential pickup notes there is nothing to wait for: every
/// essential note has (vacuously) completed.
pub proof fn law_no_essential_notes_vacuously_complete(w: WindowModel)
    requires
        forall|i: int| 0 <= i < w.pickups.len() ==> !#[trigger] w.pickups[i].is_essential(),
    ensures
        w.essential_complete(),
{
}

/// Using `d` nanoseconds of preparation time takes them off what remains,
/// down to zero, and leaves the total as it was.
pub proof fn law_use_time_reduces_remaining(before: WindowModel, after: WindowModel, d: nat)
    requires
        after.total_time == before.total_time,
        after.used() == before.used() + d,
    ensures
        after.remaining() == if before.remaining() >= d {
            (before.remaining() - d) as nat
        } else {
            0
        },
        after.remaining() <= before.remaining(),
{
}

/// `states` is what a pickup note holds along the calls `ops`: each state is
/// what the call makes of the one before.
pub open spec fn note_run(states: Seq<PickupNoteModel>, ops: Seq<NoteOp>) -> bool {
    &&& states.len() == ops.len() + 1
    &&& forall|k: int|
        #![trigger ops[k]]
        0 <= k < ops.len() ==> note_step(states[k], ops[k], states[k + 1])
}

/// A run is still a run without its last call.
proof fn lemma_note_run_prefix(states: Seq<PickupNoteModel>, ops: Seq<NoteOp>)
    requires
        note_run(states, ops),
        ops.len() > 0,
    ensures
        note_run(states.drop_last(), ops.drop_last()),
        note_step(states[ops.len() - 1], ops[ops.len() - 1], states.last()),
{
    let s2 = states.drop_last();
    let o2 = ops.drop_last();
    assert forall|k: int| 0 <= k < o2.len() implies note_step(s2[k], #[trigger] o2[k], s2[k + 1]) by {
        assert(ops[k] == o2[k]);
    }
    assert(ops[ops.len() - 1] == ops[ops.len() - 1]);
}

/// Whatever builder and lifecycle calls follow, a pickup note keeps the
/// identifier and description it was made with.
pub proof fn law_note_keeps_identity(states: Seq<PickupNoteModel>, ops: Seq<NoteOp>)
    requires
        note_run(states, ops),
    ensures
        states.last().id == states[0].id,
        states.last().description == states[0].description,
    decreases ops.len(),
{
    if ops.len() > 0 {
        lemma_note_run_prefix(states, ops);
        law_note_keeps_identity(states.drop_last(), ops.drop_last());
    }
}

/// A pickup note that was started and then completed or failed has a
/// measured duration, and the status of the last call.
pub proof fn law_started_then_stopped_is_measured(
    a: PickupNoteModel,
    b: PickupNoteModel,
    c: PickupNoteModel,
    stop: NoteOp,
)
    requires
        note_step(a, NoteOp::Start, b),
        stop is Complete || stop is Fail,
        note_step(b, stop, c),
    ensures
        c.actual_duration is Some,
        stop is Complete ==> c.is_completed(),
        stop is Fail ==> c.is_failed(),
{
}

/// `states` is what a preparation window holds along the calls `ops`.
pub open spec fn window_run(states: Seq<WindowModel>, ops: Seq<WindowOp>) -> bool {
    &&& states.len() == ops.len() + 1
    &&& forall|k: int|
        #![trigger ops[k]]
        0 <= k < ops.len() ==> window_step(states[k], ops[k], states[k + 1])
}

/// The last of the calls `ops` that opens or closes the window opens it.
pub open spec fn opened_since_close(ops: Seq<WindowOp>) -> bool
    decreases ops.len(),
{
    if ops.len() == 0 {
        false
    } else {
        match ops.last() {
            WindowOp::Open => true,
            WindowOp::Close => false,
            _ => opened_since_close(ops.drop_last()),
        }
    }
}

/// Total time, in nanoseconds, that the calls `ops` record as used.
pub open spec fn time_used_by(ops: Seq<WindowOp>) -> nat
    decreases ops.len(),
{
    if ops.len() == 0 {
        0
    } else {
        time_used_by(ops.drop_last()) + match ops.last() {
            WindowOp::UseTime(d) => duration_nanos(d),
            _ => 0,
        }
    }
}

/// A run is still a run without its last call.
proof fn lemma_window_run_prefix(states: Seq<WindowModel>, ops: Seq<WindowOp>)
    requires
        window_run(states, ops),
        ops.len() > 0,
    ensures
        window_run(states.drop_last(), ops.drop_last()),
        window_step(states[ops.len() - 1], ops[ops.len() - 1], states.last()),
{
    let s2 = states.drop_last();
    let o2 = ops.drop_last();
    assert forall|k: int| 0 <= k < o2.len() implies window_step(s2[k], #[trigger] o2[k], s2[k + 1]) by {
        assert(ops[k] == o2[k]);
    }
    assert(ops[ops.len() - 1] == ops[ops.len() - 1]);
}

/// A window that starts closed (as `new` makes it) is active exactly when,
/// of the calls made on it, the last `open` or `close` was an `open`.
pub proof fn law_window_active_follows_last_open_close(
    states: Seq<WindowModel>,
    ops: Seq<WindowOp>,
)
    requires
        window_run(states, ops),
        !states[0].active,
    ensures
        states.last().active == opened_since_close(ops),
    decreases ops.len(),
{
    if ops.len() > 0 {
        lemma_window_run_prefix(states, ops);
        law_window_active_follows_last_open_close(states.drop_last(), ops.drop_last());
    }
}

/// Along any calls, the time used is what it was plus every amount passed to
/// `use_time`, the total stays, and what remains is the total minus the time
/// used, down to zero.
pub proof fn law_window_used_time_adds_up(states: Seq<WindowModel>, ops: Seq<WindowOp>)
    requires
        window_run(states, ops),
    ensures
        states.last().used() == states[0].used() + time_used_by(ops),
        states.last().total_time == states[0].total_time,
        states.last().remaining() == if states[0].used() + time_used_by(ops) <= states[0].total() {
            (states[0].total() - (states[0].used() + time_used_by(ops))) as nat
        } else {
            0
        },
    decreases ops.len(),
{
    if ops.len() > 0 {
        lemma_window_run_prefix(states, ops);
        law_window_used_time_adds_up(states.drop_last(), ops.drop_last());
    }
}

/// `states` is what a setup verification holds along the calls `ops`.
pub open spec fn setup_run(states: Seq<SetupModel>, ops: Seq<SetupOp>) -> bool {
    &&& states.len() == ops.len() + 1
    &&& forall|k: int|
        #![trigger ops[k]]
        0 <= k < ops.len() ==> setup_step(states[k], ops[k], states[k + 1])
}

/// Some call of `ops` is a `verify`, and no check was added after the last one.
pub open spec fn verified_since_added(ops: Seq<SetupOp>) -> bool
    decreases ops.len(),
{
    if ops.len() == 0 {
        false
    } else {
        match ops.last() {
            SetupOp::Verify => true,
            SetupOp::AddCheck(_) => false,
        }
    }
}

/// The checks that the calls `ops` add, in order.
pub open spec fn checks_added_by(ops: Seq<SetupOp>) -> Seq<CheckModel>
    decreases ops.len(),
{
    if ops.len() == 0 {
        Seq::empty()
    } else {
        match ops.last() {
            SetupOp::AddCheck(c) => checks_added_by(ops.drop_last()).push(c),
            SetupOp::Verify => checks_added_by(ops.drop_last()),
        }
    }
}

/// A run is still a run without its last call.
proof fn lemma_setup_run_prefix(states: Seq<SetupModel>, ops: Seq<SetupOp>)
    requires
        setup_run(states, ops),
        ops.len() > 0,
    ensures
        setup_run(states.drop_last(), ops.drop_last()),
        setup_step(states[ops.len() - 1], ops[ops.len() - 1], states.last()),
{
    let s2 = states.drop_last();
    let o2 = ops.drop_last();
    assert forall|k: int| 0 <= k < o2.len() implies setup_step(s2[k], #[trigger] o2[k], s2[k + 1]) by {
        assert(ops[k] == o2[k]);
    }
    assert(ops[ops.len() - 1] == ops[ops.len() - 1]);
}

/// A setup verification that starts not run (as `new` makes it) is verified
/// exactly when `verify` was called and no check was added after it; its
/// checks are the ones it had followed by every added check, in order.
pub proof fn law_setup_verified_follows_last_call(states: Seq<SetupModel>, ops: Seq<SetupOp>)
    requires
        setup_run(states, ops),
        !states[0].verified,
    ensures
        states.last().verified == verified_since_added(ops),
        states.last().checks == states[0].checks + checks_added_by(ops),
    decreases ops.len(),
{
    if ops.len() > 0 {
        lemma_setup_run_prefix(states, ops);
        law_setup_verified_follows_last_call(states.drop_last(), ops.drop_last());
        assert(states.last().checks =~= states[0].checks + checks_added_by(ops));
    } else {
        assert(states[0].checks + checks_added_by(ops) =~= states[0].checks);
    }
}

/// Metadata read after write: once `insert` has set `key` to `value`,
/// `get` and `contains_key` find `value` under `key`, and every other key
/// keeps its entry.
pub proof fn law_metadata_read_after_write(
    before: Metadata,
    after: Metadata,
    key: Seq<char>,
    value: Seq<char>,
    other: Seq<char>,
)
    requires
        after@ == before@.insert(key, value),
        other != key,
    ensures
        after@.contains_key(key),
        after@[key] == value,
        after@.contains_key(other) == before@.contains_key(other),
        before@.contains_key(other) ==> after@[other] == before@[other],
{
}

/// If every check passed, no check is failing.
proof fn lemma_all_passed_none_failing(s: Seq<CheckModel>)
    requires
        forall|i: int| 0 <= i < s.len() ==> #[trigger] s[i].passed,
    ensures
        failing(s).len() == 0,
    decreases s.len(),
{
    reveal(Seq::filter);
    if s.len() > 0 {
        let t = s.drop_last();
        assert forall|i: int| 0 <= i < t.len() implies #[trigger] t[i].passed by {
            assert(s[i].passed);
        }
        lemma_all_passed_none_failing(t);
        assert(s.last().passed);
    }
}

/// A failed critical check, wherever it stands among the checks, makes the
/// verdict "not ready", and the verdict reports it.
pub proof fn law_critical_failure_anywhere_means_not_ready(s: Seq<CheckModel>, i: int)
    requires
        0 <= i < s.len(),
        s[i].critical,
        !s[i].passed,
    ensures
        verdict(s) is NotReady,
        verdict(s) matches ResultModel::NotReady { failures } ==> failures.len() > 0,
{
    assert(s[i].critical && !s[i].passed);
    s.lemma_filter_contains(|c: CheckModel| !c.passed, i);
    assert(failure_lines(s, "failed"@).len() == failing(s).len());
}

/// Where no check failed, the verdict is "ready"; where some check failed
/// and no failed check is critical, it is "partially ready", with one
/// warning per failed check.
pub proof fn law_verdict_without_critical_failure(s: Seq<CheckModel>)
    requires
        forall|i: int| 0 <= i < s.len() && #[trigger] s[i].critical ==> s[i].passed,
    ensures
        (forall|i: int| 0 <= i < s.len() ==> #[trigger] s[i].passed) ==> verdict(s) is Ready,
        (exists|j: int| 0 <= j < s.len() && !#[trigger] s[j].passed) ==> verdict(s)
            is PartiallyReady,
        verdict(s) matches ResultModel::PartiallyReady { warnings } ==> warnings.len()
            == failing(s).len(),
{
    assert(!has_critical_failure(s));
    if forall|i: int| 0 <= i < s.len() ==> #[trigger] s[i].passed {
        lemma_all_passed_none_failing(s);
    }
    if exists|j: int| 0 <= j < s.len() && !#[trigger] s[j].passed {
        let j = choose|j: int| 0 <= j < s.len() && !#[trigger] s[j].passed;
        s.lemma_filter_contains(|c: CheckModel| !c.passed, j);
    }
    assert(failure_lines(s, "warning"@).len() == failing(s).len());
}

/// Sum, in nanoseconds, of the estimates of all notes of `s`.
pub open spec fn total_estimate(s: Seq<PickupNoteModel>) -> nat
    decreases s.len(),
{
    if s.len() == 0 {
        0
    } else {
        total_estimate(s.drop_last()) + duration_nanos(s.last().estimated_duration)
    }
}

/// Only pending notes take up preparation time: adding a note adds its
/// estimate if it is pending, and nothing if it is in progress, completed or
/// failed.
pub proof fn law_only_pending_notes_need_time(s: Seq<PickupNoteModel>, p: PickupNoteModel)
    ensures
        p.status is Pending ==> pending_time(s.push(p)) == pending_time(s) + duration_nanos(
            p.estimated_duration,
        ),
        !(p.status is Pending) ==> pending_time(s.push(p)) == pending_time(s),
{
    assert(s.push(p).drop_last() =~= s);
}

/// The time the pending notes need is the sum of the estimates of exactly
/// the notes whose status is pending.
pub proof fn law_pending_time_sums_pending_estimates(s: Seq<PickupNoteModel>)
    ensures
        pending_time(s) == total_estimate(s.filter(|p: PickupNoteModel| p.status is Pending)),
    decreases s.len(),
{
    if s.len() == 0 {
        reveal(Seq::filter);
    } else {
        let t = s.drop_last();
        law_pending_time_sums_pending_estimates(t);
        assert(t.push(s.last()) =~= s);
        t.lemma_filter_push(s.last(), |p: PickupNoteModel| p.status is Pending);
        let f = t.filter(|p: PickupNoteModel| p.status is Pending);
        assert(f.push(s.last()).drop_last() =~= f);
    }
}

/// Adding a note that is not pending to a window changes neither the time
/// its pending notes need nor whether that time fits.
pub proof fn law_adding_non_pending_note_keeps_sufficiency(
    before: WindowModel,
    p: PickupNoteModel,
    after: WindowModel,
)
    requires
        window_step(before, WindowOp::AddPickup(p), after),
        !(p.status is Pending),
    ensures
        pending_time(after.pickups) == pending_time(before.pickups),
        after.sufficient_time() == before.sufficient_time(),
{
    law_only_pending_notes_need_time(before.pickups, p);
}

/// An essential note (criticality 8 or more) whose status is anything but
/// completed (pending, in progress or failed) means the essential notes are
/// not complete.
pub proof fn law_unfinished_essential_note_blocks(w: WindowModel, i: int)
    requires
        0 <= i < w.pickups.len(),
        w.pickups[i].criticality >= 8,
        !(w.pickups[i].status is Completed),
    ensures
        !w.essential_complete(),
{
    assert(w.pickups[i].is_essential());
}

/// Where every note of criticality 8 or more has completed, the essential
/// notes are complete.
pub proof fn law_completed_essential_notes_suffice(w: WindowModel)
    requires
        forall|i: int|
            0 <= i < w.pickups.len() && #[trigger] w.pickups[i].criticality >= 8
                ==> w.pickups[i].status is Completed,
    ensures
        w.essential_complete(),
{
    assert forall|i: int|
        0 <= i < w.pickups.len() && #[trigger] w.pickups[i].is_essential() implies w.pickups[
        i].is_completed() by {
        assert(w.pickups[i].criticality >= 8);
    }
}

} // verus!
