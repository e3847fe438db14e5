//! Meaning of the executor protocol against a faithful database.
//!
//! The tracking table is modelled as a map from migration id to executed
//! status. A *faithful* database is one that answers each action of the
//! executor according to that model: the lookup reports the recorded status,
//! the pending insert adds a row only when absent, the executed update flips
//! the recorded status of an existing row. [`run_from`] folds the machine's
//! own transition relation over these answers, so the laws proved here are
//! laws of the very [`crate::util::step_spec`] the executable machine
//! follows.

use vstd::prelude::*;

use crate::util::DbEvent;
use crate::util::ExecPhase;
use crate::util::MigrationResult;
use crate::util::in_progress;
use crate::util::step_spec;

verus! {

/// The id is recorded with executed status in tracking state `t`.
pub open spec fn already_executed(t: Map<Seq<char>, bool>, id: Seq<char>) -> bool {
    t.contains_key(id) && t[id]
}

/// The event a faithful database reports for the action awaited in phase
/// `p`, when its tracking state is `t`.
pub open spec fn faithful_event(p: ExecPhase, t: Map<Seq<char>, bool>, id: Seq<char>) -> DbEvent {
    match p {
        ExecPhase::LookingUp => if t.contains_key(id) {
            DbEvent::Found(t[id])
        } else {
            DbEvent::NotFound
        },
        _ => DbEvent::Done,
    }
}

/// The tracking state after a faithful database performs the action awaited
/// in phase `p`: the pending insert adds a row only when absent, the
/// executed update touches only an existing row, nothing else writes.
pub open spec fn track_after(p: ExecPhase, t: Map<Seq<char>, bool>, id: Seq<char>) -> Map<
    Seq<char>,
    bool,
> {
    match p {
        ExecPhase::MarkingPending => if t.contains_key(id) {
            t
        } else {
            t.insert(id, false)
        },
        ExecPhase::MarkingExecuted => if t.contains_key(id) {
            t.insert(id, true)
        } else {
            t
        },
        _ => t,
    }
}

/// How many database round trips remain from phase `p`, at most.
pub open spec fn phase_rank(p: ExecPhase) -> nat {
    match p {
        ExecPhase::EnsuringSchema => 5,
        ExecPhase::LookingUp => 4,
        ExecPhase::MarkingPending => 3,
        ExecPhase::RunningScript => 2,
        ExecPhase::MarkingExecuted => 1,
        ExecPhase::Complete(_) => 0,
        ExecPhase::Failed(_) => 0,
    }
}

/// One run of the executor from phase `p` against a faithful database with
/// tracking state `t`: the terminal phase, the tracking state after, and how
/// many times the script body ran.
pub open spec fn run_from(p: ExecPhase, t: Map<Seq<char>, bool>, id: Seq<char>) -> (
    ExecPhase,
    Map<Seq<char>, bool>,
    nat,
)
    decreases phase_rank(p),
{
    if !in_progress(p) {
        (p, t, 0nat)
    } else {
        let runs: nat = if p is RunningScript {
            1nat
        } else {
            0nat
        };
        let next = step_spec(p, faithful_event(p, t, id));
        let rest = run_from(next, track_after(p, t, id), id);
        (rest.0, rest.1, (runs + rest.2) as nat)
    }
}

/// The outcome one migration must end with: `AlreadyExecuted` exactly when
/// the id is recorded as executed, `Executed` otherwise.
pub open spec fn exec_result(t: Map<Seq<char>, bool>, id: Seq<char>) -> MigrationResult {
    if already_executed(t, id) {
        MigrationResult::AlreadyExecuted
    } else {
        MigrationResult::Executed
    }
}

/// The tracking state one migration must leave behind: unchanged when the id
/// was already executed, otherwise the id recorded as executed.
pub open spec fn exec_track(t: Map<Seq<char>, bool>, id: Seq<char>) -> Map<Seq<char>, bool> {
    if already_executed(t, id) {
        t
    } else {
        t.insert(id, true)
    }
}

/// How many times one migration runs its script body: never when the id was
/// already executed, exactly once otherwise.
pub open spec fn exec_runs(t: Map<Seq<char>, bool>, id: Seq<char>) -> nat {
    if already_executed(t, id) {
        0nat
    } else {
        1nat
    }
}

/// Law: a full run of the executor against a faithful database completes
/// with the owed outcome, leaves the owed tracking state, and runs the
/// script body exactly [`exec_runs`] times. The script text plays no part:
/// deduplication goes by the id alone.
pub proof fn lemma_run_from_start(t: Map<Seq<char>, bool>, id: Seq<char>)
    ensures
        run_from(ExecPhase::EnsuringSchema, t, id).0 == ExecPhase::Complete(exec_result(t, id)),
        run_from(ExecPhase::EnsuringSchema, t, id).1 == exec_track(t, id),
        run_from(ExecPhase::EnsuringSchema, t, id).2 == exec_runs(t, id),
{
    if already_executed(t, id) {
        let done = ExecPhase::Complete(MigrationResult::AlreadyExecuted);
        assert(run_from(done, t, id) == (done, t, 0nat));
        assert(run_from(ExecPhase::LookingUp, t, id) == (done, t, 0nat));
        assert(run_from(ExecPhase::EnsuringSchema, t, id) == (done, t, 0nat));
    } else if t.contains_key(id) {
        // a pending row exists: run the script, then mark it executed
        let done = ExecPhase::Complete(MigrationResult::Executed);
        let tf = t.insert(id, true);
        assert(run_from(done, tf, id) == (done, tf, 0nat));
        assert(run_from(ExecPhase::MarkingExecuted, t, id) == (done, tf, 0nat));
        assert(run_from(ExecPhase::RunningScript, t, id) == (done, tf, 1nat));
        assert(run_from(ExecPhase::LookingUp, t, id) == (done, tf, 1nat));
        assert(run_from(ExecPhase::EnsuringSchema, t, id) == (done, tf, 1nat));
    } else {
        // no row yet: record it as pending first
        let done = ExecPhase::Complete(MigrationResult::Executed);
        let tp = t.insert(id, false);
        let tf = tp.insert(id, true);
        assert(run_from(done, tf, id) == (done, tf, 0nat));
        assert(run_from(ExecPhase::MarkingExecuted, tp, id) == (done, tf, 0nat));
        assert(run_from(ExecPhase::RunningScript, tp, id) == (done, tf, 1nat));
        assert(run_from(ExecPhase::MarkingPending, t, id) == (done, tf, 1nat));
        assert(run_from(ExecPhase::LookingUp, t, id) == (done, tf, 1nat));
        assert(run_from(ExecPhase::EnsuringSchema, t, id) == (done, tf, 1nat));
        assert(tf =~= t.insert(id, true));
    }
}

/// Law: applying the same id twice executes the script body exactly once.
/// The first run completes with `Executed` and runs the body once; the
/// second completes with `AlreadyExecuted`, runs nothing, and leaves the
/// tracking state untouched — whatever script text the second run carries.
pub proof fn lemma_idempotent(t: Map<Seq<char>, bool>, id: Seq<char>)
    requires
        !already_executed(t, id),
    ensures
        ({
            let first = run_from(ExecPhase::EnsuringSchema, t, id);
            let second = run_from(ExecPhase::EnsuringSchema, first.1, id);
            &&& first.0 == ExecPhase::Complete(MigrationResult::Executed)
            &&& second.0 == ExecPhase::Complete(MigrationResult::AlreadyExecuted)
            &&& second.1 == first.1
            &&& first.2 + second.2 == 1
        }),
{
    lemma_run_from_start(t, id);
    lemma_run_from_start(exec_track(t, id), id);
}

// ---------------------------------------------------------------------------
// Batches: a sequence of ids applied strictly in order.
// ---------------------------------------------------------------------------
/// The tracking state after applying each id of `ids` in order.
pub open spec fn batch_track(t: Map<Seq<char>, bool>, ids: Seq<Seq<char>>) -> Map<Seq<char>, bool>
    decreases ids.len(),
{
    if ids.len() == 0 {
        t
    } else {
        batch_track(exec_track(t, ids[0]), ids.drop_first())
    }
}

/// How many script bodies a batch runs: one per id not yet executed when its
/// turn comes.
pub open spec fn batch_runs(t: Map<Seq<char>, bool>, ids: Seq<Seq<char>>) -> nat
    decreases ids.len(),
{
    if ids.len() == 0 {
        0nat
    } else {
        (exec_runs(t, ids[0]) + batch_runs(exec_track(t, ids[0]), ids.drop_first())) as nat
    }
}

/// A batch reports that something new happened exactly when it ran at least
/// one script body.
pub open spec fn batch_did_new(t: Map<Seq<char>, bool>, ids: Seq<Seq<char>>) -> bool {
    batch_runs(t, ids) > 0
}

/// Law: an empty batch applies nothing — no script runs, the tracking state
/// is unchanged, and the batch reports that nothing new happened.
pub proof fn lemma_empty_batch(t: Map<Seq<char>, bool>, ids: Seq<Seq<char>>)
    requires
        ids.len() == 0,
    ensures
        batch_track(t, ids) == t,
        !batch_did_new(t, ids),
{
}

/// After a batch, every id of the batch is recorded as executed, and every
/// id executed before is still executed.
pub proof fn lemma_batch_marks_all(t: Map<Seq<char>, bool>, ids: Seq<Seq<char>>)
    ensures
        forall|i: int| 0 <= i < ids.len() ==> already_executed(batch_track(t, ids), ids[i]),
        forall|x: Seq<char>|
            already_executed(t, x) ==> already_executed(batch_track(t, ids), x),
    decreases ids.len(),
{
    if ids.len() > 0 {
        let t1 = exec_track(t, ids[0]);
        lemma_batch_marks_all(t1, ids.drop_first());
        assert(batch_track(t, ids) == batch_track(t1, ids.drop_first()));
        assert(already_executed(t1, ids[0]));
        assert forall|i: int| 0 <= i < ids.len() implies already_executed(
            batch_track(t, ids),
            ids[i],
        ) by {
            if i > 0 {
                assert(ids[i] == ids.drop_first()[i - 1]);
            }
        }
        assert forall|x: Seq<char>| already_executed(t, x) implies already_executed(
            batch_track(t, ids),
            x,
        ) by {
            assert(already_executed(t1, x));
        }
    }
}

/// A batch never touches an id that is not in it.
pub proof fn lemma_batch_untouched(t: Map<Seq<char>, bool>, ids: Seq<Seq<char>>, x: Seq<char>)
    requires
        forall|i: int| 0 <= i < ids.len() ==> ids[i] != x,
    ensures
        batch_track(t, ids).contains_key(x) == t.contains_key(x),
        t.contains_key(x) ==> batch_track(t, ids)[x] == t[x],
    decreases ids.len(),
{
    if ids.len() > 0 {
        assert(forall|i: int|
            0 <= i < ids.drop_first().len() ==> ids.drop_first()[i] == ids[i + 1]);
        lemma_batch_untouched(exec_track(t, ids[0]), ids.drop_first(), x);
    }
}

/// Re-running a batch whose ids are all executed already applies nothing.
pub proof fn lemma_rerun_no_new(t: Map<Seq<char>, bool>, ids: Seq<Seq<char>>)
    requires
        forall|i: int| 0 <= i < ids.len() ==> already_executed(t, #[trigger] ids[i]),
    ensures
        batch_runs(t, ids) == 0,
        batch_track(t, ids) == t,
    decreases ids.len(),
{
    if ids.len() > 0 {
        assert(already_executed(t, ids[0]));
        assert(exec_track(t, ids[0]) == t);
        assert(forall|i: int|
            0 <= i < ids.drop_first().len() ==> ids.drop_first()[i] == ids[i + 1]);
        lemma_rerun_no_new(t, ids.drop_first());
    }
}

/// Appending one id to a batch is the batch followed by that one migration.
pub proof fn lemma_batch_push(t: Map<Seq<char>, bool>, ids: Seq<Seq<char>>, x: Seq<char>)
    ensures
        batch_track(t, ids.push(x)) == exec_track(batch_track(t, ids), x),
        batch_runs(t, ids.push(x)) == batch_runs(t, ids) + exec_runs(batch_track(t, ids), x),
    decreases ids.len(),
{
    if ids.len() == 0 {
        let tx = exec_track(t, x);
        assert(ids.push(x)[0] == x);
        assert(ids.push(x).drop_first() =~= Seq::<Seq<char>>::empty());
        assert(batch_track(tx, Seq::<Seq<char>>::empty()) == tx);
        assert(batch_runs(tx, Seq::<Seq<char>>::empty()) == 0);
        assert(batch_track(t, ids) == t);
        assert(batch_runs(t, ids) == 0);
    } else {
        let t1 = exec_track(t, ids[0]);
        assert(ids.push(x)[0] == ids[0]);
        assert(ids.push(x).drop_first() =~= ids.drop_first().push(x));
        lemma_batch_push(t1, ids.drop_first(), x);
        assert(batch_track(t, ids.push(x)) == batch_track(t1, ids.drop_first().push(x)));
        assert(batch_track(t, ids) == batch_track(t1, ids.drop_first()));
        assert(batch_runs(t, ids.push(x)) == exec_runs(t, ids[0]) + batch_runs(
            t1,
            ids.drop_first().push(x),
        ));
        assert(batch_runs(t, ids) == exec_runs(t, ids[0]) + batch_runs(t1, ids.drop_first()));
    }
}

/// Law: after running a batch, running it again with one new id appended
/// applies only the new id. The ids applied before stay executed and their
/// re-runs do nothing — whatever their script text now is — and the new id
/// runs exactly once (not at all, had it been executed before).
pub proof fn lemma_resumption(t0: Map<Seq<char>, bool>, ids: Seq<Seq<char>>, new_id: Seq<char>)
    requires
        forall|i: int| 0 <= i < ids.len() ==> ids[i] != new_id,
    ensures
        ({
            let t1 = batch_track(t0, ids);
            &&& batch_runs(t1, ids.push(new_id)) == exec_runs(t0, new_id)
            &&& batch_track(t1, ids.push(new_id)) == exec_track(t1, new_id)
            &&& batch_did_new(t1, ids.push(new_id)) == !already_executed(t0, new_id)
        }),
{
    let t1 = batch_track(t0, ids);
    lemma_batch_marks_all(t0, ids);
    lemma_rerun_no_new(t1, ids);
    lemma_batch_push(t1, ids, new_id);
    lemma_batch_untouched(t0, ids, new_id);
    assert(already_executed(t1, new_id) == already_executed(t0, new_id));
}

} // verus!
