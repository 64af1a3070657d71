//! General laws of the orchestration engine, each proved over the engine's
//! transition function.

use vstd::prelude::*;

use crate::engine::{
    action_of, batch_names, batch_ok, begin_batch, chunked, current_command_of, enter_install,
    failing_events, initial_run, inv, lemma_inv_steps, run_actions, run_step, run_steps,
    ActionView, EventView, Phase, RunView, StatusView,
};
use crate::errors::SetupErrorView;
use crate::manager::PackageManager;
use crate::package::PackageView;
use crate::sys::spec_delay_ms;

verus! {

broadcast use vstd::seq::group_seq_axioms;

/// Idempotent batching: two runs started from the same manager and package
/// list are equal, so driven by the same outcomes they issue the same
/// action sequence — what commands an installation runs is a function of
/// its inputs alone.
pub proof fn lemma_install_deterministic(
    a: RunView,
    b: RunView,
    pm: PackageManager,
    packages: Seq<PackageView>,
    evs: Seq<EventView>,
)
    requires
        a == initial_run(pm, packages),
        b == initial_run(pm, packages),
    ensures
        run_actions(a, evs) == run_actions(b, evs),
{
}

/// Batching boundary, the count: splitting `n` packages into chunks of `k`
/// gives exactly `ceil(n / k)` install invocations.
pub proof fn lemma_batch_count<T>(s: Seq<T>, k: nat)
    requires
        k > 0,
    ensures
        chunked(s, k).len() == (s.len() + k - 1) / (k as int),
    decreases s.len(),
{
    if s.len() == 0 {
        assert((k - 1) as int / (k as int) == 0) by (nonlinear_arith)
            requires
                k > 0,
        ;
    } else if s.len() <= k {
        assert((s.len() + k - 1) / (k as int) == 1) by (nonlinear_arith)
            requires
                k > 0 && 0 < s.len() <= k,
        ;
    } else {
        lemma_batch_count(s.skip(k as int), k);
        assert(s.skip(k as int).len() == s.len() - k);
        assert((s.len() - k + k - 1) / (k as int) + 1 == (s.len() + k - 1) / (k as int))
            by (nonlinear_arith)
            requires
                k > 0 && s.len() > k,
        ;
    }
}

/// Batching boundary, the shape: every chunk is non-empty and at most `k`
/// long, and only the last may fall short of `k`.
pub proof fn lemma_batch_shape<T>(s: Seq<T>, k: nat, i: int)
    requires
        k > 0,
        0 <= i < chunked(s, k).len(),
    ensures
        0 < chunked(s, k)[i].len() <= k,
        i < chunked(s, k).len() - 1 ==> chunked(s, k)[i].len() == k,
    decreases s.len(),
{
    if s.len() > k && i > 0 {
        lemma_batch_shape(s.skip(k as int), k, i - 1);
    }
}

/// Batching loses nothing and keeps order: the chunks concatenate back to
/// the original list.
pub proof fn lemma_batches_cover<T>(s: Seq<T>, k: nat)
    requires
        k > 0,
    ensures
        chunked(s, k).flatten() == s,
    decreases s.len(),
{
    if s.len() == 0 {
        assert(chunked(s, k).flatten() =~= s);
    } else if s.len() <= k {
        assert(chunked(s, k) == seq![s]);
        assert(seq![s].flatten() =~= s) by {
            assert(seq![s].drop_first() =~= Seq::<Seq<T>>::empty());
            assert(seq![s].flatten() == s + Seq::<Seq<T>>::empty().flatten());
        }
    } else {
        lemma_batches_cover(s.skip(k as int), k);
        let c = chunked(s, k);
        assert(c == seq![s.take(k as int)] + chunked(s.skip(k as int), k));
        assert(c.first() == s.take(k as int));
        assert(c.drop_first() =~= chunked(s.skip(k as int), k));
        assert(c.flatten() == s.take(k as int) + chunked(s.skip(k as int), k).flatten());
        assert(s.take(k as int) + s.skip(k as int) =~= s);
    }
}

/// Retry bound, part one: while the attempt budget is not spent, each
/// failure report is followed by the owed backoff sleep and the very same
/// command is issued again — so a command that keeps failing is attempted
/// over and over, `n` failures in, with the engine still running.
pub proof fn lemma_retry_reissues(s: RunView, detail: Seq<char>, n: nat)
    requires
        inv(s),
        s.phase is Updating || s.phase is Installing,
        !s.sleeping,
        s.failures + n < s.max_attempts,
    ensures
        ({
            let t = run_steps(s, failing_events(n, detail));
            &&& t.phase == s.phase
            &&& t.pm == s.pm
            &&& t.recipe == s.recipe
            &&& t.batches == s.batches
            &&& t.names == s.names
            &&& t.max_attempts == s.max_attempts
            &&& t.failures == s.failures + n
            &&& !t.sleeping
            &&& t.status is Running
            &&& action_of(t) == action_of(s)
        }),
    decreases n,
{
    if n == 0 {
        assert(run_steps(s, failing_events(0, detail)) == s);
    } else {
        let e1 = EventView::Ran { success: false, detail };
        let evs = failing_events(n, detail);
        assert(evs == seq![e1, EventView::Slept] + failing_events((n - 1) as nat, detail));
        assert(evs[0] == e1);
        assert(evs.skip(1) =~= seq![EventView::Slept] + failing_events((n - 1) as nat, detail));
        let s1 = run_step(s, e1);
        assert(evs.skip(1)[0] == EventView::Slept);
        assert(evs.skip(1).skip(1) =~= failing_events((n - 1) as nat, detail));
        let s2 = run_step(s1, EventView::Slept);
        assert(run_steps(s, evs) == run_steps(s1, evs.skip(1)));
        assert(run_steps(s1, evs.skip(1)) == run_steps(s2, evs.skip(1).skip(1)));
        lemma_retry_reissues(s2, detail, (n - 1) as nat);
    }
}

/// Retry bound, part two: a command that always fails is attempted exactly
/// `max_attempts` times — after `max_attempts - 1` retried failures, the
/// next failure ends the run with `RetryExhausted` reporting that attempt
/// count, the failing command, and its captured output.
pub proof fn lemma_retry_exhausts(s: RunView, detail: Seq<char>)
    requires
        inv(s),
        s.phase is Updating || s.phase is Installing,
        !s.sleeping,
        s.failures == 0,
    ensures
        ({
            let evs = failing_events((s.max_attempts - 1) as nat, detail).push(
                EventView::Ran { success: false, detail },
            );
            let t = run_steps(s, evs);
            &&& t.phase is Finished
            &&& t.status == StatusView::Failed(
                SetupErrorView::RetryExhausted {
                    attempts: s.max_attempts,
                    command: current_command_of(s),
                    detail,
                },
            )
        }),
{
    let n = (s.max_attempts - 1) as nat;
    let head = failing_events(n, detail);
    let last = EventView::Ran { success: false, detail };
    lemma_retry_reissues(s, detail, n);
    crate::engine::lemma_run_steps_snoc(s, head, last);
    let t = run_steps(s, head);
    assert(current_command_of(t) == current_command_of(s));
}

/// Retry bound, part three: after the `n`-th failure of a command (with
/// budget left) the engine owes a sleep of exactly the exponential-backoff
/// delay for `n`; `crate::sys::lemma_backoff_monotone` shows the schedule
/// never shrinks.
pub proof fn lemma_retry_delay(s: RunView, detail: Seq<char>, n: nat)
    requires
        inv(s),
        s.phase is Updating || s.phase is Installing,
        !s.sleeping,
        s.failures == 0,
        1 <= n,
        n < s.max_attempts,
    ensures
        ({
            let evs = failing_events((n - 1) as nat, detail).push(
                EventView::Ran { success: false, detail },
            );
            let t = run_steps(s, evs);
            &&& t.status is Running
            &&& t.sleeping
            &&& t.failures == n
            &&& action_of(t) == ActionView::Sleep(spec_delay_ms(n as u32))
        }),
{
    let head = failing_events((n - 1) as nat, detail);
    let last = EventView::Ran { success: false, detail };
    lemma_retry_reissues(s, detail, (n - 1) as nat);
    crate::engine::lemma_run_steps_snoc(s, head, last);
}

/// Validation short-circuit, part one: the install command of a batch is
/// issued only in the `Installing` phase, which the engine enters only
/// after every resolved name of that batch passed validation.
pub proof fn lemma_install_only_validated(s: RunView)
    requires
        inv(s),
    ensures
        match s.phase {
            Phase::Installing { batch } => batch_ok(s.pm, s.batches[batch as int]),
            _ => true,
        },
{
}

/// Validation short-circuit, part two: when a batch's final update step
/// succeeds but some resolved name is empty or holds whitespace, the run
/// fails at once with `InvalidPackageName` naming the first such name —
/// the install command is never spawned.
pub proof fn lemma_validation_short_circuit(
    s: RunView,
    batch: usize,
    step: usize,
    detail: Seq<char>,
)
    requires
        inv(s),
        s.phase == (Phase::Updating { batch, step }),
        step + 1 == s.recipe.update_steps.len(),
        !batch_ok(s.pm, s.batches[batch as int]),
    ensures
        ({
            let t = run_step(s, EventView::Ran { success: true, detail });
            &&& t.phase is Finished
            &&& t.status == StatusView::Failed(
                SetupErrorView::InvalidPackageName {
                    name: crate::engine::spec_first_bad(s.pm, s.batches[batch as int]),
                },
            )
        }),
{
}


/// A fresh run satisfies the engine invariant.
pub proof fn lemma_initial_inv(pm: PackageManager, packages: Seq<PackageView>)
    requires
        packages.len() <= usize::MAX,
    ensures
        inv(initial_run(pm, packages)),
{
    let batches = chunked(packages, crate::BATCH_SIZE as nat);
    lemma_batch_count(packages, crate::BATCH_SIZE as nat);
    assert((packages.len() + crate::BATCH_SIZE - 1) / (crate::BATCH_SIZE as int) <= packages.len())
        by (nonlinear_arith)
        requires
            packages.len() >= 0,
    ;
    if packages.len() > 0 {
        assert(batches.len() >= 1);
    }
}

/// Validation guards every reachable install: along any event sequence
/// from a fresh run, the invariant holds, and whenever the run stands at a
/// batch's install step, every resolved name of that batch passed
/// validation.
pub proof fn lemma_reachable_installs_validated(
    pm: PackageManager,
    packages: Seq<PackageView>,
    evs: Seq<EventView>,
)
    requires
        packages.len() <= usize::MAX,
    ensures
        ({
            let t = run_steps(initial_run(pm, packages), evs);
            &&& inv(t)
            &&& match t.phase {
                Phase::Installing { batch } => batch_ok(t.pm, t.batches[batch as int]),
                _ => true,
            }
        }),
{
    lemma_initial_inv(pm, packages);
    crate::engine::lemma_inv_steps(initial_run(pm, packages), evs);
}


/// `n` probe reports, each finding its program.
pub open spec fn found_probes(n: nat) -> Seq<EventView>
    decreases n,
{
    if n == 0 {
        Seq::empty()
    } else {
        seq![EventView::Probed { found: true }] + found_probes((n - 1) as nat)
    }
}

/// `n` command reports, each successful.
pub open spec fn successes(n: nat) -> Seq<EventView>
    decreases n,
{
    if n == 0 {
        Seq::empty()
    } else {
        seq![EventView::Ran { success: true, detail: Seq::empty() }] + successes((n - 1) as nat)
    }
}

/// One batch's happy path: every probe found, the update steps and the
/// install command successful, and the freshness marks acknowledged.
pub open spec fn batch_happy_events(u: nat) -> Seq<EventView> {
    found_probes(u + 1) + successes(u) + seq![
        EventView::Ran { success: true, detail: Seq::empty() },
        EventView::Marked,
    ]
}

/// The happy path of a whole run over `n` batches, each with `u` update
/// steps.
pub open spec fn happy_events(u: nat, n: nat) -> Seq<EventView>
    decreases n,
{
    if n == 0 {
        Seq::empty()
    } else {
        batch_happy_events(u) + happy_events(u, (n - 1) as nat)
    }
}

/// Events are consumed left to right.
pub proof fn lemma_run_steps_append(s: RunView, e1: Seq<EventView>, e2: Seq<EventView>)
    ensures
        run_steps(s, e1 + e2) == run_steps(run_steps(s, e1), e2),
    decreases e1.len(),
{
    if e1.len() == 0 {
        assert(e1 + e2 =~= e2);
    } else {
        assert((e1 + e2)[0] == e1[0]);
        assert((e1 + e2).skip(1) =~= e1.skip(1) + e2);
        assert(run_steps(s, e1 + e2) == run_steps(run_step(s, (e1 + e2)[0]), (e1 + e2).skip(1)));
        lemma_run_steps_append(run_step(s, e1[0]), e1.skip(1), e2);
    }
}

/// Successful probes walk the pre-flight checks to the batch's first step.
proof fn lemma_probes_advance(s: RunView, b: usize, c: usize)
    requires
        inv(s),
        s.phase == (Phase::Probing { batch: b, cmd: c }),
    ensures
        run_steps(
            s,
            found_probes((s.recipe.update_steps.len() + 1 - c) as nat),
        ) == begin_batch(s, b),
    decreases s.recipe.update_steps.len() + 1 - c,
{
    let n = (s.recipe.update_steps.len() + 1 - c) as nat;
    let evs = found_probes(n);
    assert(evs[0] == (EventView::Probed { found: true }));
    assert(evs.skip(1) =~= found_probes((n - 1) as nat));
    let s1 = run_step(s, evs[0]);
    assert(run_steps(s, evs) == run_steps(s1, evs.skip(1)));
    if (c as int) < s.recipe.update_steps.len() {
        assert(s1 == (RunView { phase: Phase::Probing { batch: b, cmd: (c + 1) as usize }, ..s }));
        crate::engine::lemma_inv_preserved(s, evs[0]);
        lemma_probes_advance(s1, b, (c + 1) as usize);
        assert(begin_batch(s1, b) =~~= begin_batch(s, b));
    } else {
        assert(s1 == begin_batch(s, b));
        assert(run_steps(s1, found_probes(0)) == s1);
    }
}

/// Successful update steps walk a batch to its install step.
proof fn lemma_updates_advance(s: RunView, b: usize, st: usize)
    requires
        inv(s),
        !s.sleeping,
        s.phase == (Phase::Updating { batch: b, step: st }),
    ensures
        run_steps(s, successes((s.recipe.update_steps.len() - st) as nat)) == enter_install(
            RunView { failures: 0, sleeping: false, ..s },
            b,
        ),
    decreases s.recipe.update_steps.len() - st,
{
    let n = (s.recipe.update_steps.len() - st) as nat;
    let evs = successes(n);
    assert(evs[0] == (EventView::Ran { success: true, detail: Seq::empty() }));
    assert(evs.skip(1) =~= successes((n - 1) as nat));
    let s1 = run_step(s, evs[0]);
    assert(run_steps(s, evs) == run_steps(s1, evs.skip(1)));
    if st + 1 < s.recipe.update_steps.len() {
        assert(s1 == (RunView {
            failures: 0,
            sleeping: false,
            phase: Phase::Updating { batch: b, step: (st + 1) as usize },
            ..s
        }));
        crate::engine::lemma_inv_preserved(s, evs[0]);
        lemma_updates_advance(s1, b, (st + 1) as usize);
        assert(enter_install(RunView { failures: 0, sleeping: false, ..s1 }, b) =~~= enter_install(
            RunView { failures: 0, sleeping: false, ..s },
            b,
        ));
    } else {
        assert(s1 == enter_install(RunView { failures: 0, sleeping: false, ..s }, b));
        assert(run_steps(s1, successes(0)) == s1);
    }
}

/// One batch's happy path runs its update steps, installs, and marks; the
/// run then stands at the next batch's pre-flight, or has succeeded.
proof fn lemma_batch_completes(s: RunView, b: usize)
    requires
        inv(s),
        s.phase == (Phase::Probing { batch: b, cmd: 0 }),
        batch_ok(s.pm, s.batches[b as int]),
    ensures
        ({
            let u = s.recipe.update_steps.len() as nat;
            let t = run_steps(s, batch_happy_events(u));
            &&& inv(t)
            &&& if (b as int) + 1 < s.batches.len() {
                t == (RunView {
                    phase: Phase::Probing { batch: (b + 1) as usize, cmd: 0 },
                    names: batch_names(s.pm, s.batches[b as int]),
                    ..s
                })
            } else {
                t == (RunView {
                    phase: Phase::Finished,
                    status: StatusView::Succeeded,
                    names: batch_names(s.pm, s.batches[b as int]),
                    ..s
                })
            }
        }),
{
    let u = s.recipe.update_steps.len() as nat;
    let evs = batch_happy_events(u);
    let tail = seq![
        EventView::Ran { success: true, detail: Seq::empty() },
        EventView::Marked,
    ];
    assert(evs =~= found_probes(u + 1) + (successes(u) + tail));
    lemma_run_steps_append(s, found_probes(u + 1), successes(u) + tail);
    lemma_probes_advance(s, b, 0);
    let s_begun = begin_batch(s, b);
    lemma_inv_steps(s, found_probes(u + 1));
    assert(inv(s_begun)) by {
        assert(run_steps(s, found_probes(u + 1)) == s_begun);
    }
    let installing: RunView;
    if u > 0 {
        assert(s_begun == (RunView { phase: Phase::Updating { batch: b, step: 0 }, ..s }));
        lemma_run_steps_append(s_begun, successes(u), tail);
        lemma_updates_advance(s_begun, b, 0);
        lemma_inv_steps(s_begun, successes(u));
        installing = enter_install(RunView { failures: 0, sleeping: false, ..s_begun }, b);
        assert(run_steps(s, evs) == run_steps(installing, tail));
    } else {
        assert(s_begun == enter_install(s, b));
        assert(successes(0) + tail =~= tail);
        installing = s_begun;
        assert(run_steps(s, evs) == run_steps(installing, tail));
    }
    assert(installing == (RunView {
        phase: Phase::Installing { batch: b },
        names: batch_names(s.pm, s.batches[b as int]),
        failures: 0,
        sleeping: false,
        ..s
    })) by {
        assert(installing =~~= RunView {
            phase: Phase::Installing { batch: b },
            names: batch_names(s.pm, s.batches[b as int]),
            failures: 0,
            sleeping: false,
            ..s
        });
    }
    assert(inv(installing));
    assert(tail[0] == (EventView::Ran { success: true, detail: Seq::empty() }));
    assert(tail.skip(1) =~= seq![EventView::Marked]);
    let marking = run_step(installing, tail[0]);
    assert(run_steps(installing, tail) == run_steps(marking, tail.skip(1)));
    crate::engine::lemma_inv_preserved(installing, tail[0]);
    assert(tail.skip(1)[0] == EventView::Marked);
    assert(tail.skip(1).skip(1) =~= Seq::<EventView>::empty());
    let done = run_step(marking, EventView::Marked);
    assert(run_steps(marking, tail.skip(1)) == run_steps(done, tail.skip(1).skip(1)));
    assert(run_steps(done, Seq::<EventView>::empty()) == done);
    crate::engine::lemma_inv_preserved(marking, EventView::Marked);
    if (b as int) + 1 < s.batches.len() {
        assert(done =~~= RunView {
            phase: Phase::Probing { batch: (b + 1) as usize, cmd: 0 },
            names: batch_names(s.pm, s.batches[b as int]),
            ..s
        });
    } else {
        assert(done =~~= RunView {
            phase: Phase::Finished,
            status: StatusView::Succeeded,
            names: batch_names(s.pm, s.batches[b as int]),
            ..s
        });
    }
}

/// From any batch's pre-flight, the happy path over the remaining batches
/// ends the run in success.
proof fn lemma_happy_from(s: RunView, b: usize)
    requires
        inv(s),
        s.phase == (Phase::Probing { batch: b, cmd: 0 }),
        forall|j: int| b <= j < s.batches.len() ==> batch_ok(s.pm, #[trigger] s.batches[j]),
    ensures
        run_steps(
            s,
            happy_events(
                s.recipe.update_steps.len() as nat,
                (s.batches.len() - b) as nat,
            ),
        ).status == StatusView::Succeeded,
    decreases s.batches.len() - b,
{
    let u = s.recipe.update_steps.len() as nat;
    let n = (s.batches.len() - b) as nat;
    assert(happy_events(u, n) =~= batch_happy_events(u) + happy_events(u, (n - 1) as nat));
    lemma_run_steps_append(s, batch_happy_events(u), happy_events(u, (n - 1) as nat));
    lemma_batch_completes(s, b);
    let t = run_steps(s, batch_happy_events(u));
    if (b as int) + 1 < s.batches.len() {
        lemma_happy_from(t, (b + 1) as usize);
    } else {
        assert(run_steps(t, happy_events(u, 0)) == t);
    }
}

/// Success is owed: when every probed command resolves on the path, every
/// update and install command exits successfully, and every batch's
/// resolved names are valid, an installation run ends in success.
pub proof fn lemma_happy_run_succeeds(pm: PackageManager, packages: Seq<PackageView>)
    requires
        packages.len() <= usize::MAX,
        forall|j: int|
            0 <= j < chunked(packages, crate::BATCH_SIZE as nat).len() ==> batch_ok(
                pm,
                #[trigger] chunked(packages, crate::BATCH_SIZE as nat)[j],
            ),
    ensures
        ({
            let s = initial_run(pm, packages);
            let t = run_steps(
                s,
                happy_events(s.recipe.update_steps.len() as nat, s.batches.len() as nat),
            );
            t.status == StatusView::Succeeded
        }),
{
    let s = initial_run(pm, packages);
    lemma_initial_inv(pm, packages);
    if s.batches.len() == 0 {
        let u = s.recipe.update_steps.len() as nat;
        assert(run_steps(s, happy_events(u, 0)) == s);
    } else {
        lemma_happy_from(s, 0);
    }
}

} // verus!
