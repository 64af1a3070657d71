//! The recipe execution engine.
//!
//! Running external commands, sleeping between retries and touching the
//! freshness cache are outside work, so an installation is modelled as a
//! state machine: the engine names the next [`Action`]; a driver performs
//! it and reports the outcome as an [`Event`]. Every transition is the
//! mathematical function [`run_step`], so ordering, validation, batching
//! and the retry budget are all proved over it.

use vstd::prelude::*;
use vstd::string::StringExecFns;

use crate::command::{lemma_vec_push_deep_view, CommandLine, CommandLineView};
use crate::errors::{SetupError, SetupErrorView};
use crate::manager::PackageManager;
use crate::package::{spec_name_for, Package, PackageView};
use crate::recipe::{Recipe, RecipeView};
use crate::sys::{command_on_path, delay_ms_for, spec_delay_ms, RETRY_ATTEMPTS};
use crate::text;

verus! {

broadcast use vstd::seq::group_seq_axioms;

/// Where an installation run stands.
#[derive(Clone, Copy, Debug, PartialEq, Eq, Structural)]
pub enum Phase {
    /// Pre-flight: checking that the recipe's commands resolve on the path.
    /// `cmd` indexes the update steps; one past them is the install command.
    Probing { batch: usize, cmd: usize },
    /// Running update step `step` for batch `batch`.
    Updating { batch: usize, step: usize },
    /// Running the install command for batch `batch`.
    Installing { batch: usize },
    /// Waiting for the driver to mark the batch's packages fresh.
    Marking { batch: usize },
    /// The run is over; see the status.
    Finished,
}

/// The final disposition of a run.
#[derive(Debug)]
pub enum RunStatus {
    Running,
    Succeeded,
    Failed(SetupError),
}

/// The mathematical value of a `RunStatus`.
#[verifier::ext_equal]
pub enum StatusView {
    Running,
    Succeeded,
    Failed(SetupErrorView),
}

impl View for RunStatus {
    type V = StatusView;

    open spec fn view(&self) -> StatusView {
        match self {
            RunStatus::Running => StatusView::Running,
            RunStatus::Succeeded => StatusView::Succeeded,
            RunStatus::Failed(e) => StatusView::Failed(e@),
        }
    }
}

/// What the engine asks its driver to do next.
#[derive(Debug)]
pub enum Action {
    /// Check whether this program resolves on the search path.
    Probe(String),
    /// Spawn this command and report whether it exited successfully.
    Run(CommandLine),
    /// Wait this many milliseconds before the next attempt.
    Sleep(u64),
    /// Record these package names as freshly installed.
    MarkFresh(Vec<String>),
    /// Nothing is left to do.
    Done,
}

/// The mathematical value of an `Action`.
#[verifier::ext_equal]
pub enum ActionView {
    Probe(Seq<char>),
    Run(CommandLineView),
    Sleep(u64),
    MarkFresh(Seq<Seq<char>>),
    Done,
}

impl View for Action {
    type V = ActionView;

    open spec fn view(&self) -> ActionView {
        match self {
            Action::Probe(p) => ActionView::Probe(p@),
            Action::Run(c) => ActionView::Run(c@),
            Action::Sleep(ms) => ActionView::Sleep(*ms),
            Action::MarkFresh(names) => ActionView::MarkFresh(names.deep_view()),
            Action::Done => ActionView::Done,
        }
    }
}

/// What the driver reports back.
#[derive(Debug)]
pub enum Event {
    /// Whether the probed program was found on the path.
    Probed { found: bool },
    /// A command finished; `detail` carries its captured output.
    Ran { success: bool, detail: String },
    /// The requested delay has passed.
    Slept,
    /// The batch's packages were recorded as fresh.
    Marked,
}

/// The mathematical value of an `Event`.
#[verifier::ext_equal]
pub enum EventView {
    Probed { found: bool },
    Ran { success: bool, detail: Seq<char> },
    Slept,
    Marked,
}

impl View for Event {
    type V = EventView;

    open spec fn view(&self) -> EventView {
        match self {
            Event::Probed { found } => EventView::Probed { found: *found },
            Event::Ran { success, detail } => EventView::Ran {
                success: *success,
                detail: detail@,
            },
            Event::Slept => EventView::Slept,
            Event::Marked => EventView::Marked,
        }
    }
}

/// The mathematical value of an `InstallRun`.
#[verifier::ext_equal]
pub struct RunView {
    pub pm: PackageManager,
    pub recipe: RecipeView,
    pub batches: Seq<Seq<PackageView>>,
    pub max_attempts: u32,
    pub failures: u32,
    pub sleeping: bool,
    pub phase: Phase,
    pub status: StatusView,
    pub names: Seq<Seq<char>>,
    pub last_detail: Seq<char>,
}

/// A name the install command may receive: non-empty, no whitespace.
pub open spec fn valid_name(n: Seq<char>) -> bool {
    n.len() > 0 && !text::has_space(n)
}

/// The names a batch resolves to under `pm`.
pub open spec fn batch_names(pm: PackageManager, batch: Seq<PackageView>) -> Seq<Seq<char>> {
    batch.map_values(|p: PackageView| spec_name_for(p, pm))
}

/// Every name the batch resolves to is fit for the install command.
pub open spec fn batch_ok(pm: PackageManager, batch: Seq<PackageView>) -> bool {
    forall|i: int| 0 <= i < batch.len() ==> valid_name(#[trigger] spec_name_for(batch[i], pm))
}

/// The first resolved name that is empty or holds whitespace.
pub open spec fn spec_first_bad(pm: PackageManager, batch: Seq<PackageView>) -> Seq<char>
    decreases batch.len(),
{
    if batch.len() == 0 {
        Seq::empty()
    } else if !valid_name(spec_name_for(batch[0], pm)) {
        spec_name_for(batch[0], pm)
    } else {
        spec_first_bad(pm, batch.skip(1))
    }
}

/// `s` split into chunks of `k`, in order: all chunks full but the last,
/// which holds the remainder.
pub open spec fn chunked<T>(s: Seq<T>, k: nat) -> Seq<Seq<T>>
    decreases s.len(), when k > 0
{
    if s.len() == 0 {
        Seq::empty()
    } else if s.len() <= k {
        seq![s]
    } else {
        seq![s.take(k as int)] + chunked(s.skip(k as int), k)
    }
}

/// The program probed at pre-flight position `c`.
pub open spec fn probe_target(s: RunView, c: int) -> Seq<char> {
    if c < s.recipe.update_steps.len() {
        s.recipe.update_steps[c].program
    } else {
        s.recipe.install_command.program
    }
}

/// The install command of the current batch: the recipe's install command
/// extended with the batch's resolved names.
pub open spec fn install_command_of(s: RunView) -> CommandLineView {
    CommandLineView {
        program: s.recipe.install_command.program,
        args: s.recipe.install_command.args + s.names,
    }
}

/// End the run with a failure.
pub open spec fn fail_with(s: RunView, e: SetupErrorView) -> RunView {
    RunView { phase: Phase::Finished, status: StatusView::Failed(e), ..s }
}

/// Enter the install step of `batch`: validate every resolved name first,
/// and fail without issuing the install command if one is bad.
pub open spec fn enter_install(s: RunView, batch: usize) -> RunView {
    if batch_ok(s.pm, s.batches[batch as int]) {
        RunView {
            phase: Phase::Installing { batch },
            names: batch_names(s.pm, s.batches[batch as int]),
            ..s
        }
    } else {
        fail_with(
            s,
            SetupErrorView::InvalidPackageName {
                name: spec_first_bad(s.pm, s.batches[batch as int]),
            },
        )
    }
}

/// Start work on `batch` after its pre-flight checks passed.
pub open spec fn begin_batch(s: RunView, batch: usize) -> RunView {
    if s.recipe.update_steps.len() > 0 {
        RunView { phase: Phase::Updating { batch, step: 0 }, ..s }
    } else {
        enter_install(s, batch)
    }
}

/// Book a failed attempt of command `c`: give up with `RetryExhausted` once
/// the attempt budget is spent, else owe a backoff delay before the retry.
pub open spec fn after_failure(s: RunView, c: CommandLineView, detail: Seq<char>) -> RunView {
    if s.failures + 1 >= s.max_attempts {
        fail_with(
            RunView { last_detail: detail, ..s },
            SetupErrorView::RetryExhausted { attempts: s.max_attempts, command: c, detail },
        )
    } else {
        RunView {
            failures: (s.failures + 1) as u32,
            sleeping: true,
            last_detail: detail,
            ..s
        }
    }
}

/// The engine's transition function: the state after `ev` is reported in
/// state `s`. An event that does not answer the pending action leaves the
/// state unchanged.
pub open spec fn run_step(s: RunView, ev: EventView) -> RunView {
    match (s.phase, ev) {
        (Phase::Probing { batch, cmd }, EventView::Probed { found }) => {
            if !found {
                fail_with(
                    s,
                    SetupErrorView::CommandNotFound { command: probe_target(s, cmd as int) },
                )
            } else if (cmd as int) < s.recipe.update_steps.len() {
                RunView { phase: Phase::Probing { batch, cmd: (cmd + 1) as usize }, ..s }
            } else {
                begin_batch(s, batch)
            }
        },
        (Phase::Updating { batch, step }, EventView::Ran { success, detail }) => {
            if success {
                let s0 = RunView { failures: 0, sleeping: false, ..s };
                if (step as int) + 1 < s.recipe.update_steps.len() {
                    RunView { phase: Phase::Updating { batch, step: (step + 1) as usize }, ..s0 }
                } else {
                    enter_install(s0, batch)
                }
            } else {
                after_failure(s, s.recipe.update_steps[step as int], detail)
            }
        },
        (Phase::Installing { batch }, EventView::Ran { success, detail }) => {
            if success {
                RunView { failures: 0, sleeping: false, phase: Phase::Marking { batch }, ..s }
            } else {
                after_failure(s, install_command_of(s), detail)
            }
        },
        (Phase::Updating { .. }, EventView::Slept) => RunView { sleeping: false, ..s },
        (Phase::Installing { .. }, EventView::Slept) => RunView { sleeping: false, ..s },
        (Phase::Marking { batch }, EventView::Marked) => {
            if (batch as int) + 1 < s.batches.len() {
                RunView { phase: Phase::Probing { batch: (batch + 1) as usize, cmd: 0 }, ..s }
            } else {
                RunView { phase: Phase::Finished, status: StatusView::Succeeded, ..s }
            }
        },
        _ => s,
    }
}

/// The action pending in state `s`.
pub open spec fn action_of(s: RunView) -> ActionView {
    match s.phase {
        Phase::Probing { batch: _, cmd } => ActionView::Probe(probe_target(s, cmd as int)),
        Phase::Updating { batch: _, step } => {
            if s.sleeping {
                ActionView::Sleep(spec_delay_ms(s.failures))
            } else {
                ActionView::Run(s.recipe.update_steps[step as int])
            }
        },
        Phase::Installing { .. } => {
            if s.sleeping {
                ActionView::Sleep(spec_delay_ms(s.failures))
            } else {
                ActionView::Run(install_command_of(s))
            }
        },
        Phase::Marking { .. } => ActionView::MarkFresh(s.names),
        Phase::Finished => ActionView::Done,
    }
}

/// What holds of every reachable run state.
pub open spec fn inv(s: RunView) -> bool {
    &&& s.max_attempts >= 1
    &&& s.failures < s.max_attempts
    &&& (s.sleeping ==> 1 <= s.failures)
    &&& s.batches.len() <= usize::MAX
    &&& s.recipe.update_steps.len() <= usize::MAX
    &&& match s.phase {
        Phase::Probing { batch, cmd } => {
            &&& (batch as int) < s.batches.len()
            &&& (cmd as int) <= s.recipe.update_steps.len()
            &&& s.status is Running
            &&& !s.sleeping
            &&& s.failures == 0
        },
        Phase::Updating { batch, step } => {
            &&& (batch as int) < s.batches.len()
            &&& (step as int) < s.recipe.update_steps.len()
            &&& s.status is Running
        },
        Phase::Installing { batch } => {
            &&& (batch as int) < s.batches.len()
            &&& s.status is Running
            &&& batch_ok(s.pm, s.batches[batch as int])
            &&& s.names == batch_names(s.pm, s.batches[batch as int])
        },
        Phase::Marking { batch } => {
            &&& (batch as int) < s.batches.len()
            &&& s.status is Running
            &&& !s.sleeping
            &&& s.failures == 0
            &&& s.names == batch_names(s.pm, s.batches[batch as int])
        },
        Phase::Finished => !(s.status is Running),
    }
}

/// A fresh run over the given recipe and batches: empty input means an
/// immediately successful no-op; anything else starts at pre-flight.
pub open spec fn run_from(
    pm: PackageManager,
    recipe: RecipeView,
    batches: Seq<Seq<PackageView>>,
) -> RunView {
    RunView {
        pm,
        recipe,
        batches,
        max_attempts: RETRY_ATTEMPTS,
        failures: 0,
        sleeping: false,
        phase: if batches.len() == 0 {
            Phase::Finished
        } else {
            Phase::Probing { batch: 0, cmd: 0 }
        },
        status: if batches.len() == 0 {
            StatusView::Succeeded
        } else {
            StatusView::Running
        },
        names: Seq::empty(),
        last_detail: Seq::empty(),
    }
}

/// The run that `PackageManager::install` starts: the manager's own recipe
/// over the packages split into batches of [`crate::BATCH_SIZE`].
pub open spec fn initial_run(pm: PackageManager, packages: Seq<PackageView>) -> RunView {
    run_from(pm, pm.spec_recipe(), chunked(packages, crate::BATCH_SIZE as nat))
}

/// The run that `Recipe::execute` starts: this recipe over the given
/// packages as one batch.
pub open spec fn execute_run(
    recipe: RecipeView,
    pm: PackageManager,
    packages: Seq<PackageView>,
) -> RunView {
    run_from(
        pm,
        recipe,
        if packages.len() == 0 {
            Seq::empty()
        } else {
            seq![packages]
        },
    )
}

/// Every transition preserves the run invariant.
pub proof fn lemma_inv_preserved(s: RunView, ev: EventView)
    requires
        inv(s),
    ensures
        inv(run_step(s, ev)),
{
}

/// The command being attempted; meaningful in the `Updating` and
/// `Installing` phases.
pub open spec fn current_command_of(s: RunView) -> CommandLineView {
    match s.phase {
        Phase::Updating { batch: _, step } => s.recipe.update_steps[step as int],
        _ => install_command_of(s),
    }
}

/// The state after the events of `evs` are reported in order.
pub open spec fn run_steps(s: RunView, evs: Seq<EventView>) -> RunView
    decreases evs.len(),
{
    if evs.len() == 0 {
        s
    } else {
        run_steps(run_step(s, evs[0]), evs.skip(1))
    }
}

/// The actions a driver sees along `evs`: the pending action in the start
/// state and in each state an event leads to.
pub open spec fn run_actions(s: RunView, evs: Seq<EventView>) -> Seq<ActionView>
    decreases evs.len(),
{
    if evs.len() == 0 {
        seq![action_of(s)]
    } else {
        seq![action_of(s)] + run_actions(run_step(s, evs[0]), evs.skip(1))
    }
}

/// Reporting one more event steps the final state once more.
pub proof fn lemma_run_steps_snoc(s: RunView, evs: Seq<EventView>, e: EventView)
    ensures
        run_steps(s, evs.push(e)) == run_step(run_steps(s, evs), e),
    decreases evs.len(),
{
    assert(evs.push(e).len() > 0);
    assert(run_steps(s, evs.push(e)) == run_steps(run_step(s, evs.push(e)[0]), evs.push(e).skip(1)));
    if evs.len() == 0 {
        assert(evs.push(e)[0] == e);
        assert(evs.push(e).skip(1) =~= Seq::<EventView>::empty());
        assert(run_steps(run_step(s, e), Seq::<EventView>::empty()) == run_step(s, e));
        assert(run_steps(s, Seq::<EventView>::empty()) == s);
    } else {
        assert(evs.push(e)[0] == evs[0]);
        assert(evs.push(e).skip(1) =~= evs.skip(1).push(e));
        lemma_run_steps_snoc(run_step(s, evs[0]), evs.skip(1), e);
    }
}

/// The invariant holds along every event sequence.
pub proof fn lemma_inv_steps(s: RunView, evs: Seq<EventView>)
    requires
        inv(s),
    ensures
        inv(run_steps(s, evs)),
    decreases evs.len(),
{
    if evs.len() > 0 {
        lemma_inv_preserved(s, evs[0]);
        lemma_inv_steps(run_step(s, evs[0]), evs.skip(1));
    }
}

/// `n` failure reports of one command, each followed by the owed sleep.
pub open spec fn failing_events(n: nat, detail: Seq<char>) -> Seq<EventView>
    decreases n,
{
    if n == 0 {
        Seq::empty()
    } else {
        seq![EventView::Ran { success: false, detail }, EventView::Slept] + failing_events(
            (n - 1) as nat,
            detail,
        )
    }
}

/// Only probe outcomes.
pub open spec fn probes_only(evs: Seq<EventView>) -> bool {
    forall|i: int| 0 <= i < evs.len() ==> (#[trigger] evs[i]) is Probed
}

/// How many probes of the current batch are still owed.
pub open spec fn probe_measure(s: RunView) -> int {
    match s.phase {
        Phase::Probing { batch: _, cmd } => s.recipe.update_steps.len() + 1 - cmd,
        _ => 0,
    }
}

/// An execution of this engine: drive it by performing `next_action` and
/// reporting the outcome through `on_event` until the status is no longer
/// `Running`.
pub struct InstallRun {
    pm: PackageManager,
    recipe: Recipe,
    batches: Vec<Vec<Package>>,
    max_attempts: u32,
    failures: u32,
    sleeping: bool,
    phase: Phase,
    status: RunStatus,
    names: Vec<String>,
    last_detail: String,
}

impl View for InstallRun {
    type V = RunView;

    closed spec fn view(&self) -> RunView {
        RunView {
            pm: self.pm,
            recipe: self.recipe@,
            batches: self.batches.deep_view(),
            max_attempts: self.max_attempts,
            failures: self.failures,
            sleeping: self.sleeping,
            phase: self.phase,
            status: self.status@,
            names: self.names.deep_view(),
            last_detail: self.last_detail@,
        }
    }
}

/// The first invalid name among consistently valid predecessors is the one
/// `spec_first_bad` picks.
proof fn lemma_first_bad_at(pm: PackageManager, batch: Seq<PackageView>, i: int)
    requires
        0 <= i < batch.len(),
        forall|j: int| 0 <= j < i ==> valid_name(#[trigger] spec_name_for(batch[j], pm)),
        !valid_name(spec_name_for(batch[i], pm)),
    ensures
        spec_first_bad(pm, batch) == spec_name_for(batch[i], pm),
    decreases i,
{
    if i > 0 {
        assert(forall|j: int|
            0 <= j < i - 1 ==> valid_name(
                #[trigger] spec_name_for(batch.skip(1)[j], pm),
            )) by {
            assert(forall|j: int| 0 <= j < i - 1 ==> batch.skip(1)[j] == batch[j + 1]);
        }
        assert(batch.skip(1)[i - 1] == batch[i]);
        lemma_first_bad_at(pm, batch.skip(1), i - 1);
    }
}

/// Resolve a batch's names under `pm`, or return the first invalid one.
fn resolve_batch(pm: &PackageManager, batch: &Vec<Package>) -> (r: Result<Vec<String>, String>)
    ensures
        match r {
            Ok(names) => batch_ok(*pm, batch.deep_view()) && names.deep_view() == batch_names(
                *pm,
                batch.deep_view(),
            ),
            Err(bad) => !batch_ok(*pm, batch.deep_view()) && bad@ == spec_first_bad(
                *pm,
                batch.deep_view(),
            ),
        },
{
    let ghost bv = batch.deep_view();
    let mut names: Vec<String> = Vec::new();
    let mut i: usize = 0;
    while i < batch.len()
        invariant
            i <= batch.len(),
            bv == batch.deep_view(),
            forall|j: int| 0 <= j < i ==> valid_name(#[trigger] spec_name_for(bv[j], *pm)),
            names.deep_view().len() == i,
            forall|j: int|
                0 <= j < i ==> #[trigger] names.deep_view()[j] == spec_name_for(bv[j], *pm),
        decreases batch.len() - i,
    {
        let n: &str = batch[i].name_for(pm);
        proof {
            assert(bv[i as int] == batch@[i as int]@);
        }
        if n.is_empty() || text::contains_space(n) {
            proof {
                lemma_first_bad_at(*pm, bv, i as int);
            }
            return Err(String::from_str(n));
        }
        let owned = String::from_str(n);
        let ghost pre = names;
        names.push(owned);
        proof {
            lemma_vec_push_deep_view(pre, names, owned);
        }
        i += 1;
    }
    proof {
        assert(names.deep_view() =~= batch_names(*pm, bv));
    }
    Ok(names)
}

/// Split packages into chunks of at most `k`, in order.
pub fn chunk_packages(packages: &Vec<Package>, k: usize) -> (r: Vec<Vec<Package>>)
    requires
        k >= 1,
    ensures
        r.deep_view() == chunked(packages.deep_view(), k as nat),
{
    let ghost pv = packages.deep_view();
    let mut out: Vec<Vec<Package>> = Vec::new();
    let mut start: usize = 0;
    proof {
        assert(pv.skip(0) =~= pv);
        assert(out.deep_view() =~= Seq::<Seq<PackageView>>::empty());
    }
    while start < packages.len()
        invariant
            start <= packages.len(),
            k >= 1,
            pv == packages.deep_view(),
            out.deep_view() + chunked(pv.skip(start as int), k as nat) =~= chunked(pv, k as nat),
        decreases packages.len() - start,
    {
        let end: usize = if packages.len() - start <= k {
            packages.len()
        } else {
            start + k
        };
        let mut b: Vec<Package> = Vec::new();
        let mut j: usize = start;
        while j < end
            invariant
                start <= j <= end,
                end <= packages.len(),
                pv == packages.deep_view(),
                b.deep_view() =~= pv.subrange(start as int, j as int),
            decreases end - j,
        {
            let p = packages[j].clone();
            let ghost pre = b;
            b.push(p);
            proof {
                lemma_vec_push_deep_view(pre, b, p);
                assert(b.deep_view() =~= pv.subrange(start as int, j + 1));
            }
            j += 1;
        }
        let ghost bview = b.deep_view();
        let ghost preo = out;
        out.push(b);
        proof {
            lemma_vec_push_deep_view(preo, out, b);
            let rest = pv.skip(start as int);
            if pv.len() - start <= k {
                assert(bview =~= rest);
                assert(chunked(rest, k as nat) =~= seq![rest]);
                assert(pv.skip(end as int).len() == 0);
                assert(chunked(pv.skip(end as int), k as nat) =~= Seq::<Seq<PackageView>>::empty());
            } else {
                assert(bview =~= rest.take(k as int));
                assert(rest.skip(k as int) =~= pv.skip(end as int));
                assert(chunked(rest, k as nat) == seq![rest.take(k as int)] + chunked(
                    pv.skip(end as int),
                    k as nat,
                ));
            }
            assert(out.deep_view() + chunked(pv.skip(end as int), k as nat) =~= chunked(
                pv,
                k as nat,
            ));
        }
        start = end;
    }
    proof {
        assert(pv.skip(start as int).len() == 0);
        assert(chunked(pv.skip(start as int), k as nat) =~= Seq::<Seq<PackageView>>::empty());
        assert(out.deep_view() =~= chunked(pv, k as nat));
    }
    out
}

impl InstallRun {
    /// Begin a run over the given recipe and prepared batches.
    pub(crate) fn from_batches(
        pm: PackageManager,
        recipe: Recipe,
        batches: Vec<Vec<Package>>,
    ) -> (r: InstallRun)
        ensures
            r@ == run_from(pm, recipe@, batches.deep_view()),
            inv(r@),
    {
        let n_batches = batches.len();
        let n_steps = recipe.update_steps.len();
        let finished = n_batches == 0;
        let r = InstallRun {
            pm,
            recipe,
            batches,
            max_attempts: RETRY_ATTEMPTS,
            failures: 0,
            sleeping: false,
            phase: if finished {
                Phase::Finished
            } else {
                Phase::Probing { batch: 0, cmd: 0 }
            },
            status: if finished {
                RunStatus::Succeeded
            } else {
                RunStatus::Running
            },
            names: Vec::new(),
            last_detail: String::new(),
        };
        proof {
            assert(r@ =~~= run_from(pm, recipe@, r.batches.deep_view()));
        }
        r
    }

    /// The run's final disposition; `Running` while events are still owed.
    pub fn status(&self) -> (r: &RunStatus)
        ensures
            r@ == self@.status,
    {
        &self.status
    }

    /// Whether the run is over.
    pub fn is_finished(&self) -> (r: bool)
        ensures
            r == (self@.phase is Finished),
    {
        match self.phase {
            Phase::Finished => true,
            _ => false,
        }
    }

    /// The action the driver should perform now.
    pub fn next_action(&self) -> (a: Action)
        requires
            inv(self@),
        ensures
            a@ == action_of(self@),
    {
        match self.phase {
            Phase::Probing { batch: _, cmd } => {
                let program = if cmd < self.recipe.update_steps.len() {
                    self.recipe.update_steps[cmd].program.clone()
                } else {
                    self.recipe.install_command.program.clone()
                };
                Action::Probe(program)
            },
            Phase::Updating { batch: _, step } => {
                if self.sleeping {
                    Action::Sleep(delay_ms_for(self.failures))
                } else {
                    Action::Run(self.recipe.update_steps[step].clone())
                }
            },
            Phase::Installing { .. } => {
                if self.sleeping {
                    Action::Sleep(delay_ms_for(self.failures))
                } else {
                    let c = self.recipe.install_command.with_extra_args(&self.names);
                    proof {
                        assert(c@ =~= install_command_of(self@));
                    }
                    Action::Run(c)
                }
            },
            Phase::Marking { .. } => {
                let names = self.names.clone();
                proof {
                    assert(names.deep_view() =~= self@.names);
                }
                Action::MarkFresh(names)
            },
            Phase::Finished => Action::Done,
        }
    }

    /// Enter the install step of `batch`, validating resolved names first.
    fn enter_install_now(&mut self, batch: usize)
        requires
            (batch as int) < old(self)@.batches.len(),
        ensures
            final(self)@ == enter_install(old(self)@, batch),
    {
        match resolve_batch(&self.pm, &self.batches[batch]) {
            Ok(names) => {
                self.names = names;
                self.phase = Phase::Installing { batch };
                proof {
                    assert(self@ =~~= enter_install(old(self)@, batch));
                }
            },
            Err(bad) => {
                self.phase = Phase::Finished;
                self.status = RunStatus::Failed(SetupError::InvalidPackageName { name: bad });
                proof {
                    assert(self@ =~~= enter_install(old(self)@, batch));
                }
            },
        }
    }

    /// Start work on `batch` after its pre-flight checks passed.
    fn begin_batch_now(&mut self, batch: usize)
        requires
            (batch as int) < old(self)@.batches.len(),
        ensures
            final(self)@ == begin_batch(old(self)@, batch),
    {
        if self.recipe.update_steps.len() > 0 {
            self.phase = Phase::Updating { batch, step: 0 };
            proof {
                assert(self@ =~~= begin_batch(old(self)@, batch));
            }
        } else {
            self.enter_install_now(batch);
        }
    }

    /// Book a failed attempt of command `c`.
    fn fail_attempt(&mut self, c: CommandLine, detail: String)
        requires
            old(self)@.failures < old(self)@.max_attempts,
        ensures
            final(self)@ == after_failure(old(self)@, c@, detail@),
    {
        if self.failures + 1 >= self.max_attempts {
            self.last_detail = detail.clone();
            self.phase = Phase::Finished;
            self.status = RunStatus::Failed(
                SetupError::RetryExhausted { attempts: self.max_attempts, command: c, detail },
            );
            proof {
                assert(self@ =~~= after_failure(old(self)@, c@, detail@));
            }
        } else {
            self.failures = self.failures + 1;
            self.sleeping = true;
            self.last_detail = detail;
            proof {
                assert(self@ =~~= after_failure(old(self)@, c@, detail@));
            }
        }
    }

    /// Report the outcome of the pending action and advance the run.
    pub fn on_event(&mut self, ev: Event)
        requires
            inv(old(self)@),
        ensures
            final(self)@ == run_step(old(self)@, ev@),
            inv(final(self)@),
    {
        proof {
            lemma_inv_preserved(old(self)@, ev@);
        }
        match (self.phase, ev) {
            (Phase::Probing { batch, cmd }, Event::Probed { found }) => {
                if !found {
                    let program = if cmd < self.recipe.update_steps.len() {
                        self.recipe.update_steps[cmd].program.clone()
                    } else {
                        self.recipe.install_command.program.clone()
                    };
                    self.phase = Phase::Finished;
                    self.status = RunStatus::Failed(
                        SetupError::CommandNotFound { command: program },
                    );
                    proof {
                        assert(self@ =~~= run_step(old(self)@, ev@));
                    }
                } else if cmd < self.recipe.update_steps.len() {
                    self.phase = Phase::Probing { batch, cmd: cmd + 1 };
                    proof {
                        assert(self@ =~~= run_step(old(self)@, ev@));
                    }
                } else {
                    self.begin_batch_now(batch);
                }
            },
            (Phase::Updating { batch, step }, Event::Ran { success, detail }) => {
                if success {
                    self.failures = 0;
                    self.sleeping = false;
                    if step + 1 < self.recipe.update_steps.len() {
                        self.phase = Phase::Updating { batch, step: step + 1 };
                        proof {
                            assert(self@ =~~= run_step(old(self)@, ev@));
                        }
                    } else {
                        self.enter_install_now(batch);
                    }
                } else {
                    let c = self.recipe.update_steps[step].clone();
                    self.fail_attempt(c, detail);
                }
            },
            (Phase::Installing { batch }, Event::Ran { success, detail }) => {
                if success {
                    self.failures = 0;
                    self.sleeping = false;
                    self.phase = Phase::Marking { batch };
                    proof {
                        assert(self@ =~~= run_step(old(self)@, ev@));
                    }
                } else {
                    let c = self.recipe.install_command.with_extra_args(&self.names);
                    proof {
                        assert(c@ =~= install_command_of(old(self)@));
                    }
                    self.fail_attempt(c, detail);
                }
            },
            (Phase::Updating { .. }, Event::Slept) => {
                self.sleeping = false;
                proof {
                    assert(self@ =~~= run_step(old(self)@, ev@));
                }
            },
            (Phase::Installing { .. }, Event::Slept) => {
                self.sleeping = false;
                proof {
                    assert(self@ =~~= run_step(old(self)@, ev@));
                }
            },
            (Phase::Marking { batch }, Event::Marked) => {
                if batch + 1 < self.batches.len() {
                    self.phase = Phase::Probing { batch: batch + 1, cmd: 0 };
                } else {
                    self.phase = Phase::Finished;
                    self.status = RunStatus::Succeeded;
                }
                proof {
                    assert(self@ =~~= run_step(old(self)@, ev@));
                }
            },
            _ => {
                proof {
                    assert(self@ =~~= run_step(old(self)@, ev@));
                }
            },
        }
    }
}

/// Run the pre-flight checks of the current batch: probe each command the
/// recipe references on the search path, and feed the engine the answers
/// until it no longer awaits a probe. What the probes find is decided by
/// the environment; whatever came back, the final state is one the engine's
/// own transitions reach from the initial one on probe outcomes alone.
pub fn run_probes(run: &mut InstallRun)
    requires
        inv(old(run)@),
    ensures
        inv(final(run)@),
        !(final(run)@.phase is Probing),
        exists|evs: Seq<EventView>|
            #[trigger] probes_only(evs) && final(run)@ == run_steps(old(run)@, evs),
{
    let ghost mut evs: Seq<EventView> = Seq::empty();
    loop
        invariant
            inv(run@),
            probes_only(evs),
            run@ == run_steps(old(run)@, evs),
        ensures
            inv(run@),
            probes_only(evs),
            run@ == run_steps(old(run)@, evs),
            !(run@.phase is Probing),
        decreases probe_measure(run@),
    {
        let a = run.next_action();
        match a {
            Action::Probe(program) => {
                let found = command_on_path(program.as_str());
                let ev = Event::Probed { found };
                let ghost ev_view = ev@;
                proof {
                    lemma_run_steps_snoc(old(run)@, evs, ev_view);
                }
                run.on_event(ev);
                proof {
                    evs = evs.push(ev_view);
                    assert(probes_only(evs)) by {
                        assert(forall|i: int|
                            0 <= i < evs.len() - 1 ==> evs[i] == evs.drop_last()[i]);
                        assert(evs.last() is Probed);
                    }
                }
            },
            _ => {
                proof {
                    assert(!(run@.phase is Probing));
                }
                break;
            },
        }
    }
}

} // verus!
