//! The ordered step registry and the fail-fast sequencer that runs it.
//!
//! Running a step is outside work, so the sequencer is a state machine: it names
//! the next step to run (with its 1-based position), takes the step's outcome,
//! and says what to report. The caller performs each step in between.
use vstd::prelude::*;

use crate::failure::Failure;
use crate::observer::{lemma_observe_all_append, observe, observe_all, ObserverState, TuiMessage};
use crate::progress::{InstallProgress, InstallStep, StepState};
use crate::step::{
    ArchDetectionStep, ChangeOwnerStep, HomeDirSetupStep, InstallerStep, JwtSecretStep,
    LibpqDevStep, LibvirtPythonStep, LibvirtStep, MultipathStep, OpenVSwitchStep,
    OsTypeDetectionStep, PostgresqlSupportStep, PreCommitStep, PythonPathStep,
    PythonRequirementsStep, PythonToolsStep, StepKind, StorageRequirementsStep, TmuxInstallStep,
    UserDataVerificationStep, VenvCreationStep, WebsockifyStep, WheelStep,
};

verus! {

/// The steps of a basic installation, in order.
pub open spec fn basic_kinds() -> Seq<StepKind> {
    seq![
        StepKind::TmuxInstall,
        StepKind::UserDataVerification,
        StepKind::JwtSecret,
        StepKind::OsTypeDetection,
        StepKind::HomeDirSetup,
        StepKind::PythonTools,
        StepKind::VenvCreation,
        StepKind::PythonPath,
        StepKind::LibpqDev,
        StepKind::Websockify,
    ]
}

/// The steps of an extended installation, in order: the basic ones, then the
/// system preparation for services.
pub open spec fn extended_kinds() -> Seq<StepKind> {
    basic_kinds() + seq![
        StepKind::Libvirt,
        StepKind::LibvirtPython,
        StepKind::StorageRequirements,
        StepKind::Wheel,
        StepKind::PythonRequirements,
        StepKind::PreCommit,
        StepKind::PostgresqlSupport,
        StepKind::OpenVSwitch,
        StepKind::Multipath,
        StepKind::ChangeOwner,
        StepKind::ArchDetection,
    ]
}

/// An ordered, append-only list of steps, fixed once execution begins.
pub struct StepRegistry {
    steps: Vec<StepKind>,
}

impl View for StepRegistry {
    type V = Seq<StepKind>;

    closed spec fn view(&self) -> Seq<StepKind> {
        self.steps@
    }
}

impl StepRegistry {
    pub fn new() -> (r: Self)
        ensures
            r@ == Seq::<StepKind>::empty(),
    {
        StepRegistry { steps: Vec::new() }
    }

    /// The registry with `step` appended after the existing steps.
    pub fn add_step<T: InstallerStep>(self, step: T) -> (r: Self)
        ensures
            r@ == self@.push(step.spec_kind()),
    {
        let mut steps = self.steps;
        steps.push(step.kind());
        StepRegistry { steps }
    }

    pub fn len(&self) -> (r: usize)
        ensures
            r == self@.len(),
    {
        self.steps.len()
    }

    /// The step at 0-based `index`; `None` out of range.
    pub fn step(&self, index: usize) -> (r: Option<StepKind>)
        ensures
            index < self@.len() ==> r == Some(self@[index as int]),
            index >= self@.len() ==> r is None,
    {
        if index < self.steps.len() {
            Some(self.steps[index])
        } else {
            None
        }
    }

    /// The ten steps of a basic installation.
    pub fn basic_installation() -> (r: Self)
        ensures
            r@ == basic_kinds(),
    {
        let r = StepRegistry::new().add_step(TmuxInstallStep).add_step(
            UserDataVerificationStep,
        ).add_step(JwtSecretStep).add_step(OsTypeDetectionStep).add_step(HomeDirSetupStep).add_step(
            PythonToolsStep,
        ).add_step(VenvCreationStep).add_step(PythonPathStep).add_step(LibpqDevStep).add_step(
            WebsockifyStep,
        );
        assert(r@ =~= basic_kinds());
        r
    }

    /// The twenty-one steps of an extended installation.
    pub fn extended_installation() -> (r: Self)
        ensures
            r@ == extended_kinds(),
    {
        let r = StepRegistry::basic_installation().add_step(LibvirtStep).add_step(
            LibvirtPythonStep,
        ).add_step(StorageRequirementsStep).add_step(WheelStep).add_step(
            PythonRequirementsStep,
        ).add_step(PreCommitStep).add_step(PostgresqlSupportStep).add_step(OpenVSwitchStep).add_step(
            MultipathStep,
        ).add_step(ChangeOwnerStep).add_step(ArchDetectionStep);
        assert(r@ =~= extended_kinds());
        r
    }

    /// A progress model with one `Pending` record per registered step, labelled
    /// with the step's name and description, step 0 active.
    pub fn progress_model(&self) -> (r: InstallProgress)
        ensures
            r.wf(),
            r.states() == Seq::new(self@.len(), |i: int| StepState::Pending),
            r.names() == self@.map_values(|k: StepKind| k.spec_name()),
            r.descriptions() == self@.map_values(|k: StepKind| k.spec_description()),
            r.spec_current_step() == 0,
    {
        let mut records: Vec<InstallStep> = Vec::new();
        let mut i: usize = 0;
        while i < self.steps.len()
            invariant
                i <= self.steps@.len(),
                records@.len() == i,
                forall|j: int|
                    0 <= j < i ==> #[trigger] records@[j].name@ == self.steps@[j].spec_name(),
                forall|j: int|
                    0 <= j < i ==> #[trigger] records@[j].description@
                        == self.steps@[j].spec_description(),
            decreases self.steps@.len() - i,
        {
            let kind = self.steps[i];
            records.push(InstallStep::new(kind.name(), kind.description()));
            i = i + 1;
        }
        let r = InstallProgress::from_steps(records);
        assert(r.names() =~= self@.map_values(|k: StepKind| k.spec_name()));
        assert(r.descriptions() =~= self@.map_values(|k: StepKind| k.spec_description()));
        r
    }

    /// A fresh run over this registry: nothing invoked yet, no failure.
    pub fn start_run(&self) -> (r: Execution)
        ensures
            r@ == run_start(self@.len()),
    {
        Execution { total: self.steps.len(), next: 0, failure: None }
    }
}

/// Where a run stands: how many steps it has, how many it has invoked, and the
/// failure it stopped at, if any.
pub struct RunState {
    pub total: nat,
    pub next: nat,
    pub failure: Option<Failure>,
}

pub open spec fn run_start(total: nat) -> RunState {
    RunState { total, next: 0, failure: None }
}

/// A step remains to be invoked: nothing has failed and not all have run.
pub open spec fn is_running(s: RunState) -> bool {
    s.failure is None && s.next < s.total
}

/// The run after the step at `s.next` reported `outcome`: a failure is kept and
/// stops the run.
pub open spec fn run_record(s: RunState, outcome: Result<(), Failure>) -> RunState {
    match outcome {
        Ok(()) => RunState { next: s.next + 1, ..s },
        Err(f) => RunState { next: s.next + 1, failure: Some(f), ..s },
    }
}

/// What a finished run returns: the failure it stopped at, unchanged, or success.
pub open spec fn run_result(s: RunState) -> Result<(), Failure> {
    match s.failure {
        Some(f) => Err(f),
        None => Ok(()),
    }
}

/// The indices a run invokes from `s` on when the step at index `i` reports
/// `outcomes[i]`, and the state it ends in.
pub open spec fn run_from(s: RunState, outcomes: Seq<Result<(), Failure>>) -> (Seq<nat>, RunState)
    decreases s.total - s.next,
{
    if is_running(s) && s.next < outcomes.len() {
        let (rest, last) = run_from(run_record(s, outcomes[s.next as int]), outcomes);
        (seq![s.next] + rest, last)
    } else {
        (Seq::empty(), s)
    }
}

/// The message that reports the outcome of the step at `index`.
pub open spec fn report_of(index: nat, outcome: Result<(), Failure>) -> TuiMessage {
    match outcome {
        Ok(()) => TuiMessage::CompleteStep(index as usize),
        Err(_) => TuiMessage::FailStep(index as usize),
    }
}

/// The messages a run sends from `s` on when the step at index `i` reports
/// `outcomes[i]`: for each step it invokes, `StartStep` and then the report.
pub open spec fn run_messages(s: RunState, outcomes: Seq<Result<(), Failure>>) -> Seq<TuiMessage>
    decreases s.total - s.next,
{
    if is_running(s) && s.next < outcomes.len() {
        seq![TuiMessage::StartStep(s.next as usize), report_of(s.next, outcomes[s.next as int])]
            + run_messages(run_record(s, outcomes[s.next as int]), outcomes)
    } else {
        Seq::empty()
    }
}

/// What the sequencer asks for next.
#[derive(PartialEq, Eq, Structural, Clone, Copy, Debug)]
pub enum RunAction {
    /// Invoke the step at 0-based `index`; `position` is its 1-based place among
    /// `total` steps.
    Run { index: usize, position: usize, total: usize },
    /// Nothing more to invoke.
    Done,
}

/// What the sequencer asks for in state `s`: the step at `s.next`, at 1-based
/// position `s.next + 1` of `s.total`, while the run is going; else `Done`.
pub open spec fn action_of(s: RunState) -> RunAction {
    if is_running(s) {
        RunAction::Run {
            index: s.next as usize,
            position: (s.next + 1) as usize,
            total: s.total as usize,
        }
    } else {
        RunAction::Done
    }
}

/// The state of a run from the start after the first `j` steps reported
/// `outcomes[0..j]`.
pub open spec fn run_state_at(total: nat, outcomes: Seq<Result<(), Failure>>, j: nat) -> RunState
    decreases j,
{
    if j == 0 {
        run_start(total)
    } else {
        run_record(run_state_at(total, outcomes, (j - 1) as nat), outcomes[j - 1])
    }
}

/// Positions come from indices alone. In a run over `total` steps, while the
/// steps before `j` have succeeded, the sequencer asks for step `j` at position
/// `j + 1` of `total`, whatever the steps are and however alike they look.
pub proof fn lemma_position_is_index_plus_one(
    total: nat,
    outcomes: Seq<Result<(), Failure>>,
    j: nat,
)
    requires
        total <= usize::MAX,
        j < total,
        forall|i: int| 0 <= i < j ==> #[trigger] outcomes[i] is Ok,
    ensures
        run_state_at(total, outcomes, j) == (RunState { total, next: j, failure: None }),
        action_of(run_state_at(total, outcomes, j)) == (RunAction::Run {
            index: j as usize,
            position: (j + 1) as usize,
            total: total as usize,
        }),
    decreases j,
{
    if j > 0 {
        lemma_position_is_index_plus_one(total, outcomes, (j - 1) as nat);
        assert(outcomes[j - 1] is Ok);
    }
}

/// The status line shown once a run has ended.
pub open spec fn completion_text(result: Result<(), Failure>) -> Seq<char> {
    match result {
        Ok(()) => "Installation completed successfully!"@,
        Err(f) => "Installation failed: "@ + f.text(),
    }
}

/// The status line for a run that ended with `result`.
pub fn completion_status(result: &Result<(), Failure>) -> (r: String)
    ensures
        r@ == completion_text(*result),
{
    match result {
        Ok(()) => "Installation completed successfully!".to_owned(),
        Err(f) => {
            let mut r = "Installation failed: ".to_owned();
            r.append(f.message().as_str());
            r
        },
    }
}

/// A run of a registry in progress.
pub struct Execution {
    total: usize,
    next: usize,
    failure: Option<Failure>,
}

impl View for Execution {
    type V = RunState;

    closed spec fn view(&self) -> RunState {
        RunState { total: self.total as nat, next: self.next as nat, failure: self.failure }
    }
}

impl Execution {
    /// The next step to invoke, with its position counted from its index in the
    /// registry, or `Done` once a step failed or all have run.
    pub fn next_action(&self) -> (r: RunAction)
        ensures
            self@.total <= usize::MAX,
            r == action_of(self@),
            r matches RunAction::Run { index, position, total } ==> index == self@.next
                && position == index + 1 && total == self@.total,
    {
        if self.failure.is_none() && self.next < self.total {
            RunAction::Run { index: self.next, position: self.next + 1, total: self.total }
        } else {
            RunAction::Done
        }
    }

    /// Takes the outcome of the step just invoked and returns the message that
    /// reports it.
    pub fn record(&mut self, outcome: Result<(), Failure>) -> (m: TuiMessage)
        requires
            is_running(old(self)@),
        ensures
            final(self)@ == run_record(old(self)@, outcome),
            m == report_of(old(self)@.next, outcome),
    {
        let index = self.next;
        self.next = self.next + 1;
        match outcome {
            Ok(()) => TuiMessage::CompleteStep(index),
            Err(f) => {
                self.failure = Some(f);
                TuiMessage::FailStep(index)
            },
        }
    }

    /// The run's result: the failure it stopped at, or success.
    pub fn finish(self) -> (r: Result<(), Failure>)
        ensures
            r == run_result(self@),
    {
        match self.failure {
            Some(f) => Err(f),
            None => Ok(()),
        }
    }
}

#[verifier::spinoff_prover]
#[verifier::rlimit(40)]
proof fn lemma_run_from(s: RunState, outcomes: Seq<Result<(), Failure>>)
    requires
        s.failure is None,
        s.next <= s.total,
        outcomes.len() == s.total,
    ensures
        (forall|i: int| s.next <= i < s.total ==> #[trigger] outcomes[i] is Ok) ==> {
            &&& run_from(s, outcomes).0 == Seq::new(
                (s.total - s.next) as nat,
                |i: int| (s.next + i) as nat,
            )
            &&& run_from(s, outcomes).1.failure is None
        },
        forall|k: int|
            s.next <= k < s.total && #[trigger] outcomes[k] is Err && (forall|i: int|
                s.next <= i < k ==> #[trigger] outcomes[i] is Ok) ==> {
                &&& run_from(s, outcomes).0 == Seq::new(
                    (k + 1 - s.next) as nat,
                    |i: int| (s.next + i) as nat,
                )
                &&& run_result(run_from(s, outcomes).1) == outcomes[k]
            },
    decreases s.total - s.next,
{
    if s.next < s.total {
        let t = run_record(s, outcomes[s.next as int]);
        if outcomes[s.next as int] is Ok {
            lemma_run_from(t, outcomes);
            let (rest, _) = run_from(t, outcomes);
            if forall|i: int| s.next <= i < s.total ==> #[trigger] outcomes[i] is Ok {
                assert(seq![s.next] + rest =~= Seq::new(
                    (s.total - s.next) as nat,
                    |i: int| (s.next + i) as nat,
                ));
            }
            assert forall|k: int|
                s.next <= k < s.total && #[trigger] outcomes[k] is Err && (forall|i: int|
                    s.next <= i < k ==> #[trigger] outcomes[i] is Ok) implies {
                &&& run_from(s, outcomes).0 == Seq::new(
                    (k + 1 - s.next) as nat,
                    |i: int| (s.next + i) as nat,
                )
                &&& run_result(run_from(s, outcomes).1) == outcomes[k]
            } by {
                assert(k != s.next);
                assert(forall|i: int| t.next <= i < k ==> #[trigger] outcomes[i] is Ok);
                assert(seq![s.next] + rest =~= Seq::new(
                    (k + 1 - s.next) as nat,
                    |i: int| (s.next + i) as nat,
                ));
            }
        } else {
            assert(run_from(t, outcomes).0 =~= Seq::<nat>::empty());
            assert(seq![s.next] + Seq::<nat>::empty() =~= Seq::new(
                1,
                |i: int| (s.next + i) as nat,
            ));
            assert forall|k: int|
                s.next <= k < s.total && #[trigger] outcomes[k] is Err && (forall|i: int|
                    s.next <= i < k ==> #[trigger] outcomes[i] is Ok) implies k == s.next by {
                if k > s.next {
                    assert(outcomes[s.next as int] is Ok);
                }
            }
        }
    } else {
        assert(run_from(s, outcomes).0 =~= Seq::new(0, |i: int| (s.next + i) as nat));
    }
}

/// Fail-fast sequencing. Over `total` steps whose outcomes are `outcomes`: when
/// every step succeeds, each is invoked once, in build order, and the run
/// succeeds; when step `k` is the first to fail, exactly steps `0..=k` are
/// invoked, in order, and the run returns step `k`'s failure unchanged.
pub proof fn lemma_fail_fast(total: nat, outcomes: Seq<Result<(), Failure>>)
    requires
        outcomes.len() == total,
    ensures
        (forall|i: int| 0 <= i < total ==> #[trigger] outcomes[i] is Ok) ==> {
            &&& run_from(run_start(total), outcomes).0 == Seq::new(total, |i: int| i as nat)
            &&& run_result(run_from(run_start(total), outcomes).1) == Ok::<(), Failure>(())
        },
        forall|k: int|
            0 <= k < total && #[trigger] outcomes[k] is Err && (forall|i: int|
                0 <= i < k ==> #[trigger] outcomes[i] is Ok) ==> {
                &&& run_from(run_start(total), outcomes).0 == Seq::new(
                    (k + 1) as nat,
                    |i: int| i as nat,
                )
                &&& run_result(run_from(run_start(total), outcomes).1) == outcomes[k]
            },
{
    lemma_run_from(run_start(total), outcomes);
    assert(Seq::new(total, |i: int| (0 + i) as nat) =~= Seq::new(total, |i: int| i as nat));
    assert forall|k: int|
        0 <= k < total && #[trigger] outcomes[k] is Err && (forall|i: int|
            0 <= i < k ==> #[trigger] outcomes[i] is Ok) implies {
        &&& run_from(run_start(total), outcomes).0 == Seq::new((k + 1) as nat, |i: int| i as nat)
        &&& run_result(run_from(run_start(total), outcomes).1) == outcomes[k]
    } by {
        assert(Seq::new((k + 1 - 0) as nat, |i: int| (0 + i) as nat) =~= Seq::new(
            (k + 1) as nat,
            |i: int| i as nat,
        ));
    }
}

proof fn lemma_run_mirrored(
    s: RunState,
    outcomes: Seq<Result<(), Failure>>,
    o: ObserverState,
)
    requires
        s.failure is None,
        s.next <= s.total,
        s.total <= usize::MAX,
        outcomes.len() == s.total,
        o.states.len() == s.total,
        o.names.len() == s.total,
    ensures
        s.next <= run_from(s, outcomes).1.next <= s.total,
        observe_all(o, run_messages(s, outcomes)).states == Seq::new(
            s.total,
            |i: int|
                if s.next <= i < run_from(s, outcomes).1.next {
                    if outcomes[i] is Ok {
                        StepState::Completed
                    } else {
                        StepState::Failed
                    }
                } else {
                    o.states[i]
                },
        ),
    decreases s.total - s.next,
{
    let last = run_from(s, outcomes).1;
    if s.next < s.total {
        let out = outcomes[s.next as int];
        let t = run_record(s, out);
        let head = seq![TuiMessage::StartStep(s.next as usize), report_of(s.next, out)];
        lemma_observe_all_append(o, head, run_messages(t, outcomes));
        assert(head.drop_last() =~= seq![TuiMessage::StartStep(s.next as usize)]);
        assert(head.drop_last().drop_last() =~= Seq::<TuiMessage>::empty());
        let o1 = observe(o, TuiMessage::StartStep(s.next as usize));
        let o2 = observe(o1, report_of(s.next, out));
        assert(observe_all(o, Seq::<TuiMessage>::empty()) == o);
        assert(head.drop_last().last() == TuiMessage::StartStep(s.next as usize));
        assert(observe_all(o, head.drop_last()) == o1);
        assert(head.last() == report_of(s.next, out));
        assert(observe_all(o, head) == o2);
        assert(o2.states == o.states.update(
            s.next as int,
            if out is Ok {
                StepState::Completed
            } else {
                StepState::Failed
            },
        ));
        if out is Ok {
            lemma_run_mirrored(t, outcomes, o2);
            assert(observe_all(o, run_messages(s, outcomes)).states =~= Seq::new(
                s.total,
                |i: int|
                    if s.next <= i < last.next {
                        if outcomes[i] is Ok {
                            StepState::Completed
                        } else {
                            StepState::Failed
                        }
                    } else {
                        o.states[i]
                    },
            ));
        } else {
            assert(!is_running(t));
            assert(run_from(t, outcomes).1 == t);
            assert(last.next == s.next + 1);
            assert(run_messages(t, outcomes) =~= Seq::<TuiMessage>::empty());
            assert(observe_all(o2, Seq::<TuiMessage>::empty()) == o2);
            assert(observe_all(o, run_messages(s, outcomes)).states =~= Seq::new(
                s.total,
                |i: int|
                    if s.next <= i < last.next {
                        if outcomes[i] is Ok {
                            StepState::Completed
                        } else {
                            StepState::Failed
                        }
                    } else {
                        o.states[i]
                    },
            ));
        }
    } else {
        assert(run_messages(s, outcomes) =~= Seq::<TuiMessage>::empty());
        assert(observe_all(o, run_messages(s, outcomes)).states =~= Seq::new(
            s.total,
            |i: int|
                if s.next <= i < last.next {
                    if outcomes[i] is Ok {
                        StepState::Completed
                    } else {
                        StepState::Failed
                    }
                } else {
                    o.states[i]
                },
        ));
    }
}

/// An observer whose model lists the same `total` steps, all `Pending`, and
/// receives the messages of a run in the order they were sent, ends with each
/// invoked step `Completed`, or `Failed` for the one that failed, and every step
/// the run never reached still `Pending`.
pub proof fn lemma_run_observed(
    total: nat,
    outcomes: Seq<Result<(), Failure>>,
    o: ObserverState,
)
    requires
        total <= usize::MAX,
        outcomes.len() == total,
        o.states == Seq::new(total, |i: int| StepState::Pending),
        o.names.len() == total,
    ensures
        observe_all(o, run_messages(run_start(total), outcomes)).states == Seq::new(
            total,
            |i: int|
                if i < run_from(run_start(total), outcomes).1.next {
                    if outcomes[i] is Ok {
                        StepState::Completed
                    } else {
                        StepState::Failed
                    }
                } else {
                    StepState::Pending
                },
        ),
{
    lemma_run_mirrored(run_start(total), outcomes, o);
    assert(observe_all(o, run_messages(run_start(total), outcomes)).states =~= Seq::new(
        total,
        |i: int|
            if i < run_from(run_start(total), outcomes).1.next {
                if outcomes[i] is Ok {
                    StepState::Completed
                } else {
                    StepState::Failed
                }
            } else {
                StepState::Pending
            },
    ));
}

} // verus!
