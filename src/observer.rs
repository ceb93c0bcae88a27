//! The observing side: progress messages and the dashboard state they drive.
use vstd::prelude::*;

use crate::failure::{decimal, decimal_text};
use crate::progress::{lemma_all_completed_is_full, percent_of, InstallProgress, StepState};
use crate::registry::{basic_kinds, StepRegistry};
use crate::step::StepKind;

verus! {

/// A progress event sent from the executing side to the observer. Indices are
/// 0-based positions in the observer's step list.
#[derive(PartialEq, Eq, Debug)]
pub enum TuiMessage {
    StartStep(usize),
    CompleteStep(usize),
    FailStep(usize),
    UpdateStatus(String),
    Exit,
}

/// A key press seen by the dashboard.
#[derive(PartialEq, Eq, Structural, Clone, Copy, Debug)]
pub enum UserInput {
    Char(char),
    Escape,
    Other,
}

/// `q` and Escape ask the dashboard to quit.
pub open spec fn is_quit(input: UserInput) -> bool {
    input == UserInput::Char('q') || input == UserInput::Escape
}

pub fn is_quit_input(input: UserInput) -> (r: bool)
    ensures
        r == is_quit(input),
{
    match input {
        UserInput::Char(c) => c == 'q',
        UserInput::Escape => true,
        UserInput::Other => false,
    }
}

/// What the observer holds: the progress model's states and labels, the active
/// step, the status line and whether it has been told to stop.
pub struct ObserverState {
    pub states: Seq<StepState>,
    pub names: Seq<Seq<char>>,
    pub current: nat,
    pub status: Seq<char>,
    pub quit: bool,
}

/// The observer's state after one message. An index outside the step list leaves
/// the records alone and puts the raw index in the status line.
pub open spec fn observe(s: ObserverState, m: TuiMessage) -> ObserverState {
    match m {
        TuiMessage::StartStep(i) => if i < s.states.len() {
            ObserverState {
                states: s.states.update(i as int, StepState::InProgress),
                current: i as nat,
                status: "Starting: "@ + s.names[i as int],
                ..s
            }
        } else {
            ObserverState { status: "Starting step "@ + decimal(i as nat), ..s }
        },
        TuiMessage::CompleteStep(i) => if i < s.states.len() {
            ObserverState {
                states: s.states.update(i as int, StepState::Completed),
                status: "Completed: "@ + s.names[i as int],
                ..s
            }
        } else {
            ObserverState { status: "Completed step "@ + decimal(i as nat), ..s }
        },
        TuiMessage::FailStep(i) => if i < s.states.len() {
            ObserverState {
                states: s.states.update(i as int, StepState::Failed),
                status: "Failed: "@ + s.names[i as int],
                ..s
            }
        } else {
            ObserverState { status: "Failed step "@ + decimal(i as nat), ..s }
        },
        TuiMessage::UpdateStatus(text) => ObserverState { status: text@, ..s },
        TuiMessage::Exit => ObserverState { quit: true, ..s },
    }
}

/// The observer's state after the messages of `msgs`, in order.
pub open spec fn observe_all(s: ObserverState, msgs: Seq<TuiMessage>) -> ObserverState
    decreases msgs.len(),
{
    if msgs.len() == 0 {
        s
    } else {
        observe(observe_all(s, msgs.drop_last()), msgs.last())
    }
}

/// The dashboard: its progress model, status line and quit flag.
pub struct TuiApp {
    progress: InstallProgress,
    status_message: String,
    should_quit: bool,
}

impl View for TuiApp {
    type V = ObserverState;

    closed spec fn view(&self) -> ObserverState {
        ObserverState {
            states: self.progress.states(),
            names: self.progress.names(),
            current: self.progress.spec_current_step(),
            status: self.status_message@,
            quit: self.should_quit,
        }
    }
}

impl TuiApp {
    pub closed spec fn wf(&self) -> bool {
        &&& self.progress.wf()
        &&& self.progress.names().len() == self.progress.states().len()
    }

    /// A dashboard over the steps of a basic installation, the run it shows by
    /// default.
    pub fn new() -> (r: Self)
        ensures
            r.wf(),
            r@.states == Seq::new(10, |i: int| StepState::Pending),
            r@.names == basic_kinds().map_values(|k: StepKind| k.spec_name()),
            r@.current == 0,
            r@.status == "Starting installation..."@,
            !r@.quit,
    {
        let progress = StepRegistry::basic_installation().progress_model();
        TuiApp { progress, status_message: "Starting installation...".to_owned(), should_quit: false }
    }

    /// A dashboard over the given model.
    pub fn with_progress(progress: InstallProgress) -> (r: Self)
        requires
            progress.wf(),
            progress.names().len() == progress.states().len(),
        ensures
            r.wf(),
            r@.states == progress.states(),
            r@.names == progress.names(),
            r@.current == progress.spec_current_step(),
            r@.status == "Starting installation..."@,
            !r@.quit,
    {
        TuiApp { progress, status_message: "Starting installation...".to_owned(), should_quit: false }
    }

    pub fn progress(&self) -> (r: &InstallProgress)
        ensures
            r.states() == self@.states,
            r.names() == self@.names,
            r.spec_current_step() == self@.current,
    {
        &self.progress
    }

    pub fn status_message(&self) -> (r: &str)
        ensures
            r@ == self@.status,
    {
        self.status_message.as_str()
    }

    pub fn should_quit(&self) -> (r: bool)
        ensures
            r == self@.quit,
    {
        self.should_quit
    }

    fn label(prefix: &str, name: &String) -> (r: String)
        ensures
            r@ == prefix@ + name@,
    {
        let mut r = prefix.to_owned();
        r.append(name.as_str());
        r
    }

    fn raw_label(prefix: &str, index: usize) -> (r: String)
        ensures
            r@ == prefix@ + decimal(index as nat),
    {
        let mut r = prefix.to_owned();
        r.append(decimal_text(index as u64).as_str());
        r
    }

    /// Applies one progress message to the dashboard.
    pub fn handle_message(&mut self, message: TuiMessage)
        requires
            old(self).wf(),
        ensures
            final(self).wf(),
            final(self)@ == observe(old(self)@, message),
    {
        match message {
            TuiMessage::StartStep(step) => {
                if step < self.progress.total_steps() {
                    self.progress.start_step(step);
                    let label = match self.progress.step(step) {
                        Some(s) => TuiApp::label("Starting: ", &s.name),
                        None => String::new(),
                    };
                    self.status_message = label;
                } else {
                    self.status_message = TuiApp::raw_label("Starting step ", step);
                }
            },
            TuiMessage::CompleteStep(step) => {
                if step < self.progress.total_steps() {
                    self.progress.complete_step(step);
                    let label = match self.progress.step(step) {
                        Some(s) => TuiApp::label("Completed: ", &s.name),
                        None => String::new(),
                    };
                    self.status_message = label;
                } else {
                    self.status_message = TuiApp::raw_label("Completed step ", step);
                }
            },
            TuiMessage::FailStep(step) => {
                if step < self.progress.total_steps() {
                    self.progress.fail_step(step);
                    let label = match self.progress.step(step) {
                        Some(s) => TuiApp::label("Failed: ", &s.name),
                        None => String::new(),
                    };
                    self.status_message = label;
                } else {
                    self.status_message = TuiApp::raw_label("Failed step ", step);
                }
            },
            TuiMessage::UpdateStatus(status) => {
                self.status_message = status;
            },
            TuiMessage::Exit => {
                self.should_quit = true;
            },
        }
    }

    /// One turn of the dashboard loop: applies the message drained from the
    /// channel, if any, then decides whether to keep going. A quit key or an
    /// `Exit` message ends the loop.
    pub fn tick(&mut self, message: Option<TuiMessage>, input: Option<UserInput>) -> (keep_running:
        bool)
        requires
            old(self).wf(),
        ensures
            final(self).wf(),
            final(self)@ == match message {
                Some(m) => observe(old(self)@, m),
                None => old(self)@,
            },
            keep_running == !((input matches Some(k) && is_quit(k)) || final(self)@.quit),
    {
        match message {
            Some(m) => self.handle_message(m),
            None => {},
        }
        let quit_key = match input {
            Some(k) => is_quit_input(k),
            None => false,
        };
        !(quit_key || self.should_quit)
    }
}


/// `StartStep(i)` then `CompleteStep(i)` for each `i` below `n`, in order.
pub open spec fn start_complete_pairs(n: nat) -> Seq<TuiMessage> {
    Seq::new(
        2 * n,
        |j: int|
            if j % 2 == 0 {
                TuiMessage::StartStep((j / 2) as usize)
            } else {
                TuiMessage::CompleteStep((j / 2) as usize)
            },
    )
}

proof fn lemma_pairs_prefix(s: ObserverState, j: nat)
    requires
        s.names.len() == s.states.len(),
        s.states.len() <= usize::MAX,
        j <= s.states.len(),
    ensures
        observe_all(s, start_complete_pairs(j)).states == Seq::new(
            s.states.len(),
            |i: int|
                if i < j {
                    StepState::Completed
                } else {
                    s.states[i]
                },
        ),
        observe_all(s, start_complete_pairs(j)).names == s.names,
        observe_all(s, start_complete_pairs(j)).quit == s.quit,
    decreases j,
{
    if j == 0 {
        assert(start_complete_pairs(0) =~= Seq::<TuiMessage>::empty());
        assert(observe_all(s, start_complete_pairs(0)).states =~= Seq::new(
            s.states.len(),
            |i: int|
                if i < 0 {
                    StepState::Completed
                } else {
                    s.states[i]
                },
        ));
    } else {
        let k = (j - 1) as nat;
        lemma_pairs_prefix(s, k);
        let p = start_complete_pairs(j);
        assert(p.drop_last().drop_last() =~= start_complete_pairs(k));
        assert(p.drop_last().last() == TuiMessage::StartStep(k as usize));
        assert(p.last() == TuiMessage::CompleteStep(k as usize));
        let before = observe_all(s, start_complete_pairs(k));
        let mid = observe(before, TuiMessage::StartStep(k as usize));
        assert(observe_all(s, p.drop_last()) == mid);
        assert(observe_all(s, p) == observe(mid, TuiMessage::CompleteStep(k as usize)));
        assert(observe_all(s, p).states =~= Seq::new(
            s.states.len(),
            |i: int|
                if i < j {
                    StepState::Completed
                } else {
                    s.states[i]
                },
        ));
    }
}

/// An observer whose model lists the `n` steps of a run, receiving
/// `StartStep(i)`, `CompleteStep(i)` for every step in order and then `Exit`,
/// ends with every step completed, an aggregate of 100 percent, and its loop
/// told to stop, with no quit key needed.
pub proof fn lemma_full_run_observed(s: ObserverState)
    requires
        s.names.len() == s.states.len(),
        s.states.len() <= usize::MAX,
    ensures
        observe_all(s, start_complete_pairs(s.states.len()).push(TuiMessage::Exit)).states
            == Seq::new(s.states.len(), |i: int| StepState::Completed),
        s.states.len() > 0 ==> percent_of(
            observe_all(s, start_complete_pairs(s.states.len()).push(TuiMessage::Exit)).states,
        ) == 100,
        observe_all(s, start_complete_pairs(s.states.len()).push(TuiMessage::Exit)).quit,
{
    let n = s.states.len();
    lemma_pairs_prefix(s, n);
    let msgs = start_complete_pairs(n).push(TuiMessage::Exit);
    assert(msgs.drop_last() =~= start_complete_pairs(n));
    assert(observe_all(s, msgs).states =~= Seq::new(n, |i: int| StepState::Completed));
    if n > 0 {
        lemma_all_completed_is_full(n);
    }
}


/// Observing `a` then `b` is observing `a + b`.
pub proof fn lemma_observe_all_append(s: ObserverState, a: Seq<TuiMessage>, b: Seq<TuiMessage>)
    ensures
        observe_all(s, a + b) == observe_all(observe_all(s, a), b),
    decreases b.len(),
{
    if b.len() == 0 {
        assert(a + b =~= a);
    } else {
        assert((a + b).drop_last() =~= a + b.drop_last());
        assert((a + b).last() == b.last());
        lemma_observe_all_append(s, a, b.drop_last());
    }
}

/// Messages handled one at a time, in the order they were sent, leave the
/// observer where the whole sequence does: `states[i + 1]` is the state after
/// handling `msgs[i]` in `states[i]`, as one `tick` per drained message gives.
pub proof fn lemma_messages_applied_in_order(states: Seq<ObserverState>, msgs: Seq<TuiMessage>)
    requires
        states.len() == msgs.len() + 1,
        forall|i: int| 0 <= i < msgs.len() ==> states[i + 1] == observe(#[trigger] states[i], msgs[i]),
    ensures
        states.last() == observe_all(states[0], msgs),
    decreases msgs.len(),
{
    if msgs.len() > 0 {
        let n = msgs.len() as int;
        let s2 = states.drop_last();
        let m2 = msgs.drop_last();
        assert forall|i: int| 0 <= i < m2.len() implies s2[i + 1] == observe(#[trigger] s2[i], m2[i]) by {
            assert(states[i + 1] == observe(states[i], msgs[i]));
        }
        lemma_messages_applied_in_order(s2, m2);
        assert(states[n] == observe(states[n - 1], msgs[n - 1]));
    }
}

} // verus!
