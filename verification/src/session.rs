//! The installation session engine.
//!
//! One session supervises one run of the external worker process.  The
//! process I/O itself — spawning, writing the serialized configuration,
//! reading lines — happens on a background execution context outside
//! this crate; the engine here is the state machine that interprets
//! each event and says which actions the presentation layer must
//! perform, in the order the lines were read.

use vstd::prelude::*;

use crate::msg::{parse_line, parse_line_spec, MessageModel, UiMessage};

verus! {

/// Seconds between a successful finish with the auto-reboot flag set
/// and the scheduled shutdown of the presentation layer.
pub const REBOOT_DELAY_SECS: u64 = 5;

/// The lifecycle of one session.
#[derive(Debug, Clone, Copy, PartialEq, Eq, Structural)]
pub enum SessionState {
    NotStarted,
    Starting,
    Running,
    Succeeded,
    Failed,
    Aborted,
}

/// One action the presentation layer must perform, delivered through an
/// ordered queue to the single presentation thread.
#[derive(Debug, Clone, PartialEq)]
pub enum UiAction {
    /// A non-blocking informational modal.
    ShowInfo(String),
    /// A non-blocking error modal.
    ShowError(String),
    /// A blocking yes/no modal whose answer is written back to the
    /// worker (see [`crate::msg::prompt_reply`]).
    ShowPrompt(String),
    /// Update the progress bar and the status text.
    SetProgress(usize, String),
    /// The terminal modal with the worker's own verdict text and a
    /// single acknowledgement button.
    ShowFinished(bool, String),
    /// A blocking modal offering only to quit: a process error or an
    /// early termination, fatal to the session.
    FatalError(String),
    /// Shut the presentation layer down after this many seconds, unless
    /// the application exits first.
    ScheduleShutdown(u64),
}

/// The mathematical model of a [`UiAction`]: payloads as character
/// sequences, numbers unbounded.
pub enum ActionModel {
    ShowInfo { text: Seq<char> },
    ShowError { text: Seq<char> },
    ShowPrompt { text: Seq<char> },
    SetProgress { percent: int, text: Seq<char> },
    ShowFinished { success: bool, text: Seq<char> },
    FatalError { text: Seq<char> },
    ScheduleShutdown { delay_secs: int },
}

impl View for UiAction {
    type V = ActionModel;

    open spec fn view(&self) -> ActionModel {
        match self {
            UiAction::ShowInfo(t) => ActionModel::ShowInfo { text: t@ },
            UiAction::ShowError(t) => ActionModel::ShowError { text: t@ },
            UiAction::ShowPrompt(t) => ActionModel::ShowPrompt { text: t@ },
            UiAction::SetProgress(p, t) => ActionModel::SetProgress {
                percent: *p as int,
                text: t@,
            },
            UiAction::ShowFinished(s, t) => ActionModel::ShowFinished { success: *s, text: t@ },
            UiAction::FatalError(t) => ActionModel::FatalError { text: t@ },
            UiAction::ScheduleShutdown(d) => ActionModel::ScheduleShutdown {
                delay_secs: *d as int,
            },
        }
    }
}

/// The models of a queue of actions, in order.
pub open spec fn action_models(s: Seq<UiAction>) -> Seq<ActionModel> {
    Seq::new(s.len(), |i: int| s[i]@)
}

proof fn lemma_action_models_concat(a: Seq<UiAction>, b: Seq<UiAction>)
    ensures
        action_models(a + b) == action_models(a) + action_models(b),
{
    assert(action_models(a + b) =~= action_models(a) + action_models(b));
}

/// The actions one worker line gives rise to, exactly as the codec's
/// interpretation table fixes them: one typed event per line, a skipped
/// line contributing nothing, and a successful verdict followed by the
/// scheduled shutdown when the auto-reboot flag is set.
pub open spec fn line_actions(autoreboot: bool, l: Seq<char>) -> Seq<ActionModel> {
    match parse_line_spec(l) {
        Err(_) => Seq::<ActionModel>::empty(),
        Ok(m) => match m {
            MessageModel::Info { text } => seq![ActionModel::ShowInfo { text }],
            MessageModel::Error { text } => seq![ActionModel::ShowError { text }],
            MessageModel::Prompt { text } => seq![ActionModel::ShowPrompt { text }],
            MessageModel::Progress { percent, text } => seq![
                ActionModel::SetProgress { percent, text },
            ],
            MessageModel::Finished { success, text } => if success && autoreboot {
                seq![
                    ActionModel::ShowFinished { success, text },
                    ActionModel::ScheduleShutdown { delay_secs: REBOOT_DELAY_SECS as int },
                ]
            } else {
                seq![ActionModel::ShowFinished { success, text }]
            },
        },
    }
}

/// All the actions of a complete stream: the concatenation, in line
/// order, of every line's actions.
pub open spec fn stream_actions(autoreboot: bool, lines: Seq<Seq<char>>) -> Seq<ActionModel>
    decreases lines.len(),
{
    if lines.len() == 0 {
        Seq::<ActionModel>::empty()
    } else {
        stream_actions(autoreboot, lines.drop_last()) + line_actions(autoreboot, lines.last())
    }
}

/// What the stream's close adds: nothing after a verdict, the single
/// early-termination report otherwise.
pub open spec fn close_actions(finished_seen: bool) -> Seq<ActionModel> {
    if finished_seen {
        Seq::<ActionModel>::empty()
    } else {
        seq![ActionModel::FatalError { text: "low-level installer exited early"@ }]
    }
}

/// The progress value after a stream: the last reported percentage,
/// 100 after any verdict, the starting value if nothing reported.
pub open spec fn stream_progress(start: int, lines: Seq<Seq<char>>) -> int
    decreases lines.len(),
{
    if lines.len() == 0 {
        start
    } else {
        match parse_line_spec(lines.last()) {
            Ok(m) => match m {
                MessageModel::Progress { percent, .. } => percent,
                MessageModel::Finished { .. } => 100,
                _ => stream_progress(start, lines.drop_last()),
            },
            Err(_) => stream_progress(start, lines.drop_last()),
        }
    }
}

/// The session state after a stream: decided by the last verdict.
pub open spec fn stream_state(start: SessionState, lines: Seq<Seq<char>>) -> SessionState
    decreases lines.len(),
{
    if lines.len() == 0 {
        start
    } else {
        match parse_line_spec(lines.last()) {
            Ok(m) => match m {
                MessageModel::Finished { success, .. } => if success {
                    SessionState::Succeeded
                } else {
                    SessionState::Failed
                },
                _ => stream_state(start, lines.drop_last()),
            },
            Err(_) => stream_state(start, lines.drop_last()),
        }
    }
}

/// A line that carries the worker's terminal verdict.
pub open spec fn line_is_finished(l: Seq<char>) -> bool {
    parse_line_spec(l) matches Ok(MessageModel::Finished { .. })
}

/// Some line of the stream carries the worker's terminal verdict.
pub open spec fn stream_finishes(lines: Seq<Seq<char>>) -> bool {
    exists|i: int| 0 <= i < lines.len() && line_is_finished(lines[i])
}

proof fn lemma_stream_finishes_push(s: Seq<Seq<char>>, l: Seq<char>)
    ensures
        stream_finishes(s.push(l)) <==> (stream_finishes(s) || line_is_finished(l)),
{
    if stream_finishes(s) {
        let i = choose|i: int| 0 <= i < s.len() && line_is_finished(s[i]);
        assert(s.push(l)[i] == s[i]);
    }
    if line_is_finished(l) {
        assert(s.push(l)[s.len() as int] == l);
        assert(stream_finishes(s.push(l)));
    }
    if stream_finishes(s.push(l)) && !line_is_finished(l) {
        let i = choose|i: int| 0 <= i < s.push(l).len() && line_is_finished(s.push(l)[i]);
        assert(i < s.len() && s[i] == s.push(l)[i]);
    }
}

/// The session engine: the state of one supervised worker run.  The
/// progress value stays within `[0, 100]`.
pub struct SessionEngine {
    pub state: SessionState,
    pub progress: usize,
    pub finished_seen: bool,
    pub autoreboot: bool,
}

impl SessionEngine {
    /// A fresh session for a configuration that did or did not request
    /// the automatic reboot.
    pub fn new(autoreboot: bool) -> (r: SessionEngine)
        ensures
            r == (SessionEngine {
                state: SessionState::NotStarted,
                progress: 0,
                finished_seen: false,
                autoreboot,
            }),
    {
        SessionEngine {
            state: SessionState::NotStarted,
            progress: 0,
            finished_seen: false,
            autoreboot,
        }
    }

    /// The worker is about to be spawned.
    pub fn start(&mut self)
        requires
            old(self).state is NotStarted,
        ensures
            *final(self) == (SessionEngine { state: SessionState::Starting, ..*old(self) }),
    {
        self.state = SessionState::Starting;
    }

    /// The spawn failed: the session is over before it ran, and the
    /// spawn error is surfaced as a blocking modal offering only to
    /// quit.
    pub fn on_spawn_failure(&mut self, err: String) -> (a: UiAction)
        requires
            old(self).state is Starting,
        ensures
            *final(self) == (SessionEngine { state: SessionState::Failed, ..*old(self) }),
            a == UiAction::FatalError(err),
    {
        self.state = SessionState::Failed;
        UiAction::FatalError(err)
    }

    /// Both of the worker's streams are available: the session runs.
    /// The caller must now write the serialized configuration to the
    /// worker before reading any output.
    pub fn on_streams_ready(&mut self)
        requires
            old(self).state is Starting,
        ensures
            *final(self) == (SessionEngine { state: SessionState::Running, ..*old(self) }),
    {
        self.state = SessionState::Running;
    }

    /// One of the worker's streams could not be obtained: the worker is
    /// gone before the protocol began.
    pub fn on_streams_missing(&mut self) -> (a: UiAction)
        requires
            old(self).state is Starting,
        ensures
            *final(self) == (SessionEngine { state: SessionState::Failed, ..*old(self) }),
            a matches UiAction::FatalError(t) && t@ == "low-level installer exited early"@,
    {
        self.state = SessionState::Failed;
        UiAction::FatalError("low-level installer exited early".to_owned())
    }

    /// Explicit user cancellation, reachable any time before a terminal
    /// state; it only marks the session, tearing the presentation down
    /// is the caller's move.
    pub fn abort(&mut self)
        requires
            old(self).state is NotStarted || old(self).state is Starting || old(self).state is Running,
        ensures
            *final(self) == (SessionEngine { state: SessionState::Aborted, ..*old(self) }),
    {
        self.state = SessionState::Aborted;
    }

    /// Interprets one line of the worker's output: one line, one typed
    /// event, exactly as the codec's table says.  A line that parses as
    /// no message is diagnosed and skipped — it never aborts the
    /// session.  A `finished` line sets the progress to 100, records
    /// the verdict, and — exactly when the verdict is success and the
    /// auto-reboot flag is set — schedules the delayed shutdown.
    pub fn handle_line(&mut self, line: &str) -> (acts: Vec<UiAction>)
        requires
            old(self).state is Running || old(self).state is Succeeded || old(self).state is Failed,
            old(self).progress <= 100,
        ensures
            final(self).autoreboot == old(self).autoreboot,
            final(self).progress <= 100,
            final(self).state is Running || final(self).state is Succeeded || final(self).state is Failed,
            final(self).finished_seen == (old(self).finished_seen || line_is_finished(line@)),
            // a single line is never fatal to the session
            forall|k: int| 0 <= k < acts@.len() ==> !((#[trigger] acts@[k]) is FatalError),
            // the returned actions are exactly what the interpretation
            // table fixes for this line, in order
            action_models(acts@) == line_actions(old(self).autoreboot, line@),
            // the state effects per message
            match parse_line_spec(line@) {
                Err(_) => *final(self) == *old(self),
                Ok(m) => match m {
                    MessageModel::Info { .. } => *final(self) == *old(self),
                    MessageModel::Error { .. } => *final(self) == *old(self),
                    MessageModel::Prompt { .. } => *final(self) == *old(self),
                    MessageModel::Progress { percent, .. } => 0 <= percent <= 100 && *final(self)
                        == (SessionEngine { progress: percent as usize, ..*old(self) }),
                    MessageModel::Finished { success, .. } => *final(self) == (SessionEngine {
                        state: if success {
                            SessionState::Succeeded
                        } else {
                            SessionState::Failed
                        },
                        progress: 100,
                        finished_seen: true,
                        ..*old(self)
                    }),
                },
            },
            // the shutdown action is emitted exactly on a successful
            // verdict with the auto-reboot flag set, and always with the
            // configured delay
            (exists|k: int| 0 <= k < acts@.len() && (#[trigger] acts@[k]) is ScheduleShutdown)
                <==> (old(self).autoreboot && parse_line_spec(line@) matches Ok(
                MessageModel::Finished { success: true, .. },
            )),
            forall|k: int|
                0 <= k < acts@.len() && (#[trigger] acts@[k]) is ScheduleShutdown ==> acts@[k]
                    == UiAction::ScheduleShutdown(REBOOT_DELAY_SECS) && old(self).autoreboot,
    {
        let mut acts: Vec<UiAction> = Vec::new();
        match parse_line(line) {
            Err(_diag) => {
                // Non-fatal: the caller may log the diagnostic.
            },
            Ok(m) => match m {
                UiMessage::Info(t) => {
                    acts.push(UiAction::ShowInfo(t));
                },
                UiMessage::Error(t) => {
                    acts.push(UiAction::ShowError(t));
                },
                UiMessage::Prompt(t) => {
                    acts.push(UiAction::ShowPrompt(t));
                },
                UiMessage::Progress(p, t) => {
                    self.progress = p;
                    acts.push(UiAction::SetProgress(p, t));
                },
                UiMessage::Finished(success, t) => {
                    self.progress = 100;
                    self.finished_seen = true;
                    self.state = if success {
                        SessionState::Succeeded
                    } else {
                        SessionState::Failed
                    };
                    let sched = success && self.autoreboot;
                    acts.push(UiAction::ShowFinished(success, t));
                    if sched {
                        acts.push(UiAction::ScheduleShutdown(REBOOT_DELAY_SECS));
                    }
                },
            },
        }
        proof {
            assert(action_models(acts@) =~= line_actions(old(self).autoreboot, line@));
        }
        acts
    }

    /// The worker's output stream has closed.  If no terminal verdict
    /// was observed, the session ends in the generic early-termination
    /// failure — reported here and nowhere else; after a verdict the
    /// close is the expected end of the protocol and nothing happens.
    pub fn handle_eof(&mut self) -> (acts: Vec<UiAction>)
        requires
            old(self).state is Running || old(self).state is Succeeded || old(self).state is Failed,
        ensures
            final(self).autoreboot == old(self).autoreboot,
            final(self).progress == old(self).progress,
            final(self).finished_seen == old(self).finished_seen,
            action_models(acts@) == close_actions(old(self).finished_seen),
            old(self).finished_seen ==> acts@.len() == 0 && *final(self) == *old(self),
            !old(self).finished_seen ==> {
                &&& acts@.len() == 1
                &&& (acts@[0] matches UiAction::FatalError(t) && t@
                    == "low-level installer exited early"@)
                &&& final(self).state is Failed
            },
    {
        let mut acts: Vec<UiAction> = Vec::new();
        if !self.finished_seen {
            self.state = SessionState::Failed;
            acts.push(UiAction::FatalError("low-level installer exited early".to_owned()));
        }
        proof {
            assert(action_models(acts@) =~= close_actions(old(self).finished_seen));
        }
        acts
    }

    /// Interprets a worker's complete output stream, line by line and
    /// in order, and then its close.
    ///
    /// If the stream ends with no `finished` verdict having been
    /// observed, the early-termination failure is reported exactly
    /// once: it is the last action, and no other action of the whole
    /// run is fatal.  If some line carried the verdict, no fatal report
    /// is emitted at all.
    pub fn run_to_end(&mut self, lines: &Vec<String>) -> (acts: Vec<UiAction>)
        requires
            old(self).state is Running,
            !old(self).finished_seen,
            old(self).progress <= 100,
        ensures
            final(self).autoreboot == old(self).autoreboot,
            final(self).finished_seen == stream_finishes(lines.deep_view()),
            // the returned actions are exactly the concatenation, in
            // line order, of every line's actions as the interpretation
            // table fixes them, followed by what the stream's close adds
            action_models(acts@) == stream_actions(old(self).autoreboot, lines.deep_view())
                + close_actions(stream_finishes(lines.deep_view())),
            // the progress bar ends on the last reported value, 100
            // after any verdict
            final(self).progress == stream_progress(old(self).progress as int, lines.deep_view()),
            // the last verdict decides the terminal state
            stream_finishes(lines.deep_view()) ==> final(self).state == stream_state(
                old(self).state,
                lines.deep_view(),
            ),
            // a shutdown is only ever scheduled with the auto-reboot
            // flag set, and always with the configured delay
            forall|k: int|
                0 <= k < acts@.len() && (#[trigger] acts@[k]) is ScheduleShutdown ==> acts@[k]
                    == UiAction::ScheduleShutdown(REBOOT_DELAY_SECS) && old(self).autoreboot,
            stream_finishes(lines.deep_view()) ==> forall|k: int|
                0 <= k < acts@.len() ==> !((#[trigger] acts@[k]) is FatalError),
            !stream_finishes(lines.deep_view()) ==> {
                &&& acts@.len() > 0
                &&& acts@.last() matches UiAction::FatalError(t) && t@
                    == "low-level installer exited early"@
                &&& (forall|k: int|
                    0 <= k < acts@.len() - 1 ==> !((#[trigger] acts@[k]) is FatalError))
                &&& final(self).state is Failed
            },
    {
        let ghost ls = lines.deep_view();
        let mut acts: Vec<UiAction> = Vec::new();
        proof {
            assert(action_models(acts@) =~= stream_actions(
                old(self).autoreboot,
                ls.subrange(0, 0),
            ));
        }
        let n = lines.len();
        let mut i: usize = 0;
        while i < n
            invariant
                n == lines@.len(),
                ls == lines.deep_view(),
                i <= n,
                self.state is Running || self.state is Succeeded || self.state is Failed,
                self.progress <= 100,
                self.autoreboot == old(self).autoreboot,
                self.finished_seen == stream_finishes(ls.subrange(0, i as int)),
                action_models(acts@) == stream_actions(
                    old(self).autoreboot,
                    ls.subrange(0, i as int),
                ),
                self.progress == stream_progress(old(self).progress as int, ls.subrange(0, i as int)),
                self.state == stream_state(old(self).state, ls.subrange(0, i as int)),
                forall|k: int| 0 <= k < acts@.len() ==> !((#[trigger] acts@[k]) is FatalError),
                forall|k: int|
                    0 <= k < acts@.len() && (#[trigger] acts@[k]) is ScheduleShutdown ==> acts@[k]
                        == UiAction::ScheduleShutdown(REBOOT_DELAY_SECS) && old(self).autoreboot,
            decreases n - i,
        {
            let line = &lines[i];
            proof {
                assert(line@ == ls[i as int]);
            }
            let ghost acts_before = acts@;
            let mut more = self.handle_line(line.as_str());
            let ghost more_view = more@;
            acts.append(&mut more);
            proof {
                let prefix = ls.subrange(0, i as int);
                let prefix1 = ls.subrange(0, (i + 1) as int);
                assert(prefix1 =~= prefix.push(ls[i as int]));
                assert(prefix1.drop_last() =~= prefix);
                lemma_stream_finishes_push(prefix, ls[i as int]);
                lemma_action_models_concat(acts_before, more_view);
            }
            i += 1;
        }
        proof {
            assert(ls.subrange(0, n as int) =~= ls);
        }
        let ghost acts_main = acts@;
        let mut tail = self.handle_eof();
        let ghost tail_view = tail@;
        acts.append(&mut tail);
        proof {
            lemma_action_models_concat(acts_main, tail_view);
        }
        acts
    }
}

/// Whether the abort dialog must ask for confirmation first: immediate
/// in the development/test configuration, confirmation-gated in
/// production.
pub fn abort_needs_confirmation(in_test_mode: bool) -> (r: bool)
    ensures
        r == !in_test_mode,
{
    !in_test_mode
}

} // verus!
