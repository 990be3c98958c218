//! The decisions of one apply request: which processes and windows are tried,
//! in which order, when the request is retried and how it ends. The caller
//! performs each action and reports its outcome back.
use crate::window_manager::{ApplyConfig, WindowManagerError};
use vstd::prelude::*;

verus! {

/// Seconds to wait before a new attempt of an apply run.
pub const RETRY_DELAY_SECS: u64 = 5;

/// Number of attempts after the first one.
pub const MAX_RETRIES: u8 = 2;

/// What the caller of an apply run has to do next.
#[derive(Debug, Clone, Copy, PartialEq, Eq)]
pub enum ApplyAction {
    /// Look up the running processes whose name matches the profile.
    ResolvePids,
    /// Look for a visible window of `pid` and move it (one enumeration pass).
    TryPid { pid: u32, monitor: bool },
    /// Look for a visible window whose title contains the profile's name.
    FindPidByTitle,
    /// Sleep for `seconds`, then report `Waited`.
    Wait { seconds: u64 },
    /// The run is over with `result`; when `list_windows` holds, the visible
    /// windows are listed in the log first.
    Finish { result: Result<(), WindowManagerError>, list_windows: bool },
}

/// What the caller reports back after performing an action.
pub enum ApplyEvent {
    /// The process identifiers that match the profile, in lookup order.
    PidsResolved(Vec<u32>),
    /// `Ok` when a window of the pid was moved; `Err(Some(e))` when a window was
    /// found but could not be moved; `Err(None)` when the pid has no window.
    PidTried(Result<(), Option<WindowManagerError>>),
    /// The owner of a window titled like the profile, if any.
    TitleSearched(Option<u32>),
    /// The wait is over.
    Waited,
}

/// Where an apply run stands.
#[derive(Debug, Clone, Copy, PartialEq, Eq, Structural)]
pub enum ApplyStage {
    Resolving,
    TryingCandidate,
    SearchingTitle,
    TryingTitleMatch,
    Waiting,
    Finished,
}

/// An apply run: the state between the actions it asks for.
pub struct ApplyRun {
    pub config: ApplyConfig,
    pub candidates: Vec<u32>,
    pub next: usize,
    pub stage: ApplyStage,
    pub pending: ApplyAction,
}

/// The mathematical state of an apply run.
pub struct ApplyRunView {
    pub config: ApplyConfig,
    pub candidates: Seq<u32>,
    pub next: int,
    pub stage: ApplyStage,
    pub pending: ApplyAction,
}

impl View for ApplyRun {
    type V = ApplyRunView;

    open spec fn view(&self) -> ApplyRunView {
        ApplyRunView {
            config: self.config,
            candidates: self.candidates@,
            next: self.next as int,
            stage: self.stage,
            pending: self.pending,
        }
    }
}

pub open spec fn run_at(
    config: ApplyConfig,
    candidates: Seq<u32>,
    next: int,
    stage: ApplyStage,
    pending: ApplyAction,
) -> (ApplyRunView, ApplyAction) {
    (ApplyRunView { config, candidates, next, stage, pending }, pending)
}

/// The run ends with `result`.
pub open spec fn finish_spec(
    config: ApplyConfig,
    candidates: Seq<u32>,
    next: int,
    result: Result<(), WindowManagerError>,
    list_windows: bool,
) -> (ApplyRunView, ApplyAction) {
    run_at(
        config,
        candidates,
        next,
        ApplyStage::Finished,
        ApplyAction::Finish { result, list_windows },
    )
}

/// Every candidate and, where it applies, the title match had no window.
pub open spec fn end_of_pass_spec(config: ApplyConfig, candidates: Seq<u32>, next: int) -> (
    ApplyRunView,
    ApplyAction,
) {
    if candidates.len() == 0 {
        finish_spec(config, candidates, next, Err(WindowManagerError::ProcessNotFound), false)
    } else if config.retry && config.retries < MAX_RETRIES {
        run_at(
            config,
            candidates,
            next,
            ApplyStage::Waiting,
            ApplyAction::Wait { seconds: RETRY_DELAY_SECS },
        )
    } else {
        finish_spec(config, candidates, next, Err(WindowManagerError::ApplyFailed), true)
    }
}

/// Every candidate had no window: look by title unless the pid was given.
pub open spec fn after_candidates_spec(config: ApplyConfig, candidates: Seq<u32>, next: int) -> (
    ApplyRunView,
    ApplyAction,
) {
    if config.pid is None {
        run_at(config, candidates, next, ApplyStage::SearchingTitle, ApplyAction::FindPidByTitle)
    } else {
        end_of_pass_spec(config, candidates, next)
    }
}

/// The candidates of a pass are known.
pub open spec fn enter_candidates_spec(config: ApplyConfig, candidates: Seq<u32>) -> (
    ApplyRunView,
    ApplyAction,
) {
    if candidates.len() > 0 {
        run_at(
            config,
            candidates,
            0,
            ApplyStage::TryingCandidate,
            ApplyAction::TryPid { pid: candidates[0], monitor: config.monitor },
        )
    } else {
        after_candidates_spec(config, candidates, 0)
    }
}

/// A pass begins: a given pid is the only candidate; otherwise processes are
/// looked up.
pub open spec fn begin_spec(config: ApplyConfig) -> (ApplyRunView, ApplyAction) {
    match config.pid {
        Some(p) => enter_candidates_spec(config, seq![p]),
        None => run_at(config, Seq::empty(), 0, ApplyStage::Resolving, ApplyAction::ResolvePids),
    }
}

/// The configuration of the next attempt.
pub open spec fn retry_config(config: ApplyConfig) -> ApplyConfig {
    ApplyConfig {
        pid: config.pid,
        retry: true,
        retries: if config.retries < MAX_RETRIES { (config.retries + 1) as u8 } else { config.retries },
        monitor: config.monitor,
    }
}

/// `event` is the report that the run's stage waits for.
pub open spec fn accepts(r: ApplyRunView, event: ApplyEvent) -> bool {
    match (r.stage, event) {
        (ApplyStage::Resolving, ApplyEvent::PidsResolved(_)) => true,
        (ApplyStage::TryingCandidate, ApplyEvent::PidTried(_)) => true,
        (ApplyStage::SearchingTitle, ApplyEvent::TitleSearched(_)) => true,
        (ApplyStage::TryingTitleMatch, ApplyEvent::PidTried(_)) => true,
        (ApplyStage::Waiting, ApplyEvent::Waited) => true,
        _ => false,
    }
}

/// The next state and action of an apply run after `event`. An event that the
/// stage does not wait for changes nothing and repeats the pending action.
pub open spec fn step_spec(r: ApplyRunView, event: ApplyEvent) -> (ApplyRunView, ApplyAction) {
    match (r.stage, event) {
        (ApplyStage::Resolving, ApplyEvent::PidsResolved(v)) => enter_candidates_spec(r.config, v@),
        (ApplyStage::TryingCandidate, ApplyEvent::PidTried(o)) => match o {
            Ok(()) => finish_spec(r.config, r.candidates, r.next, Ok(()), false),
            Err(Some(e)) => finish_spec(r.config, r.candidates, r.next, Err(e), false),
            Err(None) => if r.next + 1 < r.candidates.len() {
                run_at(
                    r.config,
                    r.candidates,
                    r.next + 1,
                    ApplyStage::TryingCandidate,
                    ApplyAction::TryPid { pid: r.candidates[r.next + 1], monitor: r.config.monitor },
                )
            } else {
                after_candidates_spec(r.config, r.candidates, r.next)
            },
        },
        (ApplyStage::SearchingTitle, ApplyEvent::TitleSearched(found)) => match found {
            Some(pid) => run_at(
                r.config,
                r.candidates,
                r.next,
                ApplyStage::TryingTitleMatch,
                ApplyAction::TryPid { pid, monitor: r.config.monitor },
            ),
            None => end_of_pass_spec(r.config, r.candidates, r.next),
        },
        (ApplyStage::TryingTitleMatch, ApplyEvent::PidTried(o)) => match o {
            Ok(()) => finish_spec(r.config, r.candidates, r.next, Ok(()), false),
            Err(Some(e)) => finish_spec(r.config, r.candidates, r.next, Err(e), false),
            Err(None) => end_of_pass_spec(r.config, r.candidates, r.next),
        },
        (ApplyStage::Waiting, ApplyEvent::Waited) => begin_spec(retry_config(r.config)),
        _ => (r, r.pending),
    }
}

impl ApplyRun {
    fn at(config: ApplyConfig, candidates: Vec<u32>, next: usize, stage: ApplyStage, pending: ApplyAction) -> (r: (ApplyRun, ApplyAction))
        ensures
            (r.0@, r.1) == run_at(config, candidates@, next as int, stage, pending),
    {
        (ApplyRun { config, candidates, next, stage, pending }, pending)
    }

    fn finish(config: ApplyConfig, candidates: Vec<u32>, next: usize, result: Result<(), WindowManagerError>, list_windows: bool) -> (r: (ApplyRun, ApplyAction))
        ensures
            (r.0@, r.1) == finish_spec(config, candidates@, next as int, result, list_windows),
    {
        Self::at(config, candidates, next, ApplyStage::Finished, ApplyAction::Finish { result, list_windows })
    }

    fn end_of_pass(config: ApplyConfig, candidates: Vec<u32>, next: usize) -> (r: (ApplyRun, ApplyAction))
        ensures
            (r.0@, r.1) == end_of_pass_spec(config, candidates@, next as int),
    {
        if candidates.len() == 0 {
            Self::finish(config, candidates, next, Err(WindowManagerError::ProcessNotFound), false)
        } else if config.retry && config.retries < MAX_RETRIES {
            Self::at(config, candidates, next, ApplyStage::Waiting, ApplyAction::Wait { seconds: RETRY_DELAY_SECS })
        } else {
            Self::finish(config, candidates, next, Err(WindowManagerError::ApplyFailed), true)
        }
    }

    fn after_candidates(config: ApplyConfig, candidates: Vec<u32>, next: usize) -> (r: (ApplyRun, ApplyAction))
        ensures
            (r.0@, r.1) == after_candidates_spec(config, candidates@, next as int),
    {
        if config.pid.is_none() {
            Self::at(config, candidates, next, ApplyStage::SearchingTitle, ApplyAction::FindPidByTitle)
        } else {
            Self::end_of_pass(config, candidates, next)
        }
    }

    fn enter_candidates(config: ApplyConfig, candidates: Vec<u32>) -> (r: (ApplyRun, ApplyAction))
        ensures
            (r.0@, r.1) == enter_candidates_spec(config, candidates@),
    {
        if candidates.len() > 0 {
            let first = candidates[0];
            Self::at(config, candidates, 0, ApplyStage::TryingCandidate, ApplyAction::TryPid { pid: first, monitor: config.monitor })
        } else {
            Self::after_candidates(config, candidates, 0)
        }
    }

    /// Starts an apply run with `config` and returns the first action.
    pub fn start(config: ApplyConfig) -> (r: (ApplyRun, ApplyAction))
        ensures
            (r.0@, r.1) == begin_spec(config),
    {
        match config.pid {
            Some(p) => {
                let mut v: Vec<u32> = Vec::new();
                v.push(p);
                assert(v@ =~= seq![p]);
                Self::enter_candidates(config, v)
            },
            None => {
                let v: Vec<u32> = Vec::new();
                assert(v@ =~= Seq::<u32>::empty());
                Self::at(config, v, 0, ApplyStage::Resolving, ApplyAction::ResolvePids)
            },
        }
    }

    /// Takes the report of the last action and returns the next action.
    pub fn step(&mut self, event: ApplyEvent) -> (action: ApplyAction)
        ensures
            (final(self)@, action) == step_spec(old(self)@, event),
    {
        let config = self.config;
        let next = self.next;
        let stage = self.stage;
        let pending = self.pending;
        let mut candidates: Vec<u32> = Vec::new();
        std::mem::swap(&mut candidates, &mut self.candidates);
        let (r, a) = match (stage, event) {
            (ApplyStage::Resolving, ApplyEvent::PidsResolved(v)) => Self::enter_candidates(config, v),
            (ApplyStage::TryingCandidate, ApplyEvent::PidTried(o)) => match o {
                Ok(()) => Self::finish(config, candidates, next, Ok(()), false),
                Err(Some(e)) => Self::finish(config, candidates, next, Err(e), false),
                Err(None) => {
                    if next < candidates.len() && next + 1 < candidates.len() {
                        let pid = candidates[next + 1];
                        Self::at(config, candidates, next + 1, ApplyStage::TryingCandidate, ApplyAction::TryPid { pid, monitor: config.monitor })
                    } else {
                        Self::after_candidates(config, candidates, next)
                    }
                },
            },
            (ApplyStage::SearchingTitle, ApplyEvent::TitleSearched(found)) => match found {
                Some(pid) => Self::at(config, candidates, next, ApplyStage::TryingTitleMatch, ApplyAction::TryPid { pid, monitor: config.monitor }),
                None => Self::end_of_pass(config, candidates, next),
            },
            (ApplyStage::TryingTitleMatch, ApplyEvent::PidTried(o)) => match o {
                Ok(()) => Self::finish(config, candidates, next, Ok(()), false),
                Err(Some(e)) => Self::finish(config, candidates, next, Err(e), false),
                Err(None) => Self::end_of_pass(config, candidates, next),
            },
            (ApplyStage::Waiting, ApplyEvent::Waited) => {
                let retries = if config.retries < MAX_RETRIES { config.retries + 1 } else { config.retries };
                Self::start(ApplyConfig { pid: config.pid, retry: true, retries, monitor: config.monitor })
            },
            _ => Self::at(config, candidates, next, stage, pending),
        };
        *self = r;
        a
    }
}


/// The internal consistency of an apply run: the pending action is the one the
/// stage stands for, a given pid is the only candidate and is never replaced by
/// a title search, and a wait is only pending while attempts are left.
pub open spec fn run_wf(r: ApplyRunView) -> bool {
    &&& 0 <= r.next
    &&& (r.config.pid matches Some(p) ==> r.candidates == seq![p])
    &&& match r.stage {
        ApplyStage::Resolving => r.pending == ApplyAction::ResolvePids && r.config.pid is None,
        ApplyStage::TryingCandidate => r.next < r.candidates.len() && r.pending
            == ApplyAction::TryPid { pid: r.candidates[r.next], monitor: r.config.monitor },
        ApplyStage::SearchingTitle => r.pending == ApplyAction::FindPidByTitle && r.config.pid is None,
        ApplyStage::TryingTitleMatch => r.config.pid is None && (r.pending matches ApplyAction::TryPid { monitor, .. } && monitor == r.config.monitor),
        ApplyStage::Waiting => r.pending == (ApplyAction::Wait { seconds: RETRY_DELAY_SECS })
            && r.config.retry && r.config.retries < MAX_RETRIES && r.candidates.len() > 0,
        ApplyStage::Finished => r.pending is Finish,
    }
}

/// Attempts left after the current one.
pub open spec fn passes_left(c: ApplyConfig) -> int {
    if c.retries < MAX_RETRIES {
        MAX_RETRIES - c.retries
    } else {
        0
    }
}

pub open spec fn stage_rank(s: ApplyStage) -> int {
    match s {
        ApplyStage::Resolving => 5,
        ApplyStage::TryingCandidate => 4,
        ApplyStage::SearchingTitle => 3,
        ApplyStage::TryingTitleMatch => 2,
        ApplyStage::Waiting => 1,
        ApplyStage::Finished => 0,
    }
}

/// How far an apply run is from its end, compared lexicographically: attempts
/// left, then the stage within the attempt, then the candidates left.
pub open spec fn run_rank(r: ApplyRunView) -> (int, int, int) {
    (
        passes_left(r.config),
        stage_rank(r.stage),
        if r.stage == ApplyStage::TryingCandidate { r.candidates.len() - r.next } else { 0 },
    )
}

pub open spec fn rank_lt(a: (int, int, int), b: (int, int, int)) -> bool {
    ||| a.0 < b.0
    ||| a.0 == b.0 && a.1 < b.1
    ||| a.0 == b.0 && a.1 == b.1 && a.2 < b.2
}

pub open spec fn rank_nonneg(a: (int, int, int)) -> bool {
    a.0 >= 0 && a.1 >= 0 && a.2 >= 0
}

/// A run starts consistent, and the action it returns is its pending action.
pub proof fn lemma_begin_wf(config: ApplyConfig)
    ensures
        run_wf(begin_spec(config).0),
        begin_spec(config).1 == begin_spec(config).0.pending,
        begin_spec(config).0.config == config,
{
}

/// Every step keeps an apply run consistent, returns the new pending action,
/// and every report that the stage waits for strictly lowers the run's rank,
/// which never goes below zero: every apply run finishes.
pub proof fn lemma_step_progress(r: ApplyRunView, event: ApplyEvent)
    requires
        run_wf(r),
    ensures
        run_wf(step_spec(r, event).0),
        step_spec(r, event).1 == step_spec(r, event).0.pending,
        rank_nonneg(run_rank(step_spec(r, event).0)),
        accepts(r, event) ==> rank_lt(run_rank(step_spec(r, event).0), run_rank(r)),
        !accepts(r, event) ==> step_spec(r, event) == (r, r.pending),
{
    if r.stage == ApplyStage::Waiting && event is Waited {
        lemma_begin_wf(retry_config(r.config));
    }
}

/// A finished run accepts no further report.
pub proof fn lemma_finished_is_final(r: ApplyRunView, event: ApplyEvent)
    requires
        r.stage == ApplyStage::Finished,
    ensures
        !accepts(r, event),
        step_spec(r, event) == (r, r.pending),
{
}

/// A window that was moved ends the run with success, and a window that was
/// found but could not be moved ends it with that error; no other process or
/// window is tried after either.
pub proof fn lemma_first_decisive_outcome(r: ApplyRunView, outcome: Result<(), Option<WindowManagerError>>)
    requires
        run_wf(r),
        r.stage == ApplyStage::TryingCandidate || r.stage == ApplyStage::TryingTitleMatch,
        outcome is Ok || outcome matches Err(Some(_)),
    ensures
        step_spec(r, ApplyEvent::PidTried(outcome)).1 == (ApplyAction::Finish {
            result: match outcome {
                Ok(()) => Ok(()),
                Err(e) => Err(e->0),
            },
            list_windows: false,
        }),
{
}

/// The run itself ends with `ProcessNotFound` only when no process matched the
/// profile (a report that a window move failed with that error is passed on as
/// it is).
pub proof fn lemma_process_not_found(r: ApplyRunView, event: ApplyEvent)
    requires
        run_wf(r),
        accepts(r, event),
        !(event matches ApplyEvent::PidTried(o) && o == Err::<(), Option<WindowManagerError>>(Some(WindowManagerError::ProcessNotFound))),
        step_spec(r, event).1 matches ApplyAction::Finish { result, .. } && result == Err::<(), WindowManagerError>(WindowManagerError::ProcessNotFound),
    ensures
        step_spec(r, event).0.candidates.len() == 0,
{
}

/// A wait lasts the retry delay and is only asked for while retrying is on and
/// fewer than the maximum number of retries were made; after it the next
/// attempt runs with the same pid and monitoring, retrying on, and one more
/// retry counted.
pub proof fn lemma_retry_policy(r: ApplyRunView, event: ApplyEvent)
    requires
        run_wf(r),
    ensures
        step_spec(r, event).1 matches ApplyAction::Wait { seconds } ==> seconds == RETRY_DELAY_SECS
            && step_spec(r, event).0.config.retry && step_spec(r, event).0.config.retries < MAX_RETRIES,
        r.stage == ApplyStage::Waiting && event is Waited ==> step_spec(r, event).0.config == (ApplyConfig {
            pid: r.config.pid,
            retry: true,
            retries: (r.config.retries + 1) as u8,
            monitor: r.config.monitor,
        }),
{
    if r.stage == ApplyStage::Waiting && event is Waited {
        lemma_begin_wf(retry_config(r.config));
    }
}

/// When the request names a pid, that pid is the only one tried and no window
/// is looked up by title.
pub proof fn lemma_pinned_pid(r: ApplyRunView, event: ApplyEvent, p: u32)
    requires
        run_wf(r),
        r.config.pid == Some(p),
    ensures
        step_spec(r, event).1 != ApplyAction::FindPidByTitle,
        step_spec(r, event).1 matches ApplyAction::TryPid { pid, .. } ==> pid == p,
        step_spec(r, event).0.config.pid == Some(p),
{
    if r.stage == ApplyStage::Waiting && event is Waited {
        lemma_begin_wf(retry_config(r.config));
    }
}

/// In a run without a given pid, the owner of a window found by title is
/// always tried next, with the run's monitoring setting, whether or not any
/// process matched the profile's process name.
pub proof fn lemma_title_match_is_tried(r: ApplyRunView, p: u32)
    requires
        run_wf(r),
        r.stage == ApplyStage::SearchingTitle,
    ensures
        step_spec(r, ApplyEvent::TitleSearched(Some(p))).1 == (ApplyAction::TryPid { pid: p, monitor: r.config.monitor }),
        step_spec(r, ApplyEvent::TitleSearched(Some(p))).0.stage == ApplyStage::TryingTitleMatch,
        step_spec(r, ApplyEvent::TitleSearched(Some(p))).0.config == r.config,
{
}

/// The lookup found no process.
pub open spec fn reports_no_process(e: ApplyEvent) -> bool {
    e matches ApplyEvent::PidsResolved(v) && v@.len() == 0
}

/// The tried pid owns no visible window.
pub open spec fn reports_no_window(e: ApplyEvent) -> bool {
    e matches ApplyEvent::PidTried(o) && o == Err::<(), Option<WindowManagerError>>(None)
}

/// In a run without a given pid, the title search comes next when no process
/// matched, and when the last matching process had no window.
pub proof fn lemma_title_search_follows(r: ApplyRunView, event: ApplyEvent)
    requires
        run_wf(r),
        r.config.pid is None,
        (r.stage == ApplyStage::Resolving && reports_no_process(event)) || (r.stage
            == ApplyStage::TryingCandidate && r.next + 1 >= r.candidates.len() && reports_no_window(event)),
    ensures
        step_spec(r, event).1 == ApplyAction::FindPidByTitle,
        step_spec(r, event).0.stage == ApplyStage::SearchingTitle,
{
}

/// The run reports `ProcessNotFound` of its own only when no pid was given, no
/// process matched, and the title search then found no window, or found one
/// whose owner turned out to have no window.
pub proof fn lemma_process_not_found_after_fallback(r: ApplyRunView, event: ApplyEvent)
    requires
        run_wf(r),
        accepts(r, event),
        !(event matches ApplyEvent::PidTried(o) && o is Err && o->Err_0 is Some),
        step_spec(r, event).1 matches ApplyAction::Finish { result, .. } && result == Err::<(), WindowManagerError>(WindowManagerError::ProcessNotFound),
    ensures
        r.config.pid is None,
        step_spec(r, event).0.candidates.len() == 0,
        event == ApplyEvent::TitleSearched(None) || (r.stage == ApplyStage::TryingTitleMatch
            && reports_no_window(event)),
{
}

} // verus!
