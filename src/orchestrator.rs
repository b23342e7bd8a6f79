//! One connection attempt as a state machine: the caller performs each
//! action (run a script, sleep) and reports what came of it.

use vstd::prelude::*;

use crate::credentials::Credentials;
use crate::failure::Failure;
use crate::script::{probe_outcome, read_probe, reads_true, stop_outcome, ensure_app_not_running, Script};

verus! {

/// Pause between two checks for the main window, in milliseconds.
pub const LAUNCH_POLL_MS: u64 = 500;
/// How long the main window may take to appear, in milliseconds.
pub const LAUNCH_DEADLINE_MS: u64 = 15000;
/// Pause between two checks for the login window, in milliseconds.
pub const LOGIN_POLL_MS: u64 = 500;
/// How long the login window may take to appear, in milliseconds.
pub const LOGIN_DEADLINE_MS: u64 = 10000;
/// Pause after Tab so that the password field takes focus, in milliseconds.
pub const SETTLE_MS: u64 = 500;
/// Pause between two checks that the login window has closed, in milliseconds.
pub const COMPLETION_POLL_MS: u64 = 2000;
/// How long the login may take to complete, in milliseconds.
pub const COMPLETION_DEADLINE_MS: u64 = 30000;

/// Polling intervals and phase deadlines of a connection attempt, in milliseconds.
#[derive(Clone, Copy, Debug, PartialEq, Eq)]
pub struct Timing {
    pub launch_poll_ms: u64,
    pub launch_deadline_ms: u64,
    pub login_poll_ms: u64,
    pub login_deadline_ms: u64,
    pub settle_ms: u64,
    pub completion_poll_ms: u64,
    pub completion_deadline_ms: u64,
}

impl Timing {
    /// The intervals and deadlines that suit the application as it usually responds.
    pub open spec fn spec_standard() -> Timing {
        Timing {
            launch_poll_ms: LAUNCH_POLL_MS,
            launch_deadline_ms: LAUNCH_DEADLINE_MS,
            login_poll_ms: LOGIN_POLL_MS,
            login_deadline_ms: LOGIN_DEADLINE_MS,
            settle_ms: SETTLE_MS,
            completion_poll_ms: COMPLETION_POLL_MS,
            completion_deadline_ms: COMPLETION_DEADLINE_MS,
        }
    }

    /// The standard intervals and deadlines.
    pub fn standard() -> (r: Timing)
        ensures
            r == Timing::spec_standard(),
    {
        Timing {
            launch_poll_ms: LAUNCH_POLL_MS,
            launch_deadline_ms: LAUNCH_DEADLINE_MS,
            login_poll_ms: LOGIN_POLL_MS,
            login_deadline_ms: LOGIN_DEADLINE_MS,
            settle_ms: SETTLE_MS,
            completion_poll_ms: COMPLETION_POLL_MS,
            completion_deadline_ms: COMPLETION_DEADLINE_MS,
        }
    }
}

/// Where a connection attempt stands: what the last action was, whose
/// completion the orchestrator now waits for.
#[derive(Debug, PartialEq, Eq)]
pub enum Phase {
    /// The installation query runs.
    Preflight,
    /// The application is being stopped if it runs.
    Reconcile,
    /// The application is being activated.
    Activate,
    /// The main-window query runs.
    AwaitLaunch,
    /// Pause between main-window queries.
    LaunchPause,
    /// Enter is pressed to get past any intro screen.
    AdvanceToLogin,
    /// The login-window query runs.
    AwaitLoginWindow,
    /// Pause between login-window queries.
    LoginPause,
    /// The login window is being raised.
    FocusLoginWindow,
    /// The username is being typed.
    TypeUsername,
    /// Tab is pressed to move to the password field.
    TabToPassword,
    /// Pause while the password field takes focus.
    SettleFocus,
    /// The password is being typed.
    TypePassword,
    /// Enter is pressed to submit the login.
    Submit,
    /// The login-window query runs, to see whether it has closed.
    AwaitCompletion,
    /// Pause between those queries.
    CompletionPause,
    /// The login window closed: the attempt succeeded.
    Succeeded,
    /// The attempt failed for this reason.
    Failed(Failure),
}

/// What the caller must do next for the attempt.
#[derive(Debug, PartialEq, Eq)]
pub enum Action {
    /// Run this script and report what it gave.
    Run(Script),
    /// Sleep this many milliseconds, then report.
    Sleep(u64),
    /// The attempt is over, with this outcome.
    Finish(Result<(), Failure>),
}

/// Milliseconds from `since` to `now` (none if the clock reads earlier).
pub open spec fn elapsed(now: u64, since: u64) -> int {
    if now >= since {
        now - since
    } else {
        0
    }
}

/// One connection attempt: the credentials to type, the timing, the phase,
/// and the time at which the current polling phase began.
#[derive(Debug)]
pub struct Orchestrator {
    pub username: String,
    pub password: String,
    pub timing: Timing,
    pub phase: Phase,
    pub since: u64,
}

/// The attempt as it begins, and its first action: the installation query.
pub open spec fn spec_start(creds: Credentials, timing: Timing) -> (Orchestrator, Action) {
    (
        Orchestrator {
            username: creds.username,
            password: creds.password,
            timing,
            phase: Phase::Preflight,
            since: 0,
        },
        Action::Run(Script::IsInstalled),
    )
}

impl Orchestrator {
    /// The attempt in `phase`, polling since `since`, and the action it asks for.
    pub open spec fn go(self, phase: Phase, since: u64, action: Action) -> (Orchestrator, Action) {
        (Orchestrator { phase, since, ..self }, action)
    }

    /// The attempt ended with failure `f`.
    pub open spec fn fail(self, f: Failure) -> (Orchestrator, Action) {
        self.go(Phase::Failed(f), self.since, Action::Finish(Err(f)))
    }

    /// A yes/no query was answered: on yes go to `yes`, on no pause in `no`.
    pub open spec fn on_probe(
        self,
        ran: Result<String, Failure>,
        yes: (Orchestrator, Action),
        no: Phase,
        pause: u64,
    ) -> (Orchestrator, Action) {
        match probe_outcome(ran) {
            Err(f) => self.fail(f),
            Ok(true) => yes,
            Ok(false) => self.go(no, self.since, Action::Sleep(pause)),
        }
    }

    /// A pause ended at `now`: past the deadline the attempt fails with
    /// `timeout`, otherwise it goes back to querying in `probe`.
    pub open spec fn on_wake(
        self,
        now: u64,
        deadline: u64,
        timeout: Failure,
        probe: Phase,
        query: Script,
    ) -> (Orchestrator, Action) {
        if elapsed(now, self.since) > deadline {
            self.fail(timeout)
        } else {
            self.go(probe, self.since, Action::Run(query))
        }
    }

    /// A command ran: a failure ends the attempt, otherwise `then` follows.
    pub open spec fn on_command(
        self,
        ran: Result<String, Failure>,
        then: (Orchestrator, Action),
    ) -> (Orchestrator, Action) {
        match ran {
            Err(f) => self.fail(f),
            Ok(_) => then,
        }
    }

    /// The attempt after the last action completed at time `now` with `ran`
    /// (for a pause, `ran` is ignored), and the next action.
    pub open spec fn next(self, now: u64, ran: Result<String, Failure>) -> (Orchestrator, Action) {
        let t = self.timing;
        match self.phase {
            Phase::Preflight => match probe_outcome(ran) {
                Err(f) => self.fail(f),
                Ok(false) => self.fail(Failure::NotInstalled),
                Ok(true) => self.go(Phase::Reconcile, self.since, Action::Run(Script::EnsureNotRunning)),
            },
            Phase::Reconcile => match stop_outcome(ran) {
                Err(f) => self.fail(Failure::ReconcileError(Box::new(f))),
                Ok(_) => self.go(Phase::Activate, self.since, Action::Run(Script::Activate)),
            },
            Phase::Activate => match ran {
                Err(f) => self.fail(Failure::ActivationError(Box::new(f))),
                Ok(_) => self.go(Phase::AwaitLaunch, now, Action::Run(Script::MainWindowExists)),
            },
            Phase::AwaitLaunch => self.on_probe(
                ran,
                self.go(Phase::AdvanceToLogin, self.since, Action::Run(Script::PressReturn)),
                Phase::LaunchPause,
                t.launch_poll_ms,
            ),
            Phase::LaunchPause => self.on_wake(
                now,
                t.launch_deadline_ms,
                Failure::LaunchTimeout,
                Phase::AwaitLaunch,
                Script::MainWindowExists,
            ),
            Phase::AdvanceToLogin => self.on_command(
                ran,
                self.go(Phase::AwaitLoginWindow, now, Action::Run(Script::LoginWindowExists)),
            ),
            Phase::AwaitLoginWindow => self.on_probe(
                ran,
                self.go(Phase::FocusLoginWindow, self.since, Action::Run(Script::BringToFront)),
                Phase::LoginPause,
                t.login_poll_ms,
            ),
            Phase::LoginPause => self.on_wake(
                now,
                t.login_deadline_ms,
                Failure::LoginScreenTimeout,
                Phase::AwaitLoginWindow,
                Script::LoginWindowExists,
            ),
            Phase::FocusLoginWindow => match ran {
                Err(f) => self.fail(Failure::FocusError(Box::new(f))),
                Ok(_) => self.go(
                    Phase::TypeUsername,
                    self.since,
                    Action::Run(Script::TypeText(self.username)),
                ),
            },
            Phase::TypeUsername => self.on_command(
                ran,
                self.go(Phase::TabToPassword, self.since, Action::Run(Script::PressTab)),
            ),
            Phase::TabToPassword => self.on_command(
                ran,
                self.go(Phase::SettleFocus, self.since, Action::Sleep(t.settle_ms)),
            ),
            Phase::SettleFocus => self.go(
                Phase::TypePassword,
                self.since,
                Action::Run(Script::TypeText(self.password)),
            ),
            Phase::TypePassword => self.on_command(
                ran,
                self.go(Phase::Submit, self.since, Action::Run(Script::PressReturn)),
            ),
            Phase::Submit => self.on_command(
                ran,
                self.go(Phase::AwaitCompletion, now, Action::Run(Script::LoginWindowExists)),
            ),
            Phase::AwaitCompletion => match probe_outcome(ran) {
                Err(f) => self.fail(f),
                Ok(true) => self.go(
                    Phase::CompletionPause,
                    self.since,
                    Action::Sleep(t.completion_poll_ms),
                ),
                Ok(false) => self.go(Phase::Succeeded, self.since, Action::Finish(Ok(()))),
            },
            Phase::CompletionPause => self.on_wake(
                now,
                t.completion_deadline_ms,
                Failure::SsoTimeout,
                Phase::AwaitCompletion,
                Script::LoginWindowExists,
            ),
            Phase::Succeeded => (self, Action::Finish(Ok(()))),
            Phase::Failed(f) => (self, Action::Finish(Err(f))),
        }
    }
}

impl Orchestrator {
    /// Begins an attempt with these credentials and timing; the first action
    /// is the installation query.
    pub fn start(creds: Credentials, timing: Timing) -> (r: (Orchestrator, Action))
        ensures
            r == spec_start(creds, timing),
    {
        (
            Orchestrator {
                username: creds.username,
                password: creds.password,
                timing,
                phase: Phase::Preflight,
                since: 0,
            },
            Action::Run(Script::IsInstalled),
        )
    }

    fn enter(&mut self, phase: Phase, since: u64, action: Action) -> (r: Action)
        ensures
            (*final(self), r) == old(self).go(phase, since, action),
    {
        self.phase = phase;
        self.since = since;
        action
    }

    fn end_with(&mut self, f: Failure) -> (r: Action)
        ensures
            (*final(self), r) == old(self).fail(f),
    {
        self.phase = Phase::Failed(f.duplicate());
        Action::Finish(Err(f))
    }

    fn after_command(&mut self, ran: Result<String, Failure>, phase: Phase, since: u64, action: Action) -> (r: Action)
        ensures
            (*final(self), r) == old(self).on_command(ran, old(self).go(phase, since, action)),
    {
        match ran {
            Err(f) => self.end_with(f),
            Ok(_) => self.enter(phase, since, action),
        }
    }

    fn after_probe(&mut self, ran: Result<String, Failure>, phase: Phase, action: Action, no: Phase, pause: u64) -> (r: Action)
        ensures
            (*final(self), r) == old(self).on_probe(ran, old(self).go(phase, old(self).since, action), no, pause),
    {
        match read_probe(ran) {
            Err(f) => self.end_with(f),
            Ok(true) => {
                let since = self.since;
                self.enter(phase, since, action)
            },
            Ok(false) => {
                let since = self.since;
                self.enter(no, since, Action::Sleep(pause))
            },
        }
    }

    fn after_pause(&mut self, now: u64, deadline: u64, timeout: Failure, probe: Phase, query: Script) -> (r: Action)
        ensures
            (*final(self), r) == old(self).on_wake(now, deadline, timeout, probe, query),
    {
        let waited: u64 = if now >= self.since { now - self.since } else { 0 };
        if waited > deadline {
            self.end_with(timeout)
        } else {
            let since = self.since;
            self.enter(probe, since, Action::Run(query))
        }
    }

    fn outcome(&self) -> (r: Action)
        requires
            self.phase is Succeeded || self.phase is Failed,
        ensures
            self.phase is Succeeded ==> r == Action::Finish(Ok(())),
            self.phase is Failed ==> r == Action::Finish(Err(self.phase->Failed_0)),
    {
        match &self.phase {
            Phase::Failed(f) => Action::Finish(Err(f.duplicate())),
            _ => Action::Finish(Ok(())),
        }
    }

    /// Advances the attempt: the last action completed at time `now`
    /// (milliseconds on a clock that does not go back) with `ran`, which is
    /// ignored after a pause.  Returns the next action.
    pub fn step(&mut self, now: u64, ran: Result<String, Failure>) -> (r: Action)
        ensures
            (*final(self), r) == old(self).next(now, ran),
    {
        let t = self.timing;
        let since = self.since;
        match self.phase {
            Phase::Preflight => match read_probe(ran) {
                Err(f) => self.end_with(f),
                Ok(false) => self.end_with(Failure::NotInstalled),
                Ok(true) => self.enter(Phase::Reconcile, since, Action::Run(Script::EnsureNotRunning)),
            },
            Phase::Reconcile => match ensure_app_not_running(ran) {
                Err(f) => self.end_with(Failure::ReconcileError(Box::new(f))),
                Ok(_) => self.enter(Phase::Activate, since, Action::Run(Script::Activate)),
            },
            Phase::Activate => match ran {
                Err(f) => self.end_with(Failure::ActivationError(Box::new(f))),
                Ok(_) => self.enter(Phase::AwaitLaunch, now, Action::Run(Script::MainWindowExists)),
            },
            Phase::AwaitLaunch => self.after_probe(
                ran,
                Phase::AdvanceToLogin,
                Action::Run(Script::PressReturn),
                Phase::LaunchPause,
                t.launch_poll_ms,
            ),
            Phase::LaunchPause => self.after_pause(
                now,
                t.launch_deadline_ms,
                Failure::LaunchTimeout,
                Phase::AwaitLaunch,
                Script::MainWindowExists,
            ),
            Phase::AdvanceToLogin => self.after_command(
                ran,
                Phase::AwaitLoginWindow,
                now,
                Action::Run(Script::LoginWindowExists),
            ),
            Phase::AwaitLoginWindow => self.after_probe(
                ran,
                Phase::FocusLoginWindow,
                Action::Run(Script::BringToFront),
                Phase::LoginPause,
                t.login_poll_ms,
            ),
            Phase::LoginPause => self.after_pause(
                now,
                t.login_deadline_ms,
                Failure::LoginScreenTimeout,
                Phase::AwaitLoginWindow,
                Script::LoginWindowExists,
            ),
            Phase::FocusLoginWindow => match ran {
                Err(f) => self.end_with(Failure::FocusError(Box::new(f))),
                Ok(_) => {
                    let name = self.username.clone();
                    self.enter(Phase::TypeUsername, since, Action::Run(Script::TypeText(name)))
                },
            },
            Phase::TypeUsername => self.after_command(
                ran,
                Phase::TabToPassword,
                since,
                Action::Run(Script::PressTab),
            ),
            Phase::TabToPassword => self.after_command(
                ran,
                Phase::SettleFocus,
                since,
                Action::Sleep(t.settle_ms),
            ),
            Phase::SettleFocus => {
                let secret = self.password.clone();
                self.enter(Phase::TypePassword, since, Action::Run(Script::TypeText(secret)))
            },
            Phase::TypePassword => self.after_command(
                ran,
                Phase::Submit,
                since,
                Action::Run(Script::PressReturn),
            ),
            Phase::Submit => self.after_command(
                ran,
                Phase::AwaitCompletion,
                now,
                Action::Run(Script::LoginWindowExists),
            ),
            Phase::AwaitCompletion => match read_probe(ran) {
                Err(f) => self.end_with(f),
                Ok(true) => self.enter(Phase::CompletionPause, since, Action::Sleep(t.completion_poll_ms)),
                Ok(false) => self.enter(Phase::Succeeded, since, Action::Finish(Ok(()))),
            },
            Phase::CompletionPause => self.after_pause(
                now,
                t.completion_deadline_ms,
                Failure::SsoTimeout,
                Phase::AwaitCompletion,
                Script::LoginWindowExists,
            ),
            Phase::Succeeded => self.outcome(),
            Phase::Failed(_) => self.outcome(),
        }
    }
}

/// When the installation query does not answer `true`, the attempt fails with
/// `NotInstalled` right after it.  The query is the only script issued, and
/// the failed attempt asks for nothing more, so nothing is activated and no key
/// is pressed.
pub proof fn lemma_not_installed_stops_early(
    creds: Credentials,
    timing: Timing,
    now: u64,
    out: String,
    later: u64,
    later_ran: Result<String, Failure>,
)
    requires
        !reads_true(out@),
    ensures
        spec_start(creds, timing).1 == Action::Run(Script::IsInstalled),
        spec_start(creds, timing).0.next(now, Ok(out)).0.phase == Phase::Failed(Failure::NotInstalled),
        spec_start(creds, timing).0.next(now, Ok(out)).1 == Action::Finish(Err(Failure::NotInstalled)),
        spec_start(creds, timing).0.next(now, Ok(out)).0.next(later, later_ran)
            == spec_start(creds, timing).0.next(now, Ok(out)),
{
}

/// Once the login is submitted, if the login window is already gone at the
/// first check, the attempt succeeds at that check, without any pause.
pub proof fn lemma_prompt_completion(m: Orchestrator, t1: u64, out1: String, t2: u64, out2: String)
    requires
        m.phase == Phase::Submit,
        !reads_true(out2@),
    ensures
        m.next(t1, Ok(out1)).1 == Action::Run(Script::LoginWindowExists),
        m.next(t1, Ok(out1)).0.next(t2, Ok(out2)).0.phase == Phase::Succeeded,
        m.next(t1, Ok(out1)).0.next(t2, Ok(out2)).1 == Action::Finish(Ok(())),
{
}

/// One round of the launch phase: the main-window query answers `out` at time
/// `t`; the caller then sleeps exactly as long as asked and reports at once.
/// Gives the attempt and the clock after the round.
pub open spec fn launch_round(m: Orchestrator, t: u64, out: String) -> (Orchestrator, u64) {
    let (m1, a1) = m.next(t, Ok(out));
    let woke: u64 = match a1 {
        Action::Sleep(d) => (t + d) as u64,
        _ => t,
    };
    (m1.next(woke, Ok(out)).0, woke)
}

/// The attempt and the clock after `k` launch rounds from time `t`.
pub open spec fn launch_rounds(m: Orchestrator, t: u64, out: String, k: nat) -> (Orchestrator, u64)
    decreases k,
{
    if k == 0 {
        (m, t)
    } else {
        let prev = launch_rounds(m, t, out, (k - 1) as nat);
        launch_round(prev.0, prev.1, out)
    }
}

/// Launch timeout: from the moment the launch phase is entered, if the
/// main-window query never answers `true`, the attempt is still polling
/// after every round that ends within the deadline, and it fails with
/// `LaunchTimeout` at the first check past the deadline, which comes no later
/// than one polling interval after the deadline.
pub proof fn lemma_launch_timeout(m: Orchestrator, out: String, k: nat)
    requires
        m.phase == Phase::AwaitLaunch,
        !reads_true(out@),
        m.timing.launch_poll_ms > 0,
        m.since + m.timing.launch_deadline_ms + m.timing.launch_poll_ms <= u64::MAX,
    ensures
        k * m.timing.launch_poll_ms <= m.timing.launch_deadline_ms ==> {
            &&& launch_rounds(m, m.since, out, k).0.phase == Phase::AwaitLaunch
            &&& launch_rounds(m, m.since, out, k).0.since == m.since
            &&& launch_rounds(m, m.since, out, k).0.timing == m.timing
            &&& launch_rounds(m, m.since, out, k).1 == m.since + k * m.timing.launch_poll_ms
        },
        k * m.timing.launch_poll_ms > m.timing.launch_deadline_ms ==> launch_rounds(m, m.since, out, k).0.phase
            == Phase::Failed(Failure::LaunchTimeout),
        k * m.timing.launch_poll_ms > m.timing.launch_deadline_ms >= (k - 1) * m.timing.launch_poll_ms ==> {
            &&& launch_rounds(m, m.since, out, k).1 == m.since + k * m.timing.launch_poll_ms
            &&& m.since + m.timing.launch_deadline_ms < launch_rounds(m, m.since, out, k).1
            &&& launch_rounds(m, m.since, out, k).1 <= m.since + m.timing.launch_deadline_ms
                + m.timing.launch_poll_ms
        },
    decreases k,
{
    let poll = m.timing.launch_poll_ms as int;
    let deadline = m.timing.launch_deadline_ms as int;
    if k > 0 {
        let j = (k - 1) as nat;
        lemma_launch_timeout(m, out, j);
        let prev = launch_rounds(m, m.since, out, j);
        assert(k * poll == j * poll + poll) by (nonlinear_arith)
            requires
                k == j + 1,
        ;
        assert(j * poll >= 0) by (nonlinear_arith)
            requires
                poll > 0,
        ;
    }
}

} // verus!
