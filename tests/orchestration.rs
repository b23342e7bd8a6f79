use autocisco::credentials::Credentials;
use autocisco::failure::Failure;
use autocisco::orchestrator::{Action, Orchestrator, Phase, Timing};
use autocisco::script::Script;

struct Run {
    outcome: Result<(), Failure>,
    scripts: Vec<Script>,
    sleeps: Vec<u64>,
    ended_at: u64,
    launch_entered_at: Option<u64>,
}

/// Drives an attempt against a simulated application.  Scripts take `cost` ms.
fn drive(cost: u64, mut answer: impl FnMut(&Script, u64) -> Result<String, Failure>) -> Run {
    let creds = Credentials { username: "alice".to_string(), password: "s3cr3t".to_string() };
    let (mut orch, mut action) = Orchestrator::start(creds, Timing::standard());
    let mut now: u64 = 0;
    let mut scripts = Vec::new();
    let mut sleeps = Vec::new();
    let mut launch_entered_at = None;
    for _ in 0..10_000 {
        let ran = match action {
            Action::Finish(outcome) => {
                return Run { outcome, scripts, sleeps, ended_at: now, launch_entered_at };
            }
            Action::Sleep(ms) => {
                sleeps.push(ms);
                now += ms;
                Ok(String::new())
            }
            Action::Run(script) => {
                now += cost;
                let r = answer(&script, now);
                scripts.push(script);
                r
            }
        };
        action = orch.step(now, ran);
        if orch.phase == Phase::AwaitLaunch && launch_entered_at.is_none() {
            launch_entered_at = Some(now);
        }
    }
    panic!("the attempt never finished");
}

fn yes() -> Result<String, Failure> {
    Ok("true".to_string())
}

fn no() -> Result<String, Failure> {
    Ok("false".to_string())
}

fn is_ui_action(s: &Script) -> bool {
    matches!(
        s,
        Script::Activate | Script::BringToFront | Script::PressReturn | Script::PressTab | Script::TypeText(_)
    )
}

#[test]
fn standard_timing_values() {
    let t = Timing::standard();
    assert_eq!(t.launch_poll_ms, 500);
    assert_eq!(t.launch_deadline_ms, 15_000);
    assert_eq!(t.login_poll_ms, 500);
    assert_eq!(t.login_deadline_ms, 10_000);
    assert_eq!(t.settle_ms, 500);
    assert_eq!(t.completion_poll_ms, 2_000);
    assert_eq!(t.completion_deadline_ms, 30_000);
}

#[test]
fn happy_path_runs_every_phase_in_order() {
    let mut login_checks = 0;
    let run = drive(0, |s, _| match s {
        Script::IsInstalled => yes(),
        Script::MainWindowExists => yes(),
        Script::LoginWindowExists => {
            login_checks += 1;
            if login_checks == 1 { yes() } else { no() }
        }
        _ => Ok(String::new()),
    });
    assert_eq!(run.outcome, Ok(()));
    assert_eq!(
        run.scripts,
        vec![
            Script::IsInstalled,
            Script::EnsureNotRunning,
            Script::Activate,
            Script::MainWindowExists,
            Script::PressReturn,
            Script::LoginWindowExists,
            Script::BringToFront,
            Script::TypeText("alice".to_string()),
            Script::PressTab,
            Script::TypeText("s3cr3t".to_string()),
            Script::PressReturn,
            Script::LoginWindowExists,
        ]
    );
    assert_eq!(run.sleeps, vec![500]);
}

#[test]
fn not_installed_fails_before_any_ui_action() {
    let run = drive(0, |s, _| match s {
        Script::IsInstalled => no(),
        _ => yes(),
    });
    assert_eq!(run.outcome, Err(Failure::NotInstalled));
    assert_eq!(run.scripts, vec![Script::IsInstalled]);
    assert!(!run.scripts.iter().any(is_ui_action));
}

#[test]
fn launch_timeout_comes_within_one_interval_after_the_deadline() {
    let run = drive(0, |s, _| match s {
        Script::IsInstalled => yes(),
        Script::MainWindowExists => no(),
        _ => Ok(String::new()),
    });
    assert_eq!(run.outcome, Err(Failure::LaunchTimeout));
    let entered = run.launch_entered_at.unwrap();
    let waited = run.ended_at - entered;
    assert!(waited > 15_000);
    assert!(waited <= 15_000 + 500);
    assert!(!run.scripts.contains(&Script::PressReturn));
}

#[test]
fn launch_timeout_with_slow_probes() {
    let run = drive(120, |s, _| match s {
        Script::IsInstalled => yes(),
        Script::MainWindowExists => no(),
        _ => Ok(String::new()),
    });
    assert_eq!(run.outcome, Err(Failure::LaunchTimeout));
    let waited = run.ended_at - run.launch_entered_at.unwrap();
    assert!(waited > 15_000);
}

#[test]
fn login_window_closing_at_once_succeeds_without_waiting() {
    let mut submitted = false;
    let run = drive(0, |s, _| match s {
        Script::IsInstalled | Script::MainWindowExists => yes(),
        Script::TypeText(t) if t == "s3cr3t" => {
            submitted = true;
            Ok(String::new())
        }
        Script::LoginWindowExists => if submitted { no() } else { yes() },
        _ => Ok(String::new()),
    });
    assert_eq!(run.outcome, Ok(()));
    // the only pause is the one after Tab; none while waiting for completion
    assert_eq!(run.sleeps, vec![500]);
    assert!(run.ended_at < 30_000);
}

#[test]
fn login_screen_timeout() {
    let run = drive(0, |s, _| match s {
        Script::IsInstalled | Script::MainWindowExists => yes(),
        Script::LoginWindowExists => no(),
        _ => Ok(String::new()),
    });
    assert_eq!(run.outcome, Err(Failure::LoginScreenTimeout));
    assert!(!run.scripts.contains(&Script::BringToFront));
    assert_eq!(run.sleeps.iter().filter(|&&ms| ms == 500).count(), 21);
}

#[test]
fn sso_timeout_when_login_window_stays() {
    let run = drive(0, |s, _| match s {
        Script::IsInstalled | Script::MainWindowExists | Script::LoginWindowExists => yes(),
        _ => Ok(String::new()),
    });
    assert_eq!(run.outcome, Err(Failure::SsoTimeout));
    assert_eq!(run.sleeps.iter().filter(|&&ms| ms == 2_000).count(), 16);
}

#[test]
fn reconcile_failure_is_tagged() {
    let run = drive(0, |s, _| match s {
        Script::IsInstalled => yes(),
        Script::EnsureNotRunning => Err(Failure::ScriptError("cannot quit".to_string())),
        _ => Ok(String::new()),
    });
    assert_eq!(
        run.outcome,
        Err(Failure::ReconcileError(Box::new(Failure::ScriptError("cannot quit".to_string()))))
    );
    assert!(!run.scripts.contains(&Script::Activate));
}

#[test]
fn activation_failure_is_tagged() {
    let run = drive(0, |s, _| match s {
        Script::IsInstalled => yes(),
        Script::Activate => Err(Failure::SpawnError("gone".to_string())),
        _ => Ok(String::new()),
    });
    assert_eq!(
        run.outcome,
        Err(Failure::ActivationError(Box::new(Failure::SpawnError("gone".to_string()))))
    );
}

#[test]
fn focus_failure_is_tagged_and_stops_typing() {
    let run = drive(0, |s, _| match s {
        Script::IsInstalled | Script::MainWindowExists | Script::LoginWindowExists => yes(),
        Script::BringToFront => Err(Failure::ScriptError("no window".to_string())),
        _ => Ok(String::new()),
    });
    assert_eq!(
        run.outcome,
        Err(Failure::FocusError(Box::new(Failure::ScriptError("no window".to_string()))))
    );
    assert!(!run.scripts.iter().any(|s| matches!(s, Script::TypeText(_))));
}

#[test]
fn probe_failure_propagates_unchanged() {
    let run = drive(0, |s, _| match s {
        Script::IsInstalled => yes(),
        Script::MainWindowExists => Err(Failure::ScriptError("accessibility".to_string())),
        _ => Ok(String::new()),
    });
    assert_eq!(run.outcome, Err(Failure::ScriptError("accessibility".to_string())));
}

#[test]
fn installation_query_failure_propagates_unchanged() {
    let run = drive(0, |_, _| Err(Failure::SpawnError("no interpreter".to_string())));
    assert_eq!(run.outcome, Err(Failure::SpawnError("no interpreter".to_string())));
    assert_eq!(run.scripts, vec![Script::IsInstalled]);
}

#[test]
fn finished_attempt_keeps_reporting_its_outcome() {
    let creds = Credentials { username: "u".to_string(), password: "p".to_string() };
    let (mut orch, _) = Orchestrator::start(creds, Timing::standard());
    assert_eq!(orch.step(5, Ok("false".to_string())), Action::Finish(Err(Failure::NotInstalled)));
    assert_eq!(orch.step(9, Ok("true".to_string())), Action::Finish(Err(Failure::NotInstalled)));
    assert_eq!(orch.phase, Phase::Failed(Failure::NotInstalled));
}
