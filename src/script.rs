//! Script texts for each query and command, and how their output is read.

use vstd::prelude::*;

use crate::failure::Failure;

verus! {

/// Start of the literal-keystroke script; the text to type follows, then a closing quote.
pub const KEYSTROKE_PREFIX: &'static str = "tell application \"System Events\" to keystroke \"";

/// Asks the application registry for the bundle; answers `true` or `false`, never raising.
pub const INSTALLED_QUERY: &'static str = "try
    tell application \"Finder\" to get application file id \"com.cisco.anyconnect.gui\"
    set appExists to true
on error
    set appExists to false
end try
appExists";

/// Quits the application if it runs, and kills it when a graceful quit raises an error.
pub const QUIT_SCRIPT: &'static str = "if application \"Cisco AnyConnect Secure Mobility Client\" is running then
    try
        quit application \"Cisco AnyConnect Secure Mobility Client\"
    on error errMessage number errNumber
        do shell script \"killall -9 'Cisco AnyConnect Secure Mobility Client'\"
    end try
end if";

/// Brings the application to the front, launching it if needed.
pub const ACTIVATE_SCRIPT: &'static str = "tell application \"Cisco AnyConnect Secure Mobility Client\" to activate";

/// Answers whether the application's first window exists.
pub const MAIN_WINDOW_QUERY: &'static str = "tell application \"System Events\"
    exists (window 1 of process \"Cisco AnyConnect Secure Mobility Client\")
end tell";

/// Answers whether a window whose title holds the login marker exists.
pub const LOGIN_WINDOW_QUERY: &'static str = "tell application \"System Events\"
    exists (window 1 of process \"Cisco AnyConnect Secure Mobility Client\" where title contains \"Cisco AnyConnect Login\")
end tell";

/// Makes the process frontmost and raises its first window.
pub const RAISE_SCRIPT: &'static str = "tell application \"System Events\" to tell process \"Cisco AnyConnect Secure Mobility Client\"
    set frontmost to true
    perform action \"AXRaise\" of window 1
end tell";

/// Presses Enter.
pub const RETURN_KEYSTROKE: &'static str = "tell application \"System Events\" to keystroke return";

/// Presses Tab.
pub const TAB_KEYSTROKE: &'static str = "tell application \"System Events\" to keystroke tab";

/// One query or command against the target application, before it is written out as script text.
#[derive(Debug, PartialEq, Eq)]
pub enum Script {
    /// Whether the application is installed.
    IsInstalled,
    /// Quit (or kill) the application if it is running.
    EnsureNotRunning,
    /// Activate the application.
    Activate,
    /// Whether the application's primary window exists.
    MainWindowExists,
    /// Whether the login window exists.
    LoginWindowExists,
    /// Bring the process to the front and raise its first window.
    BringToFront,
    /// Press Enter.
    PressReturn,
    /// Press Tab.
    PressTab,
    /// Type the text as literal keystrokes.  The text is placed between the
    /// script's double quotes as it is: a `"` or `\` in it breaks the script or
    /// changes what it does, so callers must keep such characters out
    /// (see `is_keystroke_safe`).
    TypeText(String),
}

/// The script text for a query or command.
pub open spec fn spec_text(s: Script) -> Seq<char> {
    match s {
        Script::IsInstalled => INSTALLED_QUERY@,
        Script::EnsureNotRunning => QUIT_SCRIPT@,
        Script::Activate => ACTIVATE_SCRIPT@,
        Script::MainWindowExists => MAIN_WINDOW_QUERY@,
        Script::LoginWindowExists => LOGIN_WINDOW_QUERY@,
        Script::BringToFront => RAISE_SCRIPT@,
        Script::PressReturn => RETURN_KEYSTROKE@,
        Script::PressTab => TAB_KEYSTROKE@,
        Script::TypeText(t) => KEYSTROKE_PREFIX@ + t@ + seq!['"'],
    }
}

impl Script {
    /// Writes the query or command out as script text for the interpreter.
    pub fn text(&self) -> (r: String)
        ensures
            r@ == spec_text(*self),
    {
        match self {
            Script::IsInstalled => String::from_str(INSTALLED_QUERY),
            Script::EnsureNotRunning => String::from_str(QUIT_SCRIPT),
            Script::Activate => String::from_str(ACTIVATE_SCRIPT),
            Script::MainWindowExists => String::from_str(MAIN_WINDOW_QUERY),
            Script::LoginWindowExists => String::from_str(LOGIN_WINDOW_QUERY),
            Script::BringToFront => String::from_str(RAISE_SCRIPT),
            Script::PressReturn => String::from_str(RETURN_KEYSTROKE),
            Script::PressTab => String::from_str(TAB_KEYSTROKE),
            Script::TypeText(t) => {
                let mut r = String::from_str(KEYSTROKE_PREFIX);
                r.append(t.as_str());
                r.append("\"");
                proof {
                    reveal_strlit("\"");
                }
                r
            },
        }
    }
}

/// Whether text holds a character that would break out of a quoted script literal.
pub open spec fn has_quoting_char(t: Seq<char>) -> bool {
    exists|i: int| 0 <= i < t.len() && (t[i] == '"' || t[i] == '\\')
}

/// Whether the text can be typed through `Script::TypeText` without changing the script.
pub fn is_keystroke_safe(t: &str) -> (r: bool)
    ensures
        r == !has_quoting_char(t@),
{
    let n = t.unicode_len();
    let mut i: usize = 0;
    while i < n
        invariant
            n == t@.len(),
            i <= n,
            forall|j: int| 0 <= j < i ==> t@[j] != '"' && t@[j] != '\\',
        decreases n - i,
    {
        let c = t.get_char(i);
        if c == '"' || c == '\\' {
            return false;
        }
        i = i + 1;
    }
    true
}

/// Whether interpreter output reads as an affirmative answer: exactly `true`.
pub open spec fn reads_true(out: Seq<char>) -> bool {
    out == "true"@
}

/// Reads a probe's trimmed output; anything but exactly `true` counts as no.
pub fn is_true_output(out: &str) -> (r: bool)
    ensures
        r == reads_true(out@),
{
    proof {
        reveal_strlit("true");
    }
    let n = out.unicode_len();
    if n != 4 {
        return false;
    }
    let r = out.get_char(0) == 't' && out.get_char(1) == 'r' && out.get_char(2) == 'u' && out.get_char(3) == 'e';
    proof {
        if r {
            assert(out@ =~= "true"@);
        }
    }
    r
}

/// What a yes/no query answers, given what running it gave: a transport
/// failure is passed on, otherwise the answer is whether the output reads `true`.
pub open spec fn probe_outcome(ran: Result<String, Failure>) -> Result<bool, Failure> {
    match ran {
        Ok(out) => Ok(reads_true(out@)),
        Err(f) => Err(f),
    }
}

/// Interprets the result of running a yes/no query.
pub fn read_probe(ran: Result<String, Failure>) -> (r: Result<bool, Failure>)
    ensures
        r == probe_outcome(ran),
{
    match ran {
        Ok(out) => Ok(is_true_output(out.as_str())),
        Err(f) => Err(f),
    }
}

/// Interprets the result of running the `Script::IsInstalled` query: the
/// scripting error of a failed lookup never shows, only a transport failure.
pub fn is_app_installed(ran: Result<String, Failure>) -> (r: Result<bool, Failure>)
    ensures
        r == probe_outcome(ran),
{
    read_probe(ran)
}

/// What making sure the application is stopped comes to, given what running
/// the `Script::EnsureNotRunning` script gave: its output does not matter.
pub open spec fn stop_outcome(ran: Result<String, Failure>) -> Result<(), Failure> {
    match ran {
        Ok(_) => Ok(()),
        Err(f) => Err(f),
    }
}

/// Interprets the result of running the `Script::EnsureNotRunning` script.
pub fn ensure_app_not_running(ran: Result<String, Failure>) -> (r: Result<(), Failure>)
    ensures
        r == stop_outcome(ran),
{
    match ran {
        Ok(_) => Ok(()),
        Err(f) => Err(f),
    }
}

/// Stopping is idempotent: whenever the reconciliation script runs without
/// error, whatever it printed, the stop request succeeds, so a second request
/// right after a successful first one succeeds as well.
pub proof fn lemma_stop_idempotent(first: String, second: String)
    ensures
        stop_outcome(Ok(first)) == Ok::<(), Failure>(()),
        stop_outcome(Ok(second)) == stop_outcome(Ok(first)),
{
}

} // verus!
