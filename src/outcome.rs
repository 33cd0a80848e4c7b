//! How a plugin's termination, or a failure to find or start it, becomes the
//! dispatcher's exit code and its one error message.
use vstd::prelude::*;

verus! {

/// Exit code for an unknown command or a plugin that could not be started.
pub const NOT_FOUND_CODE: i32 = 127;

/// Why a plugin could not be started.
pub enum LaunchError {
    /// The executable was gone when it was started.
    NotFound,
    /// Any other failure, with the system's description of it.
    Other(String),
}

/// How a plugin run ended.
pub enum ExitOutcome {
    Success,
    ExitCode(i32),
    Signaled(i32),
    LaunchFailed(LaunchError),
}

/// The single error report of an invocation.
pub struct CliError {
    pub message: String,
    pub exit_code: i32,
}

/// The outcome of a run that exited normally with `code`.
pub open spec fn spec_from_exit_code(code: i32) -> ExitOutcome {
    if code == 0 {
        ExitOutcome::Success
    } else {
        ExitOutcome::ExitCode(code)
    }
}

/// The exit code the dispatcher reports for an outcome.
pub open spec fn spec_exit_status(o: ExitOutcome) -> i32 {
    match o {
        ExitOutcome::Success => 0,
        ExitOutcome::ExitCode(c) => c,
        ExitOutcome::Signaled(s) => s,
        ExitOutcome::LaunchFailed(_) => NOT_FOUND_CODE,
    }
}

pub open spec fn digit_char(d: nat) -> char {
    if d == 0 { '0' }
    else if d == 1 { '1' }
    else if d == 2 { '2' }
    else if d == 3 { '3' }
    else if d == 4 { '4' }
    else if d == 5 { '5' }
    else if d == 6 { '6' }
    else if d == 7 { '7' }
    else if d == 8 { '8' }
    else { '9' }
}

/// The decimal digits of `n`, most significant first.
pub open spec fn decimal(n: nat) -> Seq<char>
    decreases n,
{
    if n < 10 {
        seq![digit_char(n)]
    } else {
        decimal(n / 10).push(digit_char(n % 10))
    }
}

/// The decimal rendering of `i`, with a leading `-` when negative.
pub open spec fn signed_decimal(i: int) -> Seq<char> {
    if i < 0 {
        seq!['-'] + decimal((-i) as nat)
    } else {
        decimal(i as nat)
    }
}

pub open spec fn not_found_message(suggestion: Option<Seq<char>>) -> Seq<char> {
    match suggestion {
        None => "No such subcommand"@,
        Some(s) => "No such subcommand\n\n\tDid you mean `"@ + s + "`?\n"@,
    }
}

pub open spec fn signal_message(signal: i32) -> Seq<char> {
    "subcommand failed with signal: "@ + signed_decimal(signal as int)
}

/// The error reported for an outcome, if any: its message and exit code.
pub open spec fn spec_outcome_error(o: ExitOutcome) -> Option<(Seq<char>, i32)> {
    match o {
        ExitOutcome::Success => None,
        ExitOutcome::ExitCode(c) => Some((Seq::empty(), c)),
        ExitOutcome::Signaled(s) => Some((signal_message(s), s)),
        ExitOutcome::LaunchFailed(LaunchError::NotFound) => Some(
            (not_found_message(None), NOT_FOUND_CODE),
        ),
        ExitOutcome::LaunchFailed(LaunchError::Other(m)) => Some(
            ("Subcommand failed to run: "@ + m@, NOT_FOUND_CODE),
        ),
    }
}

impl ExitOutcome {
    /// The outcome of a run that exited normally with `code`.
    pub fn from_exit_code(code: i32) -> (r: ExitOutcome)
        ensures
            r == spec_from_exit_code(code),
    {
        if code == 0 {
            ExitOutcome::Success
        } else {
            ExitOutcome::ExitCode(code)
        }
    }

    /// The outcome of a run that ended with an exit `code` or, failing
    /// that, with a `signal`. A run that reports neither counts as a failure
    /// to run.
    pub fn from_termination(code: Option<i32>, signal: Option<i32>) -> (r: ExitOutcome)
        ensures
            match (code, signal) {
                (Some(c), _) => r == spec_from_exit_code(c),
                (None, Some(s)) => r == ExitOutcome::Signaled(s),
                (None, None) => r matches ExitOutcome::LaunchFailed(LaunchError::Other(m)) && m@
                    == "terminated without an exit code"@,
            },
    {
        match (code, signal) {
            (Some(c), _) => ExitOutcome::from_exit_code(c),
            (None, Some(s)) => ExitOutcome::Signaled(s),
            (None, None) => ExitOutcome::LaunchFailed(
                LaunchError::Other(String::from_str("terminated without an exit code")),
            ),
        }
    }

    /// The exit code the dispatcher reports for this outcome.
    pub fn exit_status(&self) -> (r: i32)
        ensures
            r == spec_exit_status(*self),
    {
        match self {
            ExitOutcome::Success => 0,
            ExitOutcome::ExitCode(c) => *c,
            ExitOutcome::Signaled(s) => *s,
            ExitOutcome::LaunchFailed(_) => NOT_FOUND_CODE,
        }
    }

    /// The error to report for this outcome; none for a success. A non-zero
    /// exit is reported with an empty message: the plugin has already said
    /// what went wrong on the shared streams.
    pub fn to_error(&self) -> (r: Option<CliError>)
        ensures
            match spec_outcome_error(*self) {
                None => r is None,
                Some((m, c)) => r matches Some(e) && e.message@ == m && e.exit_code == c,
            },
    {
        match self {
            ExitOutcome::Success => None,
            ExitOutcome::ExitCode(c) => Some(CliError { message: String::new(), exit_code: *c }),
            ExitOutcome::Signaled(s) => {
                let mut message = String::from_str("subcommand failed with signal: ");
                push_signed_decimal(&mut message, *s);
                Some(CliError { message, exit_code: *s })
            },
            ExitOutcome::LaunchFailed(LaunchError::NotFound) => Some(unknown_command_error(None)),
            ExitOutcome::LaunchFailed(LaunchError::Other(m)) => {
                let mut message = String::from_str("Subcommand failed to run: ");
                message.append(m.as_str());
                Some(CliError { message, exit_code: NOT_FOUND_CODE })
            },
        }
    }
}

/// The error for a command that is neither builtin nor an installed plugin,
/// with the suggested alternative if there is one.
pub fn unknown_command_error(suggestion: Option<String>) -> (r: CliError)
    ensures
        r.exit_code == NOT_FOUND_CODE,
        r.message@ == not_found_message(
            match suggestion {
                Some(s) => Some(s@),
                None => None,
            },
        ),
{
    match suggestion {
        None => CliError { message: String::from_str("No such subcommand"), exit_code: NOT_FOUND_CODE },
        Some(s) => {
            let mut message = String::from_str("No such subcommand\n\n\tDid you mean `");
            message.append(s.as_str());
            message.append("`?\n");
            CliError { message, exit_code: NOT_FOUND_CODE }
        },
    }
}

fn digit_str(d: u32) -> (r: &'static str)
    requires
        d < 10,
    ensures
        r@ == seq![digit_char(d as nat)],
{
    proof {
        reveal_strlit("0");
        reveal_strlit("1");
        reveal_strlit("2");
        reveal_strlit("3");
        reveal_strlit("4");
        reveal_strlit("5");
        reveal_strlit("6");
        reveal_strlit("7");
        reveal_strlit("8");
        reveal_strlit("9");
    }
    let r = if d == 0 { "0" }
    else if d == 1 { "1" }
    else if d == 2 { "2" }
    else if d == 3 { "3" }
    else if d == 4 { "4" }
    else if d == 5 { "5" }
    else if d == 6 { "6" }
    else if d == 7 { "7" }
    else if d == 8 { "8" }
    else { "9" };
    assert(r@ =~= seq![digit_char(d as nat)]);
    r
}

/// Appends the decimal digits of `n` to `s`.
pub fn push_decimal(s: &mut String, n: u32)
    ensures
        final(s)@ == old(s)@ + decimal(n as nat),
    decreases n,
{
    if n >= 10 {
        push_decimal(s, n / 10);
    }
    s.append(digit_str(n % 10));
    proof {
        if n >= 10 {
            assert(decimal(n as nat) == decimal((n / 10) as nat).push(digit_char((n % 10) as nat)));
        }
    }
    assert(s@ =~= old(s)@ + decimal(n as nat));
}

/// Appends the decimal rendering of `i` to `s`.
pub fn push_signed_decimal(s: &mut String, i: i32)
    ensures
        final(s)@ == old(s)@ + signed_decimal(i as int),
{
    if i < 0 {
        proof {
            reveal_strlit("-");
        }
        s.append("-");
        let magnitude = (-(i as i64)) as u32;
        push_decimal(s, magnitude);
        assert(s@ =~= old(s)@ + signed_decimal(i as int));
    } else {
        push_decimal(s, i as u32);
    }
}

} // verus!
