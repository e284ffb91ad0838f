use vstd::prelude::*;

verus! {

/// The character for a single decimal digit.
pub open spec fn digit_char(d: nat) -> char {
    if d == 0 {
        '0'
    } else if d == 1 {
        '1'
    } else if d == 2 {
        '2'
    } else if d == 3 {
        '3'
    } else if d == 4 {
        '4'
    } else if d == 5 {
        '5'
    } else if d == 6 {
        '6'
    } else if d == 7 {
        '7'
    } else if d == 8 {
        '8'
    } else {
        '9'
    }
}

/// The decimal representation of `n`, most significant digit first,
/// with no leading zero except for `n == 0` itself.
pub open spec fn decimal_digits(n: nat) -> Seq<char>
    decreases n,
{
    if n < 10 {
        seq![digit_char(n)]
    } else {
        decimal_digits(n / 10).push(digit_char(n % 10))
    }
}

/// The one-character string for the decimal digit `d`.
fn digit_str(d: u32) -> (r: &'static str)
    requires
        d < 10,
    ensures
        r@ == seq![digit_char(d as nat)],
{
    let r: &'static str = if d == 0 {
        "0"
    } else if d == 1 {
        "1"
    } else if d == 2 {
        "2"
    } else if d == 3 {
        "3"
    } else if d == 4 {
        "4"
    } else if d == 5 {
        "5"
    } else if d == 6 {
        "6"
    } else if d == 7 {
        "7"
    } else if d == 8 {
        "8"
    } else {
        "9"
    };
    proof {
        reveal_strlit("0");
        reveal_strlit("1");
        reveal_strlit("2");
        reveal_strlit("3");
        reveal_strlit("4");
        reveal_strlit("5");
        reveal_strlit("6");
        reveal_strlit("7");
        reveal_strlit("8");
        reveal_strlit("9");
        assert(r@ =~= seq![digit_char(d as nat)]);
    }
    r
}

/// Renders `pid` in decimal, the form in which the kill utilities take
/// their target argument.
pub fn pid_to_decimal(pid: u32) -> (s: String)
    ensures
        s@ == decimal_digits(pid as nat),
    decreases pid,
{
    if pid < 10 {
        let s = String::from_str(digit_str(pid));
        proof {
            assert(s@ =~= decimal_digits(pid as nat));
        }
        s
    } else {
        let mut s = pid_to_decimal(pid / 10);
        s.append(digit_str(pid % 10));
        proof {
            assert((pid / 10) as nat == (pid as nat) / 10);
            assert((pid % 10) as nat == (pid as nat) % 10);
            assert(s@ =~= decimal_digits(pid as nat));
        }
        s
    }
}

/// Which kill primitive the target platform offers.
#[derive(Clone, Copy, PartialEq, Eq, Structural, Debug)]
pub enum Platform {
    /// The platform ships a hierarchical task-kill utility that can
    /// forcefully terminate a whole process tree.
    HierarchicalKill,
    /// The platform offers only a direct, non-catchable termination
    /// signal, sent to the single target process. Note: this does not
    /// reach the target's descendants unless the target leads its own
    /// process group and the signal is directed at the group.
    DirectSignal,
}

/// A fully rendered invocation of a kill utility: the program to spawn
/// and its arguments, in order. Ephemeral: built for one kill attempt
/// and consumed immediately.
pub struct KillPlan {
    pub program: String,
    pub args: Vec<String>,
}

/// What the plan for killing the tree under `pid` on `platform` must
/// hold: a forceful recursive tree-kill on the hierarchical platform, a
/// single unconditional termination signal elsewhere.
pub open spec fn plan_is_for(plan: KillPlan, platform: Platform, pid: u32) -> bool {
    match platform {
        Platform::HierarchicalKill => {
            &&& plan.program@ == "taskkill"@
            &&& plan.args@.len() == 4
            &&& plan.args@[0]@ == "/F"@
            &&& plan.args@[1]@ == "/T"@
            &&& plan.args@[2]@ == "/PID"@
            &&& plan.args@[3]@ == decimal_digits(pid as nat)
        },
        Platform::DirectSignal => {
            &&& plan.program@ == "kill"@
            &&& plan.args@.len() == 2
            &&& plan.args@[0]@ == "-9"@
            &&& plan.args@[1]@ == decimal_digits(pid as nat)
        },
    }
}

/// Builds the kill invocation for `pid` on `platform`. The caller spawns
/// it; building the plan performs no external work.
pub fn build_kill_plan(platform: Platform, pid: u32) -> (plan: KillPlan)
    ensures
        plan_is_for(plan, platform, pid),
{
    let pid_text = pid_to_decimal(pid);
    match platform {
        Platform::HierarchicalKill => {
            let mut args: Vec<String> = Vec::new();
            args.push(String::from_str("/F"));
            args.push(String::from_str("/T"));
            args.push(String::from_str("/PID"));
            args.push(pid_text);
            KillPlan { program: String::from_str("taskkill"), args }
        },
        Platform::DirectSignal => {
            let mut args: Vec<String> = Vec::new();
            args.push(String::from_str("-9"));
            args.push(pid_text);
            KillPlan { program: String::from_str("kill"), args }
        },
    }
}

/// What the operating system reported back for one kill attempt.
#[derive(Clone, Copy, PartialEq, Eq, Structural, Debug)]
pub enum KillOutcome {
    /// The utility ran and exited successfully.
    Exited,
    /// The utility ran but reported failure (the target may already be
    /// gone, or the caller may lack permission).
    ExitedWithFailure,
    /// The utility could not be spawned at all.
    SpawnFailed,
}

/// The severity of the diagnostic that a kill attempt leaves behind.
/// Termination is best-effort: no outcome is an error to the caller,
/// only a log entry.
#[derive(Clone, Copy, PartialEq, Eq, Structural, Debug)]
pub enum Severity {
    Info,
    Warning,
    Error,
}

/// Classifies the outcome of one kill attempt as a diagnostic severity.
/// Total over every outcome: a failed kill never raises, it is only
/// logged. A single attempt is made; no outcome asks for a retry.
pub fn interpret_kill_outcome(outcome: KillOutcome) -> (s: Severity)
    ensures
        s is Info <==> outcome is Exited,
        s is Warning <==> outcome is ExitedWithFailure,
        s is Error <==> outcome is SpawnFailed,
{
    match outcome {
        KillOutcome::Exited => Severity::Info,
        KillOutcome::ExitedWithFailure => Severity::Warning,
        KillOutcome::SpawnFailed => Severity::Error,
    }
}

} // verus!
