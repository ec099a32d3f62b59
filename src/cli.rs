use vstd::prelude::*;

verus! {

/// How much is logged.
#[derive(Debug, Clone, Copy, PartialEq, Eq, Structural)]
pub enum LogLevel {
    Warn,
    Info,
    Debug,
    Trace,
}

/// The log level for a number of `--verbose` flags.
pub open spec fn spec_log_level(verbosity: u64) -> LogLevel {
    if verbosity == 0 {
        LogLevel::Warn
    } else if verbosity == 1 {
        LogLevel::Info
    } else if verbosity == 2 {
        LogLevel::Debug
    } else {
        LogLevel::Trace
    }
}

/// Maps the number of `--verbose` flags to a log level: none logs warnings
/// only, one adds information, two debugging output, three or more tracing.
pub fn log_level(verbosity: u64) -> (r: LogLevel)
    ensures
        r == spec_log_level(verbosity),
{
    match verbosity {
        0 => LogLevel::Warn,
        1 => LogLevel::Info,
        2 => LogLevel::Debug,
        _ => LogLevel::Trace,
    }
}

/// A command written out for the user: each argument followed by one space.
pub open spec fn spec_command_line(cmd: Seq<Seq<char>>) -> Seq<char>
    decreases cmd.len(),
{
    if cmd.len() == 0 {
        Seq::empty()
    } else {
        spec_command_line(cmd.drop_last()) + cmd.last() + seq![' ']
    }
}

/// The text shown to the user for a command before it runs.
pub fn command_line(cmd: &Vec<String>) -> (r: String)
    ensures
        r@ == spec_command_line(cmd.deep_view()),
{
    let mut line = String::new();
    let mut i: usize = 0;
    while i < cmd.len()
        invariant
            0 <= i <= cmd@.len(),
            line@ == spec_command_line(cmd.deep_view().subrange(0, i as int)),
        decreases cmd@.len() - i,
    {
        proof {
            reveal_strlit(" ");
            let prefix = cmd.deep_view().subrange(0, i + 1);
            assert(prefix.drop_last() =~= cmd.deep_view().subrange(0, i as int));
        }
        line.append(cmd[i].as_str());
        line.append(" ");
        i = i + 1;
    }
    assert(cmd.deep_view().subrange(0, cmd@.len() as int) =~= cmd.deep_view());
    line
}

} // verus!
