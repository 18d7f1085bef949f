//! Resolution of worker output redirection.
//!
//! A launch may name a file for worker standard output and another for
//! standard error.  A debug-output override — the presence of a dedicated
//! environment variable — disables all redirection so that otherwise hidden
//! worker output can be observed.  When only a standard-output file is named,
//! both streams resolve to that one file.

use vstd::prelude::*;

verus! {

/// The name of the environment variable whose presence disables redirection.
pub const DEBUG_OUTPUT_VAR: &'static str = "LIBAFL_DEBUG_OUTPUT";

/// The view of an optional file path.
pub open spec fn opt_str_view(o: Option<String>) -> Option<Seq<char>> {
    match o {
        Some(s) => Some(s@),
        None => None,
    }
}

/// Where a process's standard output and standard error end up.
#[derive(Debug)]
pub enum StreamTargets {
    /// No redirection is applied; the streams stay as they are.
    Untouched,
    /// Both streams are redirected, each to the named file.
    Files { stdout_path: String, stderr_path: String },
}

/// What correctly resolved stream targets look like, given the debug
/// override and the two configured paths (as views).
pub open spec fn targets_ok(
    t: StreamTargets,
    debug_output: bool,
    stdout_file: Option<Seq<char>>,
    stderr_file: Option<Seq<char>>,
) -> bool {
    &&& (t is Untouched <==> (debug_output || stdout_file is None))
    &&& (t matches StreamTargets::Files { stdout_path, stderr_path } ==> !debug_output && (
    stdout_file matches Some(o) && stdout_path@ == o && stderr_path@ == (match stderr_file {
        Some(e) => e,
        None => o,
    })))
}

/// Resolves the redirection configuration for one process.
///
/// The debug-output override wins over everything: with it, no redirection is
/// applied at all.  Otherwise redirection happens exactly when a standard-
/// output file is named; a missing standard-error file falls back to the
/// standard-output file, so both streams then resolve to the same file.
pub fn resolve_redirection(
    debug_output: bool,
    stdout_file: &Option<String>,
    stderr_file: &Option<String>,
) -> (t: StreamTargets)
    ensures
        targets_ok(t, debug_output, opt_str_view(*stdout_file), opt_str_view(*stderr_file)),
        (!debug_output && stdout_file is Some && stderr_file is None) ==> (t
            matches StreamTargets::Files { stdout_path, stderr_path } && stdout_path@
            == stderr_path@),
{
    if debug_output {
        return StreamTargets::Untouched;
    }
    match stdout_file {
        None => StreamTargets::Untouched,
        Some(out) => {
            let stdout_path = out.clone();
            let stderr_path = match stderr_file {
                Some(err) => err.clone(),
                None => out.clone(),
            };
            StreamTargets::Files { stdout_path, stderr_path }
        },
    }
}

/// How a re-executed child's standard streams are set up at spawn time.
///
/// The re-execution strategy cannot redirect a child from the inside, so the
/// parent redirects its own streams and decides whether each child inherits
/// them or is silenced.
#[derive(Debug, Clone, Copy, PartialEq, Eq, Structural)]
pub enum ChildStdio {
    /// The child shares the parent's (possibly redirected) streams.
    Inherit,
    /// The child's output is discarded.
    Null,
}

/// Decides a re-executed child's stream setup: the child inherits whenever
/// the debug override is set or any redirection file is named, and is
/// silenced otherwise.
pub fn child_stdio(
    debug_output: bool,
    stdout_file: &Option<String>,
    stderr_file: &Option<String>,
) -> (m: ChildStdio)
    ensures
        m is Inherit <==> (debug_output || stdout_file is Some || stderr_file is Some),
{
    if debug_output || stdout_file.is_some() || stderr_file.is_some() {
        ChildStdio::Inherit
    } else {
        ChildStdio::Null
    }
}

} // verus!
