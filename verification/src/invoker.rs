//! Classification of an external tool run from its log file.
//!
//! The external tools this pipeline drives return unreliable exit codes: a
//! run can exit non-zero after full success and zero after partial failure.
//! The log file is therefore the sole source of truth.  [`classify`] turns
//! the observed log into the run's outcome; the exit code is carried along
//! for diagnostics but never decides anything, which the contract shows by
//! computing the verdict from the log alone.

use vstd::prelude::*;

use crate::strutil::{contains_seq, seq_views, str_contains};

verus! {

/// An invocation descriptor for one external tool run: the command to
/// launch, the log file that tells the truth about it, and the rules that
/// read that log.
#[derive(Debug)]
pub struct ToolRun {
    /// Path of the executable to launch.
    pub exe: String,
    /// Arguments handed to the executable.
    pub args: Vec<String>,
    /// Path of the log file the tool writes, if one is expected.
    pub log_file: Option<String>,
    /// Whether a pre-existing log file must be deleted before the launch,
    /// so that classification never reads stale data.
    pub delete_log_first: bool,
    /// Substrings whose presence in the log is fatal, in the order they
    /// are checked.
    pub fatal_patterns: Vec<String>,
    /// Substring whose absence from the log is a warning, never an error.
    pub success_pattern: Option<String>,
    /// Whether a log file that never appeared is itself fatal.  Most steps
    /// treat a missing log as a warning; a step that needs log-derived
    /// evidence sets this.
    pub missing_log_fatal: bool,
}

/// A non-fatal observation about a run.
#[derive(Debug, Clone, Copy, PartialEq, Eq, Structural)]
pub enum ToolWarning {
    /// The expected log file never appeared.
    LogMissing,
    /// The configured success token was absent from the log.
    SuccessTokenMissing,
}

/// A fatal classification verdict.
#[derive(Debug, Clone, PartialEq, Eq)]
pub enum ToolError {
    /// A registered fatal substring occurred in the log.
    LogFatalPattern { pattern: String },
    /// The log never appeared, and the run required log evidence.
    LogMissing,
}

/// What a successful run looked like.
#[derive(Debug)]
pub struct ToolOutcome {
    /// The process exit code, recorded for diagnostics only.
    pub exit_code: Option<i32>,
    /// Non-fatal observations collected during classification.
    pub warnings: Vec<ToolWarning>,
}

/// Index of the first pattern at or after `i` that the log contains.
pub open spec fn first_fatal_from(patterns: Seq<Seq<char>>, content: Seq<char>, i: int) -> Option<
    int,
>
    decreases patterns.len() - i,
{
    if i < 0 || i >= patterns.len() {
        None
    } else if contains_seq(content, patterns[i]) {
        Some(i)
    } else {
        first_fatal_from(patterns, content, i + 1)
    }
}

/// Index of the first registered fatal pattern the log contains, if any.
pub open spec fn first_fatal(patterns: Seq<Seq<char>>, content: Seq<char>) -> Option<int> {
    first_fatal_from(patterns, content, 0)
}

/// The view of an optionally observed log.
pub open spec fn view_log(log: Option<&String>) -> Option<Seq<char>> {
    match log {
        Some(s) => Some(s@),
        None => None,
    }
}

/// The verdict of a run as a function of its rules and its log — and of
/// nothing else.  `Ok` carries the warnings the run earns.
pub open spec fn spec_classify(run: ToolRun, log: Option<Seq<char>>) -> Result<
    Seq<ToolWarning>,
    ToolError,
> {
    match log {
        None => {
            if run.missing_log_fatal {
                Err(ToolError::LogMissing)
            } else {
                Ok(seq![ToolWarning::LogMissing])
            }
        },
        Some(content) => {
            match first_fatal(seq_views(run.fatal_patterns@), content) {
                Some(i) => Err(ToolError::LogFatalPattern { pattern: run.fatal_patterns@[i] }),
                None => {
                    match run.success_pattern {
                        Some(sp) => {
                            if !contains_seq(content, sp@) {
                                Ok(seq![ToolWarning::SuccessTokenMissing])
                            } else {
                                Ok(Seq::empty())
                            }
                        },
                        None => Ok(Seq::empty()),
                    }
                },
            }
        },
    }
}

/// Classify a finished tool run from its log.
///
/// The verdict is exactly `spec_classify` of the log: fatal when the log
/// holds a registered fatal substring (the first such pattern, in
/// registration order, is reported), fatal when the log is missing but
/// required, a warning when the log is missing and tolerated or when the
/// success token is configured and absent, and a clean success otherwise.
/// The exit code is recorded in the outcome and plays no part in the
/// verdict.
pub fn classify(run: &ToolRun, exit_code: Option<i32>, log: Option<&String>) -> (r: Result<
    ToolOutcome,
    ToolError,
>)
    ensures
        match spec_classify(*run, view_log(log)) {
            Ok(ws) => r matches Ok(out) && out.warnings@ == ws && out.exit_code == exit_code,
            Err(e) => r == Result::<ToolOutcome, ToolError>::Err(e),
        },
{
    match log {
        None => {
            if run.missing_log_fatal {
                Err(ToolError::LogMissing)
            } else {
                let mut warnings: Vec<ToolWarning> = Vec::new();
                warnings.push(ToolWarning::LogMissing);
                proof {
                    assert(warnings@ =~= seq![ToolWarning::LogMissing]);
                }
                Ok(ToolOutcome { exit_code, warnings })
            }
        },
        Some(content) => {
            let ghost pviews = seq_views(run.fatal_patterns@);
            let np = run.fatal_patterns.len();
            let mut i: usize = 0;
            while i < np
                invariant
                    i <= np,
                    np == run.fatal_patterns@.len(),
                    view_log(log) == Some(content@),
                    pviews == seq_views(run.fatal_patterns@),
                    first_fatal(pviews, content@) == first_fatal_from(pviews, content@, i as int),
                decreases np - i,
            {
                if str_contains(content.as_str(), run.fatal_patterns[i].as_str()) {
                    let p = run.fatal_patterns[i].clone();
                    proof {
                        assert(pviews[i as int] == run.fatal_patterns@[i as int]@);
                        assert(first_fatal_from(pviews, content@, i as int) == Some(i as int));
                        assert(p == run.fatal_patterns@[i as int]);
                        assert(first_fatal(seq_views(run.fatal_patterns@), content@) == Some(
                            i as int,
                        ));
                        assert(spec_classify(*run, view_log(log)) == Result::<
                            Seq<ToolWarning>,
                            ToolError,
                        >::Err(ToolError::LogFatalPattern { pattern: p }));
                    }
                    return Err(ToolError::LogFatalPattern { pattern: p });
                }
                proof {
                    assert(pviews[i as int] == run.fatal_patterns@[i as int]@);
                }
                i += 1;
            }
            let mut warnings: Vec<ToolWarning> = Vec::new();
            match &run.success_pattern {
                Some(sp) => {
                    if !str_contains(content.as_str(), sp.as_str()) {
                        warnings.push(ToolWarning::SuccessTokenMissing);
                        proof {
                            assert(warnings@ =~= seq![ToolWarning::SuccessTokenMissing]);
                        }
                    }
                },
                None => {},
            }
            Ok(ToolOutcome { exit_code, warnings })
        },
    }
}

} // verus!
