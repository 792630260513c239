//! Invocation descriptors for the Creation Kit's batch operations.
//!
//! The Creation Kit's exit codes are unreliable, so every descriptor built
//! here names the log file as the sole success oracle and registers the one
//! log token that is always fatal: the handle-limit overflow.  The previs
//! step checks one further, step-specific token after the generic
//! classification succeeds.

use vstd::prelude::*;

use crate::config::BuildMode;
use crate::invoker::{ToolError, ToolRun};
use crate::strutil::{concat2, contains_seq, opt_view, seq_views, str_contains};

verus! {

/// The log token of the Creation Kit's handle-array overflow: always fatal.
pub open spec fn handle_limit_token() -> Seq<char> {
    "OUT OF HANDLE ARRAY ENTRIES"@
}

/// The log token of an incomplete visibility task: fatal for the previs
/// generation step only.
pub open spec fn previs_incomplete_token() -> Seq<char> {
    "visibility task did not complete"@
}

/// Builds the invocation descriptors for the Creation Kit.
#[derive(Debug)]
pub struct CreationKitRunner {
    /// Path of the Creation Kit executable.
    pub ck_exe: String,
    /// The game directory the Creation Kit runs in.
    pub fallout4_dir: String,
    /// The Creation Kit's log file, when one is configured.
    pub log_file: Option<String>,
    /// Path of the overlay manager executable, when the Creation Kit must
    /// be launched through it.
    pub mo2_path: Option<String>,
}

impl CreationKitRunner {
    /// A run descriptor for the Creation Kit: the given arguments, the
    /// configured log deleted before launch and classified afterwards, with
    /// the handle-limit token fatal and a missing log tolerated.
    pub open spec fn is_ck_run(&self, r: ToolRun, args: Seq<Seq<char>>) -> bool {
        &&& r.exe@ == self.ck_exe@
        &&& seq_views(r.args@) == args
        &&& opt_view(r.log_file) == opt_view(self.log_file)
        &&& r.delete_log_first
        &&& seq_views(r.fatal_patterns@) == seq![handle_limit_token()]
        &&& r.success_pattern is None
        &&& !r.missing_log_fatal
    }

    /// Create a new CreationKit runner.
    pub fn new(ck_exe: &str, fallout4_dir: &str) -> (r: CreationKitRunner)
        ensures
            r.ck_exe@ == ck_exe@,
            r.fallout4_dir@ == fallout4_dir@,
            r.log_file is None,
            r.mo2_path is None,
    {
        CreationKitRunner {
            ck_exe: ck_exe.to_owned(),
            fallout4_dir: fallout4_dir.to_owned(),
            log_file: None,
            mo2_path: None,
        }
    }

    /// Set the log file path.
    pub fn with_log_file(self, log_file: &str) -> (r: CreationKitRunner)
        ensures
            r.ck_exe == self.ck_exe,
            r.fallout4_dir == self.fallout4_dir,
            r.log_file matches Some(l) && l@ == log_file@,
            r.mo2_path == self.mo2_path,
    {
        CreationKitRunner { log_file: Some(log_file.to_owned()), ..self }
    }

    /// Set the overlay manager path for launches through its filesystem.
    pub fn with_mo2(self, mo2_path: &str) -> (r: CreationKitRunner)
        ensures
            r.ck_exe == self.ck_exe,
            r.fallout4_dir == self.fallout4_dir,
            r.log_file == self.log_file,
            r.mo2_path matches Some(p) && p@ == mo2_path@,
    {
        CreationKitRunner { mo2_path: Some(mo2_path.to_owned()), ..self }
    }

    /// Builds the three-argument run descriptor the batch operations share.
    fn ck_run(&self, arg0: String, arg1: Option<&str>, arg2: Option<&str>) -> (r: ToolRun)
        requires
            arg1 is Some <==> arg2 is Some,
        ensures
            arg1 matches Some(a1) ==> (arg2 matches Some(a2) && self.is_ck_run(
                r,
                seq![arg0@, a1@, a2@],
            )),
            arg1 is None ==> self.is_ck_run(r, seq![arg0@]),
    {
        let mut args: Vec<String> = Vec::new();
        let ghost a0 = arg0@;
        args.push(arg0);
        match arg1 {
            Some(a1) => {
                args.push(a1.to_owned());
                args.push(arg2.unwrap().to_owned());
                proof {
                    assert(seq_views(args@) =~= seq![a0, arg1->0@, arg2->0@]);
                }
            },
            None => {
                proof {
                    assert(seq_views(args@) =~= seq![a0]);
                }
            },
        }
        let mut fatal_patterns: Vec<String> = Vec::new();
        fatal_patterns.push("OUT OF HANDLE ARRAY ENTRIES".to_owned());
        proof {
            assert(seq_views(fatal_patterns@) =~= seq![handle_limit_token()]);
        }
        ToolRun {
            exe: self.ck_exe.clone(),
            args,
            log_file: self.log_file.clone(),
            delete_log_first: true,
            fatal_patterns,
            success_pattern: None,
            missing_log_fatal: false,
        }
    }

    /// The run that generates precombined meshes: `clean all` in clean
    /// mode, `filtered all` otherwise.
    pub fn generate_precombined(&self, plugin_name: &str, build_mode: BuildMode) -> (r: ToolRun)
        ensures
            self.is_ck_run(
                r,
                seq![
                    "-GeneratePrecombined:"@ + plugin_name@,
                    if build_mode is Clean {
                        "clean"@
                    } else {
                        "filtered"@
                    },
                    "all"@,
                ],
            ),
    {
        let arg0 = concat2("-GeneratePrecombined:", plugin_name);
        let arg1: &str = match build_mode {
            BuildMode::Clean => "clean",
            BuildMode::Filtered => "filtered",
            BuildMode::Xbox => "filtered",
        };
        self.ck_run(arg0, Some(arg1), Some("all"))
    }

    /// The run that compresses the geometry side-file; the output name is
    /// the Creation Kit's own affair.
    pub fn compress_psg(&self, plugin_name: &str) -> (r: ToolRun)
        ensures
            self.is_ck_run(r, seq!["-CompressPSG:"@ + plugin_name@]),
    {
        let arg0 = concat2("-CompressPSG:", plugin_name);
        self.ck_run(arg0, None, None)
    }

    /// The run that builds the auxiliary index from the plugin.
    pub fn build_cdx(&self, plugin_name: &str) -> (r: ToolRun)
        ensures
            self.is_ck_run(r, seq!["-BuildCDX:"@ + plugin_name@]),
    {
        let arg0 = concat2("-BuildCDX:", plugin_name);
        self.ck_run(arg0, None, None)
    }

    /// The run that generates visibility data, always `clean all`.
    pub fn generate_previs(&self, plugin_name: &str) -> (r: ToolRun)
        ensures
            self.is_ck_run(
                r,
                seq!["-GeneratePreVisData:"@ + plugin_name@, "clean"@, "all"@],
            ),
    {
        let arg0 = concat2("-GeneratePreVisData:", plugin_name);
        self.ck_run(arg0, Some("clean"), Some("all"))
    }
}

/// The previs step's additional check, made after the generic
/// classification succeeded: the visibility-incomplete token in the log is
/// fatal, and a missing log stays tolerated.
pub fn check_previs_log(log: Option<&String>) -> (r: Result<(), ToolError>)
    ensures
        match log {
            None => r is Ok,
            Some(content) => {
                if contains_seq(content@, previs_incomplete_token()) {
                    r matches Err(e) && (e matches ToolError::LogFatalPattern { pattern }
                        && pattern@ == previs_incomplete_token())
                } else {
                    r is Ok
                }
            },
        },
{
    match log {
        None => Ok(()),
        Some(content) => {
            if str_contains(content.as_str(), "visibility task did not complete") {
                Err(
                    ToolError::LogFatalPattern {
                        pattern: "visibility task did not complete".to_owned(),
                    },
                )
            } else {
                Ok(())
            }
        },
    }
}

} // verus!
