//! Invocation descriptors for the scriptable editor's merge operations.
//!
//! The editor runs a batch script against the plugin.  The caller must
//! first write the plugin list file, then launch the editor, dismiss its
//! module-selection dialog, wait for the log, and classify: the token
//! `Error:` in the log is fatal, the token `Completed: No Errors.` is
//! expected and its absence a warning, and — unlike the Creation Kit — a
//! log that never appeared is itself fatal, because the merge's success
//! can only be read from it.

use vstd::prelude::*;

use crate::invoker::ToolRun;
use crate::strutil::{concat2, concat3, join_path, joined_path, seq_views};

verus! {

/// Builds the invocation descriptors for the scriptable editor.
#[derive(Debug)]
pub struct FO4EditRunner {
    /// Path of the editor executable.
    pub fo4edit_exe: String,
    /// The game directory the editor runs in.
    pub fallout4_dir: String,
    /// Path of the overlay manager executable, when the editor must be
    /// launched through it.
    pub mo2_path: Option<String>,
}

/// A planned editor run: the plugin list file to write first, and the
/// launch-and-classify descriptor.
#[derive(Debug)]
pub struct Fo4EditRun {
    /// The plugin list file the editor reads.
    pub plugins_file: String,
    /// What to write into it: the plugin's name.
    pub plugins_content: String,
    /// The launch descriptor.
    pub tool: ToolRun,
}

impl FO4EditRunner {
    /// Create a new FO4Edit runner.
    pub fn new(fo4edit_exe: &str, fallout4_dir: &str) -> (r: FO4EditRunner)
        ensures
            r.fo4edit_exe@ == fo4edit_exe@,
            r.fallout4_dir@ == fallout4_dir@,
            r.mo2_path is None,
    {
        FO4EditRunner {
            fo4edit_exe: fo4edit_exe.to_owned(),
            fallout4_dir: fallout4_dir.to_owned(),
            mo2_path: None,
        }
    }

    /// Set the overlay manager path for launches through its filesystem.
    pub fn with_mo2(self, mo2_path: &str) -> (r: FO4EditRunner)
        ensures
            r.fo4edit_exe == self.fo4edit_exe,
            r.fallout4_dir == self.fallout4_dir,
            r.mo2_path matches Some(p) && p@ == mo2_path@,
    {
        FO4EditRunner { mo2_path: Some(mo2_path.to_owned()), ..self }
    }

    /// A planned script run over `plugin`: plugin list and log in the
    /// caller's scratch directory, the script named in the arguments, the
    /// `Error:` token fatal, the completion token expected, and a missing
    /// log fatal.
    pub open spec fn is_script_run(
        &self,
        r: Fo4EditRun,
        plugin: Seq<char>,
        script: Seq<char>,
        temp_dir: Seq<char>,
    ) -> bool {
        let plugins_file = joined_path(temp_dir, "FO4Edit_Plugins_"@ + plugin + ".txt"@);
        let log_file = joined_path(temp_dir, "FO4Edit_Log_"@ + plugin + ".txt"@);
        &&& r.plugins_file@ == plugins_file
        &&& r.plugins_content@ == plugin
        &&& r.tool.exe@ == self.fo4edit_exe@
        &&& seq_views(r.tool.args@) == seq![
            "-fo4"@,
            "-autoexit"@,
            "-P:"@ + plugins_file,
            "-Script:"@ + script,
            "-Mod:"@ + plugin,
            "-log:"@ + log_file,
        ]
        &&& r.tool.log_file matches Some(l) && l@ == log_file
        &&& r.tool.delete_log_first
        &&& seq_views(r.tool.fatal_patterns@) == seq!["Error:"@]
        &&& r.tool.success_pattern matches Some(sp) && sp@ == "Completed: No Errors."@
        &&& r.tool.missing_log_fatal
    }

    /// The run that merges the combined-objects plugin into the main one.
    pub fn merge_combined_objects(&self, plugin_name: &str, temp_dir: &str) -> (r: Fo4EditRun)
        ensures
            self.is_script_run(
                r,
                plugin_name@,
                "Batch_FO4MergeCombinedObjectsAndCheck.pas"@,
                temp_dir@,
            ),
    {
        self.run_script(plugin_name, "Batch_FO4MergeCombinedObjectsAndCheck.pas", temp_dir)
    }

    /// The run that merges the visibility plugin into the main one.
    pub fn merge_previs(&self, plugin_name: &str, temp_dir: &str) -> (r: Fo4EditRun)
        ensures
            self.is_script_run(r, plugin_name@, "Batch_FO4MergePrevisandCleanRefr.pas"@, temp_dir@),
    {
        self.run_script(plugin_name, "Batch_FO4MergePrevisandCleanRefr.pas", temp_dir)
    }

    /// Builds the descriptor for one script run.
    fn run_script(&self, plugin_name: &str, script_name: &str, temp_dir: &str) -> (r: Fo4EditRun)
        ensures
            self.is_script_run(r, plugin_name@, script_name@, temp_dir@),
    {
        let plugins_name = concat3("FO4Edit_Plugins_", plugin_name, ".txt");
        let log_name = concat3("FO4Edit_Log_", plugin_name, ".txt");
        let plugins_file = join_path(temp_dir, plugins_name.as_str());
        let log_file = join_path(temp_dir, log_name.as_str());

        let mut args: Vec<String> = Vec::new();
        args.push("-fo4".to_owned());
        args.push("-autoexit".to_owned());
        args.push(concat2("-P:", plugins_file.as_str()));
        args.push(concat2("-Script:", script_name));
        args.push(concat2("-Mod:", plugin_name));
        args.push(concat2("-log:", log_file.as_str()));
        proof {
            assert(seq_views(args@) =~= seq![
                "-fo4"@,
                "-autoexit"@,
                "-P:"@ + plugins_file@,
                "-Script:"@ + script_name@,
                "-Mod:"@ + plugin_name@,
                "-log:"@ + log_file@,
            ]);
        }
        let mut fatal_patterns: Vec<String> = Vec::new();
        fatal_patterns.push("Error:".to_owned());
        proof {
            assert(seq_views(fatal_patterns@) =~= seq!["Error:"@]);
        }
        Fo4EditRun {
            plugins_file,
            plugins_content: plugin_name.to_owned(),
            tool: ToolRun {
                exe: self.fo4edit_exe.clone(),
                args,
                log_file: Some(log_file),
                delete_log_first: true,
                fatal_patterns,
                success_pattern: Some("Completed: No Errors.".to_owned()),
                missing_log_fatal: true,
            },
        }
    }
}

} // verus!
