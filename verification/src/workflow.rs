//! The resumable eight-step pipeline: the step catalogue, the schedule a
//! run follows, and each step's decisions.
//!
//! A run may start at any step, executes the remaining steps in ascending
//! order, skips the clean-mode-only ones when the mode is not clean, and
//! aborts at the first failure; re-invoking from the failed step is the
//! resumability contract.  Each step splits into pure decisions — its
//! precondition checks, the actions and tool runs it plans, and the
//! judgement of its postcondition — and the filesystem and process work
//! between them, which the caller performs: observe, decide, act, observe
//! again.

use vstd::prelude::*;

use crate::config::{BuildMode, Config};
use crate::invoker::ToolRun;
use crate::strutil::{concat2, join_path, joined_path, opt_view, seq_views};
use crate::tools::archive::{
    ArchiveAction, ArchiveError, ArchiveManager, ArchivePlan, OverlayCollection,
};
use crate::tools::creation_kit::{handle_limit_token, previs_incomplete_token, CreationKitRunner};
use crate::tools::fo4edit::{FO4EditRunner, Fo4EditRun};
use crate::validation::{get_plugin_base_name, plugin_base_name};

verus! {

/// The eight steps of the previs build, in their fixed execution order.
#[derive(Debug, Clone, Copy, PartialEq, Eq, Structural)]
pub enum WorkflowStep {
    GeneratePrecombined,
    MergeCombinedObjects,
    CreatePrecombinedArchive,
    CompressPSG,
    BuildCDX,
    GeneratePrevis,
    MergePrevis,
    AddPrevisToArchive,
}

impl WorkflowStep {
    /// Position of the step in the pipeline, 1 through 8.
    pub open spec fn spec_number(&self) -> u8 {
        match self {
            WorkflowStep::GeneratePrecombined => 1,
            WorkflowStep::MergeCombinedObjects => 2,
            WorkflowStep::CreatePrecombinedArchive => 3,
            WorkflowStep::CompressPSG => 4,
            WorkflowStep::BuildCDX => 5,
            WorkflowStep::GeneratePrevis => 6,
            WorkflowStep::MergePrevis => 7,
            WorkflowStep::AddPrevisToArchive => 8,
        }
    }

    /// Get step number (1-8).
    #[verifier::when_used_as_spec(spec_number)]
    pub fn number(&self) -> (n: u8)
        ensures
            n == self.spec_number(),
    {
        match self {
            WorkflowStep::GeneratePrecombined => 1,
            WorkflowStep::MergeCombinedObjects => 2,
            WorkflowStep::CreatePrecombinedArchive => 3,
            WorkflowStep::CompressPSG => 4,
            WorkflowStep::BuildCDX => 5,
            WorkflowStep::GeneratePrevis => 6,
            WorkflowStep::MergePrevis => 7,
            WorkflowStep::AddPrevisToArchive => 8,
        }
    }

    /// Get step name for display.
    pub fn name(&self) -> (r: &'static str)
        ensures
            self is GeneratePrecombined ==> r@ == "Generate Precombines Via CK"@,
            self is MergeCombinedObjects ==> r@ == "Merge PrecombineObjects.esp Via xEdit"@,
            self is CreatePrecombinedArchive ==> r@ == "Create BA2 Archive from Precombines"@,
            self is CompressPSG ==> r@ == "Compress PSG Via CK"@,
            self is BuildCDX ==> r@ == "Build CDX Via CK"@,
            self is GeneratePrevis ==> r@ == "Generate Previs Via CK"@,
            self is MergePrevis ==> r@ == "Merge Previs.esp Via xEdit"@,
            self is AddPrevisToArchive ==> r@ == "Add Previs files to BA2 Archive"@,
    {
        match self {
            WorkflowStep::GeneratePrecombined => "Generate Precombines Via CK",
            WorkflowStep::MergeCombinedObjects => "Merge PrecombineObjects.esp Via xEdit",
            WorkflowStep::CreatePrecombinedArchive => "Create BA2 Archive from Precombines",
            WorkflowStep::CompressPSG => "Compress PSG Via CK",
            WorkflowStep::BuildCDX => "Build CDX Via CK",
            WorkflowStep::GeneratePrevis => "Generate Previs Via CK",
            WorkflowStep::MergePrevis => "Merge Previs.esp Via xEdit",
            WorkflowStep::AddPrevisToArchive => "Add Previs files to BA2 Archive",
        }
    }

    /// Whether the step runs only in clean mode.
    pub open spec fn spec_is_clean_mode_only(&self) -> bool {
        self is CompressPSG || self is BuildCDX
    }

    /// Check if step is clean-mode only.
    #[verifier::when_used_as_spec(spec_is_clean_mode_only)]
    pub fn is_clean_mode_only(&self) -> (r: bool)
        ensures
            r == self.spec_is_clean_mode_only(),
    {
        matches!(self, WorkflowStep::CompressPSG | WorkflowStep::BuildCDX)
    }

    /// The step with the given number, if the number is in range.
    pub open spec fn spec_from_number(n: u8) -> Option<WorkflowStep> {
        if n == 1 {
            Some(WorkflowStep::GeneratePrecombined)
        } else if n == 2 {
            Some(WorkflowStep::MergeCombinedObjects)
        } else if n == 3 {
            Some(WorkflowStep::CreatePrecombinedArchive)
        } else if n == 4 {
            Some(WorkflowStep::CompressPSG)
        } else if n == 5 {
            Some(WorkflowStep::BuildCDX)
        } else if n == 6 {
            Some(WorkflowStep::GeneratePrevis)
        } else if n == 7 {
            Some(WorkflowStep::MergePrevis)
        } else if n == 8 {
            Some(WorkflowStep::AddPrevisToArchive)
        } else {
            None
        }
    }

    /// Convert from step number (1-8).
    #[verifier::when_used_as_spec(spec_from_number)]
    pub fn from_number(n: u8) -> (r: Option<WorkflowStep>)
        ensures
            r == WorkflowStep::spec_from_number(n),
    {
        match n {
            1 => Some(WorkflowStep::GeneratePrecombined),
            2 => Some(WorkflowStep::MergeCombinedObjects),
            3 => Some(WorkflowStep::CreatePrecombinedArchive),
            4 => Some(WorkflowStep::CompressPSG),
            5 => Some(WorkflowStep::BuildCDX),
            6 => Some(WorkflowStep::GeneratePrevis),
            7 => Some(WorkflowStep::MergePrevis),
            8 => Some(WorkflowStep::AddPrevisToArchive),
            _ => None,
        }
    }

    /// Get next step.
    pub fn next(&self) -> (r: Option<WorkflowStep>)
        ensures
            r == WorkflowStep::spec_from_number((self.spec_number() + 1) as u8),
    {
        WorkflowStep::from_number(self.number() + 1)
    }
}

/// Whether a step takes part in a run with the given build mode: clean-mode-only
/// steps are skipped unless the mode is `Clean`.
pub open spec fn spec_step_included(s: WorkflowStep, mode: BuildMode) -> bool {
    mode == BuildMode::Clean || !s.spec_is_clean_mode_only()
}

/// The exact sequence of steps a run executes when it stands at `cur`:
/// every remaining step in ascending order, without the skipped ones.
pub open spec fn spec_schedule(cur: Option<WorkflowStep>, mode: BuildMode) -> Seq<WorkflowStep>
    decreases (match cur {
        Some(s) => 9 - s.spec_number(),
        None => 0,
    }) as int,
{
    match cur {
        None => Seq::empty(),
        Some(s) => {
            let rest = spec_schedule(
                WorkflowStep::spec_from_number((s.spec_number() + 1) as u8),
                mode,
            );
            if spec_step_included(s, mode) {
                seq![s] + rest
            } else {
                rest
            }
        },
    }
}

/// Every step a schedule holds lies at or above the step the schedule starts
/// from, the schedule is strictly ascending, and it holds exactly the
/// non-skipped steps of that range.  This is the engine's core guarantee: a
/// run started at step `k` executes exactly the non-skipped steps `k..=8`, in
/// ascending order, and never a step below `k`.
pub proof fn lemma_schedule_exact(start: WorkflowStep, mode: BuildMode)
    ensures
        forall|i: int, j: int|
            0 <= i < j < spec_schedule(Some(start), mode).len() ==> spec_schedule(
                Some(start),
                mode,
            )[i].spec_number() < spec_schedule(Some(start), mode)[j].spec_number(),
        forall|s: WorkflowStep| #![trigger spec_schedule(Some(start), mode).contains(s)]
            spec_schedule(Some(start), mode).contains(s) <==> (start.spec_number()
                <= s.spec_number() && spec_step_included(s, mode)),
{
    lemma_schedule_exact_from(Some(start), mode);
}

/// Two distinct steps never share a number.
proof fn lemma_number_injective(a: WorkflowStep, b: WorkflowStep)
    requires
        a.spec_number() == b.spec_number(),
    ensures
        a == b,
{
}

/// `spec_from_number` inverts `spec_number` on the valid range.
proof fn lemma_from_number_number(m: u8)
    requires
        1 <= m <= 8,
    ensures
        WorkflowStep::spec_from_number(m) is Some,
        WorkflowStep::spec_from_number(m)->0.spec_number() == m,
{
}

/// Induction form of `lemma_schedule_exact`, over the remaining steps.
proof fn lemma_schedule_exact_from(cur: Option<WorkflowStep>, mode: BuildMode)
    ensures
        forall|i: int, j: int|
            0 <= i < j < spec_schedule(cur, mode).len() ==> spec_schedule(cur, mode)[i].spec_number()
                < spec_schedule(cur, mode)[j].spec_number(),
        forall|s: WorkflowStep| #![trigger spec_schedule(cur, mode).contains(s)]
            spec_schedule(cur, mode).contains(s) <==> (cur is Some && cur->0.spec_number()
                <= s.spec_number() && spec_step_included(s, mode)),
    decreases (match cur {
        Some(s) => 9 - s.spec_number(),
        None => 0,
    }) as int,
{
    match cur {
        None => {},
        Some(s) => {
            let n = s.spec_number();
            let nxt = WorkflowStep::spec_from_number((n + 1) as u8);
            if n < 8 {
                lemma_from_number_number((n + 1) as u8);
            } else {
                assert(nxt is None);
            }
            lemma_schedule_exact_from(nxt, mode);
            let rest = spec_schedule(nxt, mode);
            let whole = spec_schedule(cur, mode);
            assert forall|k: int| 0 <= k < rest.len() implies (#[trigger] rest[k]).spec_number()
                > n by {
                assert(rest.contains(rest[k]));
                assert(nxt is Some);
                assert(nxt->0.spec_number() == n + 1);
                assert(nxt->0.spec_number() <= rest[k].spec_number());
            }
            if spec_step_included(s, mode) {
                assert(whole == seq![s] + rest);
                assert forall|i: int, j: int|
                    0 <= i < j < whole.len() implies whole[i].spec_number()
                    < whole[j].spec_number() by {
                    assert(whole[j] == rest[j - 1]);
                    if i > 0 {
                        assert(whole[i] == rest[i - 1]);
                    }
                }
                assert forall|t: WorkflowStep| whole.contains(t) implies (n <= t.spec_number()
                    && spec_step_included(t, mode)) by {
                    let k = choose|k: int| 0 <= k < whole.len() && whole[k] == t;
                    if k > 0 {
                        assert(rest[k - 1] == t);
                        assert(rest.contains(t));
                    }
                }
                assert forall|t: WorkflowStep|
                    n <= t.spec_number() && spec_step_included(t, mode) implies whole.contains(
                    t,
                ) by {
                    if t == s {
                        assert(whole[0] == t);
                    } else {
                        if t.spec_number() == n {
                            lemma_number_injective(t, s);
                        }
                        assert(rest.contains(t));
                        let k = choose|k: int| 0 <= k < rest.len() && rest[k] == t;
                        assert(whole[k + 1] == t);
                    }
                }
            } else {
                assert(whole == rest);
                assert forall|t: WorkflowStep|
                    n <= t.spec_number() && spec_step_included(t, mode) implies whole.contains(
                    t,
                ) by {
                    assert(t != s);
                    if t.spec_number() == n {
                        lemma_number_injective(t, s);
                    }
                    assert(rest.contains(t));
                }
            }
        },
    }
}

/// What the caller observed of a directory: whether it exists, and
/// whether it is empty.
#[derive(Debug, Clone, Copy, PartialEq, Eq, Structural)]
pub struct DirState {
    /// The directory exists.
    pub exists: bool,
    /// The directory holds no entries.
    pub empty: bool,
}

/// The directory exists and holds something, so a step that needs it
/// empty must clean it first.
pub open spec fn dir_needs_clean(s: DirState) -> bool {
    s.exists && !s.empty
}

/// A filesystem action a step needs around its tool runs.
#[derive(Debug, Clone, PartialEq, Eq)]
pub enum FsAction {
    /// Delete the directory and its contents, if it exists.
    DeleteDir { path: String },
    /// Create the directory and its parents.
    CreateDir { path: String },
    /// Delete the file, if it exists.
    DeleteFile { path: String },
}

/// Why a step refused to run or declared failure.
#[derive(Debug, Clone, PartialEq, Eq)]
pub enum StepError {
    /// A working directory is not empty and no clearance to clean it was
    /// given.
    DirectoryNotEmpty { dir: String },
    /// No Creation Kit log path is configured, so a Creation Kit run
    /// could not be classified.
    CkLogNotConfigured,
    /// The mesh output directory stayed empty after generation.
    NoPrecombinedGenerated,
    /// The mesh output directory is empty though an earlier step should
    /// have filled it.
    NoPrecombinedFound,
    /// The geometry side-file is missing though compression needs it.
    PsgFileMissing,
    /// The visibility directory stayed empty after generation.
    NoPrevisGenerated,
    /// The visibility directory is empty though an earlier step should
    /// have filled it.
    NoPrevisFound,
    /// The intermediate visibility plugin is missing.
    PrevisEspMissing,
    /// The log carries the visibility-incomplete token: some cells never
    /// got their data.
    PrevisGenerationIncomplete,
    /// An archive operation was rejected.
    Archive(ArchiveError),
    /// Leftover patch plugins were found and the caller asked to rename
    /// them first.
    XPrevisPatchFound,
}

/// A non-fatal observation a step reports.
#[derive(Debug, Clone, Copy, PartialEq, Eq, Structural)]
pub enum StepWarning {
    /// Clean mode expected the geometry side-file and it never appeared.
    PsgNotCreated,
}

/// What a step needs before its tool runs, and the run itself.
#[derive(Debug)]
pub struct StepPrep {
    /// Directory actions to perform before the launch, in order.
    pub pre_actions: Vec<FsAction>,
    /// The tool to launch and classify.
    pub tool: ToolRun,
}

/// The side-file compression step: its run, and the file owed deletion
/// after the run succeeds.
#[derive(Debug)]
pub struct Step4Prep {
    /// The tool to launch and classify.
    pub tool: ToolRun,
    /// The side-file to delete once the run succeeded.
    pub delete_after: String,
}

/// Drives the eight steps: decides each step's preconditions, builds its
/// tool runs and action plans, and judges its postconditions.  The caller
/// performs the filesystem and process work between the calls, and a step
/// that returns an error aborts the whole run.
#[derive(Debug)]
pub struct WorkflowExecutor {
    /// The run's configuration.
    pub config: Config,
    /// The plugin the run works on.
    pub plugin_name: String,
    /// The game's `Data` directory.
    pub data_dir: String,
    /// Whether a user is present to approve destructive clean-ups.
    pub interactive: bool,
}

impl WorkflowExecutor {
    /// The game's `Data` directory.
    pub open spec fn spec_data_dir(&self) -> Seq<char> {
        joined_path(self.config.fo4_dir@, "Data"@)
    }

    /// The executor's cached `Data` path agrees with its configuration.
    pub open spec fn wf(&self) -> bool {
        self.data_dir@ == self.spec_data_dir()
    }

    /// The precombined-mesh output directory.
    pub open spec fn spec_precombined_dir(&self) -> Seq<char> {
        joined_path(joined_path(self.spec_data_dir(), "meshes"@), "precombined"@)
    }

    /// The visibility-data output directory.
    pub open spec fn spec_vis_dir(&self) -> Seq<char> {
        joined_path(self.spec_data_dir(), "vis"@)
    }

    /// The derived archive name: `<base> - Main.ba2`.
    pub open spec fn spec_archive_name(&self) -> Seq<char> {
        plugin_base_name(self.plugin_name@) + " - Main.ba2"@
    }

    /// The geometry side-file's path: `<base> - Geometry.psg` under `Data`.
    pub open spec fn spec_psg_path(&self) -> Seq<char> {
        joined_path(self.spec_data_dir(), plugin_base_name(self.plugin_name@) + " - Geometry.psg"@)
    }

    /// Whether archives are packed in the console format.
    pub open spec fn spec_is_xbox(&self) -> bool {
        self.config.build_mode is Xbox
    }

    /// The Creation Kit runner this configuration implies.
    pub open spec fn spec_ck_runner(&self) -> CreationKitRunner {
        CreationKitRunner {
            ck_exe: self.config.creation_kit_path,
            fallout4_dir: self.config.fo4_dir,
            log_file: self.config.ck_log_path,
            mo2_path: self.config.mo2_path,
        }
    }

    /// The editor runner this configuration implies.
    pub open spec fn spec_fo4edit_runner(&self) -> FO4EditRunner {
        FO4EditRunner {
            fo4edit_exe: self.config.fo4edit_path,
            fallout4_dir: self.config.fo4_dir,
            mo2_path: self.config.mo2_path,
        }
    }

    /// The archive manager this configuration implies.
    pub open spec fn spec_archive_manager(&self) -> ArchiveManager {
        ArchiveManager {
            tool: self.config.archive_tool,
            archive2_exe: if self.config.archive_tool is Archive2 {
                Some(self.config.archive_exe_path)
            } else {
                None
            },
            bsarch_exe: if self.config.archive_tool is BSArch {
                Some(self.config.archive_exe_path)
            } else {
                None
            },
            fallout4_dir: self.config.fo4_dir,
        }
    }

    /// Create a new workflow executor.
    pub fn new(config: Config, plugin_name: String, interactive: bool) -> (r: WorkflowExecutor)
        ensures
            r.config == config,
            r.plugin_name == plugin_name,
            r.interactive == interactive,
            r.data_dir@ == joined_path(config.fo4_dir@, "Data"@),
            r.wf(),
    {
        let data_dir = config.data_dir();
        WorkflowExecutor { config, plugin_name, data_dir, interactive }
    }

    /// Run the complete workflow from the first step to the last.
    pub fn run_all(&self) -> (r: Vec<WorkflowStep>)
        ensures
            r@ == spec_schedule(Some(WorkflowStep::GeneratePrecombined), self.config.build_mode),
    {
        self.run_from_step(WorkflowStep::GeneratePrecombined)
    }

    /// The steps a run starting at `start_step` executes, in execution
    /// order: every remaining step, ascending, with the clean-mode-only
    /// ones skipped when the mode is not clean.  The caller executes them
    /// in this order and aborts at the first failing step; resuming later
    /// means calling again with that step.
    pub fn run_from_step(&self, start_step: WorkflowStep) -> (r: Vec<WorkflowStep>)
        ensures
            r@ == spec_schedule(Some(start_step), self.config.build_mode),
    {
        let mode = self.config.build_mode;
        let mut r: Vec<WorkflowStep> = Vec::new();
        let mut cur: Option<WorkflowStep> = Some(start_step);
        proof {
            assert(r@ + spec_schedule(cur, mode) =~= spec_schedule(Some(start_step), mode));
        }
        loop
            invariant
                mode == self.config.build_mode,
                spec_schedule(Some(start_step), mode) == r@ + spec_schedule(cur, mode),
            ensures
                cur is None,
                spec_schedule(Some(start_step), mode) == r@ + spec_schedule(cur, mode),
            decreases (match cur {
                Some(s) => 9 - s.spec_number(),
                None => 0,
            }) as int,
        {
            match cur {
                None => {
                    break;
                },
                Some(s) => {
                    let ghost pre = r@;
                    if mode == BuildMode::Clean || !s.is_clean_mode_only() {
                        r.push(s);
                    }
                    cur = s.next();
                    proof {
                        if spec_step_included(s, mode) {
                            assert(pre + (seq![s] + spec_schedule(cur, mode)) =~= pre.push(s)
                                + spec_schedule(cur, mode));
                        }
                    }
                },
            }
        }
        proof {
            assert(r@ + spec_schedule(None, mode) =~= r@);
        }
        r
    }

    /// The clean-up a step owes a working directory it needs empty.
    ///
    /// A missing or empty directory needs nothing.  A populated one is
    /// cleaned — deleted and recreated — only when a user is present and
    /// supplied clearance; otherwise the conflict is fatal.
    pub fn check_and_clean_directory(&self, dir: &str, state: DirState, clean_approved: bool) -> (r:
        Result<Vec<FsAction>, StepError>)
        ensures
            !dir_needs_clean(state) ==> (r matches Ok(v) && v@.len() == 0),
            dir_needs_clean(state) && self.interactive && clean_approved ==> (r matches Ok(v)
                && v@.len() == 2 && (v@[0] matches FsAction::DeleteDir { path } && path@ == dir@)
                && (v@[1] matches FsAction::CreateDir { path } && path@ == dir@)),
            dir_needs_clean(state) && !(self.interactive && clean_approved) ==> (r matches Err(e)
                && (e matches StepError::DirectoryNotEmpty { dir: d } && d@ == dir@)),
    {
        if !state.exists || state.empty {
            return Ok(Vec::new());
        }
        if self.interactive && clean_approved {
            let mut v: Vec<FsAction> = Vec::new();
            v.push(FsAction::DeleteDir { path: dir.to_owned() });
            v.push(FsAction::CreateDir { path: dir.to_owned() });
            Ok(v)
        } else {
            Err(StepError::DirectoryNotEmpty { dir: dir.to_owned() })
        }
    }

    /// Whether leftover patch plugins block the run: they do exactly when
    /// some were found and the caller asked for them to be renamed first.
    pub fn check_xprevis_patches(&self, xprevis_plugins: &Vec<String>, rename_requested: bool) -> (
        r: Result<(), StepError>)
        ensures
            r is Err <==> xprevis_plugins@.len() > 0 && rename_requested,
            r is Err ==> r == Result::<(), StepError>::Err(StepError::XPrevisPatchFound),
    {
        if xprevis_plugins.len() > 0 && rename_requested {
            Err(StepError::XPrevisPatchFound)
        } else {
            Ok(())
        }
    }

    /// The deletions that clean up the workflow's temporary files, once
    /// the caller confirmed them: one per found working file, under the
    /// `Data` directory.
    pub fn cleanup_working_files(&self, working_files: &Vec<String>, confirmed: bool) -> (r: Vec<
        FsAction,
    >)
        requires
            self.wf(),
        ensures
            !confirmed ==> r@.len() == 0,
            confirmed ==> r@.len() == working_files@.len() && (forall|k: int|
                0 <= k < working_files@.len() ==> ((#[trigger] r@[k])
                    matches FsAction::DeleteFile { path } && path@ == joined_path(
                    joined_path(self.config.fo4_dir@, "Data"@),
                    working_files@[k]@,
                ))),
    {
        let mut r: Vec<FsAction> = Vec::new();
        if !confirmed {
            return r;
        }
        let n = working_files.len();
        let mut i: usize = 0;
        while i < n
            invariant
                i <= n,
                n == working_files@.len(),
                self.data_dir@ == joined_path(self.config.fo4_dir@, "Data"@),
                r@.len() == i,
                forall|k: int|
                    0 <= k < i ==> ((#[trigger] r@[k]) matches FsAction::DeleteFile { path }
                        && path@ == joined_path(
                        joined_path(self.config.fo4_dir@, "Data"@),
                        working_files@[k]@,
                    )),
            decreases n - i,
        {
            let path = join_path(self.data_dir.as_str(), working_files[i].as_str());
            r.push(FsAction::DeleteFile { path });
            i += 1;
        }
        r
    }
}


/// The clean-up actions the mesh-generation step owes its two working
/// directories, in order: nothing for one that needs no cleaning,
/// delete-and-recreate for one that does.
pub open spec fn clean_plan_ok(
    actions: Seq<FsAction>,
    dir1: Seq<char>,
    c1: bool,
    dir2: Seq<char>,
    c2: bool,
) -> bool {
    let n1: int = if c1 {
        2
    } else {
        0
    };
    let n2: int = if c2 {
        2
    } else {
        0
    };
    &&& actions.len() == n1 + n2
    &&& c1 ==> (actions[0] matches FsAction::DeleteDir { path } && path@ == dir1) && (actions[1]
        matches FsAction::CreateDir { path } && path@ == dir1)
    &&& c2 ==> (actions[n1] matches FsAction::DeleteDir { path } && path@ == dir2) && (actions[n1
        + 1] matches FsAction::CreateDir { path } && path@ == dir2)
}

impl WorkflowExecutor {
    /// The archive manager for this configuration; its executable fields
    /// match `spec_archive_manager` exactly.
    fn make_archive_manager(&self) -> (m: ArchiveManager)
        ensures
            m.wf(),
            m.tool == self.spec_archive_manager().tool,
            m.archive2_exe == self.spec_archive_manager().archive2_exe,
            m.bsarch_exe == self.spec_archive_manager().bsarch_exe,
            m.fallout4_dir@ == self.spec_archive_manager().fallout4_dir@,
    {
        let built = match self.config.archive_tool {
            crate::config::ArchiveTool::Archive2 => ArchiveManager::new(
                self.config.archive_tool,
                Some(self.config.archive_exe_path.clone()),
                None,
                self.config.fo4_dir.as_str(),
            ),
            crate::config::ArchiveTool::BSArch => ArchiveManager::new(
                self.config.archive_tool,
                None,
                Some(self.config.archive_exe_path.clone()),
                self.config.fo4_dir.as_str(),
            ),
        };
        match built {
            Ok(m) => m,
            Err(_) => vstd::pervasive::unreached(),
        }
    }

    /// The Creation Kit runner for this configuration and the given log
    /// path.
    fn make_ck_runner(&self, ck_log: &str) -> (r: CreationKitRunner)
        ensures
            r.ck_exe@ == self.config.creation_kit_path@,
            opt_view(r.log_file) == Some(ck_log@),
    {
        let runner = CreationKitRunner::new(
            self.config.creation_kit_path.as_str(),
            self.config.fo4_dir.as_str(),
        ).with_log_file(ck_log);
        match &self.config.mo2_path {
            Some(m) => runner.with_mo2(m.as_str()),
            None => runner,
        }
    }

    /// The editor runner for this configuration.
    fn make_fo4edit_runner(&self) -> (r: FO4EditRunner)
        ensures
            r.fo4edit_exe@ == self.config.fo4edit_path@,
    {
        let runner = FO4EditRunner::new(
            self.config.fo4edit_path.as_str(),
            self.config.fo4_dir.as_str(),
        );
        match &self.config.mo2_path {
            Some(m) => runner.with_mo2(m.as_str()),
            None => runner,
        }
    }

    /// Step 1: generate precombined meshes.
    ///
    /// The mesh output and visibility directories must be empty or get
    /// cleaned with the caller's clearance, the Creation Kit log must be
    /// configured, and the run generates precombines over the plugin:
    /// `clean all` in clean mode, `filtered all` otherwise.
    pub fn step1_generate_precombined(
        &self,
        precombined: DirState,
        vis: DirState,
        clean_precombined_approved: bool,
        clean_vis_approved: bool,
    ) -> (r: Result<StepPrep, StepError>)
        requires
            self.wf(),
        ensures
            ({
                let conflict1 = dir_needs_clean(precombined) && !(self.interactive
                    && clean_precombined_approved);
                let conflict2 = dir_needs_clean(vis) && !(self.interactive && clean_vis_approved);
                &&& conflict1 ==> (r matches Err(e) && (e matches StepError::DirectoryNotEmpty {
                    dir,
                } && dir@ == self.spec_precombined_dir()))
                &&& !conflict1 && conflict2 ==> (r matches Err(e) && (e
                    matches StepError::DirectoryNotEmpty { dir } && dir@ == self.spec_vis_dir()))
                &&& !conflict1 && !conflict2 && self.config.ck_log_path is None ==> r == Result::<
                    StepPrep,
                    StepError,
                >::Err(StepError::CkLogNotConfigured)
                &&& !conflict1 && !conflict2 && self.config.ck_log_path is Some ==> (r matches Ok(
                    prep,
                ) && clean_plan_ok(
                    prep.pre_actions@,
                    self.spec_precombined_dir(),
                    dir_needs_clean(precombined),
                    self.spec_vis_dir(),
                    dir_needs_clean(vis),
                ) && self.spec_ck_runner().is_ck_run(
                    prep.tool,
                    seq![
                        "-GeneratePrecombined:"@ + self.plugin_name@,
                        if self.config.build_mode is Clean {
                            "clean"@
                        } else {
                            "filtered"@
                        },
                        "all"@,
                    ],
                ))
            }),
    {
        let meshes_dir = join_path(self.data_dir.as_str(), "meshes");
        let precombined_dir = join_path(meshes_dir.as_str(), "precombined");
        let vis_dir = join_path(self.data_dir.as_str(), "vis");
        let mut pre_actions = match self.check_and_clean_directory(
            precombined_dir.as_str(),
            precombined,
            clean_precombined_approved,
        ) {
            Ok(v) => v,
            Err(e) => {
                return Err(e);
            },
        };
        let mut vis_actions = match self.check_and_clean_directory(
            vis_dir.as_str(),
            vis,
            clean_vis_approved,
        ) {
            Ok(v) => v,
            Err(e) => {
                return Err(e);
            },
        };
        pre_actions.append(&mut vis_actions);
        let ck_log = match &self.config.ck_log_path {
            Some(l) => l.clone(),
            None => {
                return Err(StepError::CkLogNotConfigured);
            },
        };
        let runner = self.make_ck_runner(ck_log.as_str());
        let tool = runner.generate_precombined(self.plugin_name.as_str(), self.config.build_mode);
        Ok(StepPrep { pre_actions, tool })
    }

    /// Step 1's postcondition: the mesh output directory must have been
    /// populated, and in clean mode a missing geometry side-file is worth
    /// a warning, never a failure.
    pub fn step1_verify_results(&self, precombined_after: DirState, psg_exists: bool) -> (r: Result<
        Option<StepWarning>,
        StepError,
    >)
        ensures
            (!precombined_after.exists || precombined_after.empty) <==> r == Result::<
                Option<StepWarning>,
                StepError,
            >::Err(StepError::NoPrecombinedGenerated),
            precombined_after.exists && !precombined_after.empty ==> r == Result::<
                Option<StepWarning>,
                StepError,
            >::Ok(
                if self.config.build_mode is Clean && !psg_exists {
                    Some(StepWarning::PsgNotCreated)
                } else {
                    None
                },
            ),
    {
        if !precombined_after.exists || precombined_after.empty {
            return Err(StepError::NoPrecombinedGenerated);
        }
        if matches!(self.config.build_mode, BuildMode::Clean) && !psg_exists {
            Ok(Some(StepWarning::PsgNotCreated))
        } else {
            Ok(None)
        }
    }

    /// Step 2: merge the combined-objects plugin into the main one.  The
    /// mesh output of step 1 must be present; the run is the editor's
    /// merge script over the plugin.
    pub fn step2_merge_combined_objects(&self, precombined: DirState, temp_dir: &str) -> (r: Result<
        Fo4EditRun,
        StepError,
    >)
        requires
            self.wf(),
        ensures
            (!precombined.exists || precombined.empty) <==> (r matches Err(e) && e
                == StepError::NoPrecombinedFound),
            precombined.exists && !precombined.empty ==> (r matches Ok(run)
                && self.spec_fo4edit_runner().is_script_run(
                run,
                self.plugin_name@,
                "Batch_FO4MergeCombinedObjectsAndCheck.pas"@,
                temp_dir@,
            )),
    {
        if !precombined.exists || precombined.empty {
            return Err(StepError::NoPrecombinedFound);
        }
        let runner = self.make_fo4edit_runner();
        Ok(runner.merge_combined_objects(self.plugin_name.as_str(), temp_dir))
    }

    /// Step 3: archive the precombined meshes into `<base> - Main.ba2`.
    pub fn step3_create_precombined_archive(&self, overlay: &OverlayCollection) -> (r: Result<
        ArchivePlan,
        StepError,
    >)
        requires
            self.wf(),
        ensures
            overlay is Empty <==> r == Result::<ArchivePlan, StepError>::Err(
                StepError::Archive(ArchiveError::NoCollectedFiles),
            ),
            overlay is Off ==> (r matches Ok(plan) && self.spec_archive_manager().is_create_steps(
                plan.steps@,
                self.spec_precombined_dir(),
                self.spec_archive_name(),
                self.spec_is_xbox(),
            ) && plan.on_error@.len() == 0),
            overlay matches OverlayCollection::Staged(d) ==> (r matches Ok(plan)
                && plan.steps@.len() >= 1 && self.spec_archive_manager().is_create_steps(
                plan.steps@.drop_last(),
                d@,
                self.spec_archive_name(),
                self.spec_is_xbox(),
            ) && (plan.steps@.last() matches ArchiveAction::DeleteDir { path } && path@
                == self.spec_archive_manager().spec_collect_dir()) && plan.on_error@.len() == 1
                && (plan.on_error@[0] matches ArchiveAction::DeleteDir { path } && path@
                == self.spec_archive_manager().spec_collect_dir())),
    {
        let base = get_plugin_base_name(self.plugin_name.as_str());
        let archive_name = concat2(base, " - Main.ba2");
        let manager = self.make_archive_manager();
        let is_xbox = matches!(self.config.build_mode, BuildMode::Xbox);
        match manager.create_archive_from_precombines(archive_name.as_str(), is_xbox, overlay) {
            Ok(plan) => Ok(plan),
            Err(e) => Err(StepError::Archive(e)),
        }
    }

    /// Step 4: compress the geometry side-file, which must exist; after a
    /// successful run the caller deletes it.
    pub fn step4_compress_psg(&self, psg_exists: bool) -> (r: Result<Step4Prep, StepError>)
        requires
            self.wf(),
        ensures
            !psg_exists <==> r == Result::<Step4Prep, StepError>::Err(StepError::PsgFileMissing),
            psg_exists && self.config.ck_log_path is None ==> r == Result::<
                Step4Prep,
                StepError,
            >::Err(StepError::CkLogNotConfigured),
            psg_exists && self.config.ck_log_path is Some ==> (r matches Ok(p) && p.delete_after@
                == self.spec_psg_path() && self.spec_ck_runner().is_ck_run(
                p.tool,
                seq!["-CompressPSG:"@ + self.plugin_name@],
            )),
    {
        if !psg_exists {
            return Err(StepError::PsgFileMissing);
        }
        let ck_log = match &self.config.ck_log_path {
            Some(l) => l.clone(),
            None => {
                return Err(StepError::CkLogNotConfigured);
            },
        };
        let base = get_plugin_base_name(self.plugin_name.as_str());
        let psg_name = concat2(base, " - Geometry.psg");
        let psg_path = join_path(self.data_dir.as_str(), psg_name.as_str());
        let runner = self.make_ck_runner(ck_log.as_str());
        let tool = runner.compress_psg(self.plugin_name.as_str());
        Ok(Step4Prep { tool, delete_after: psg_path })
    }

    /// Step 5: build the auxiliary index.
    pub fn step5_build_cdx(&self) -> (r: Result<ToolRun, StepError>)
        requires
            self.wf(),
        ensures
            self.config.ck_log_path is None <==> r == Result::<ToolRun, StepError>::Err(
                StepError::CkLogNotConfigured,
            ),
            self.config.ck_log_path is Some ==> (r matches Ok(t) && self.spec_ck_runner().is_ck_run(
                t,
                seq!["-BuildCDX:"@ + self.plugin_name@],
            )),
    {
        let ck_log = match &self.config.ck_log_path {
            Some(l) => l.clone(),
            None => {
                return Err(StepError::CkLogNotConfigured);
            },
        };
        let runner = self.make_ck_runner(ck_log.as_str());
        Ok(runner.build_cdx(self.plugin_name.as_str()))
    }

    /// Step 6: generate visibility data.  The visibility directory must
    /// be empty or get cleaned with the caller's clearance, and the run
    /// is the previs generation, always `clean all`.
    pub fn step6_generate_previs(&self, vis: DirState, clean_vis_approved: bool) -> (r: Result<
        StepPrep,
        StepError,
    >)
        requires
            self.wf(),
        ensures
            ({
                let conflict = dir_needs_clean(vis) && !(self.interactive && clean_vis_approved);
                &&& conflict ==> (r matches Err(e) && (e matches StepError::DirectoryNotEmpty {
                    dir,
                } && dir@ == self.spec_vis_dir()))
                &&& !conflict && self.config.ck_log_path is None ==> r == Result::<
                    StepPrep,
                    StepError,
                >::Err(StepError::CkLogNotConfigured)
                &&& !conflict && self.config.ck_log_path is Some ==> (r matches Ok(prep)
                    && clean_plan_ok(
                    prep.pre_actions@,
                    self.spec_vis_dir(),
                    dir_needs_clean(vis),
                    self.spec_vis_dir(),
                    false,
                ) && self.spec_ck_runner().is_ck_run(
                    prep.tool,
                    seq!["-GeneratePreVisData:"@ + self.plugin_name@, "clean"@, "all"@],
                ))
            }),
    {
        let vis_dir = join_path(self.data_dir.as_str(), "vis");
        let pre_actions = match self.check_and_clean_directory(
            vis_dir.as_str(),
            vis,
            clean_vis_approved,
        ) {
            Ok(v) => v,
            Err(e) => {
                return Err(e);
            },
        };
        let ck_log = match &self.config.ck_log_path {
            Some(l) => l.clone(),
            None => {
                return Err(StepError::CkLogNotConfigured);
            },
        };
        let runner = self.make_ck_runner(ck_log.as_str());
        let tool = runner.generate_previs(self.plugin_name.as_str());
        Ok(StepPrep { pre_actions, tool })
    }

    /// Step 6's postcondition: the log must be free of the
    /// visibility-incomplete token — this one step requires log-derived
    /// evidence — and the visibility directory must have been populated.
    pub fn step6_verify_results(&self, log: Option<&String>, vis_after: DirState) -> (r: Result<
        (),
        StepError,
    >)
        ensures
            ({
                let incomplete = match log {
                    Some(c) => crate::strutil::contains_seq(c@, previs_incomplete_token()),
                    None => false,
                };
                &&& incomplete ==> r == Result::<(), StepError>::Err(
                    StepError::PrevisGenerationIncomplete,
                )
                &&& !incomplete && (!vis_after.exists || vis_after.empty) ==> r == Result::<
                    (),
                    StepError,
                >::Err(StepError::NoPrevisGenerated)
                &&& !incomplete && vis_after.exists && !vis_after.empty ==> r is Ok
            }),
    {
        match crate::tools::creation_kit::check_previs_log(log) {
            Ok(()) => {},
            Err(_) => {
                return Err(StepError::PrevisGenerationIncomplete);
            },
        }
        if !vis_after.exists || vis_after.empty {
            return Err(StepError::NoPrevisGenerated);
        }
        Ok(())
    }

    /// Step 7: merge the visibility plugin into the main one.  The
    /// visibility data of step 6 and the intermediate plugin must both be
    /// present; the run is the editor's merge script over the plugin.
    pub fn step7_merge_previs(
        &self,
        vis: DirState,
        previs_esp_exists: bool,
        temp_dir: &str,
    ) -> (r: Result<Fo4EditRun, StepError>)
        requires
            self.wf(),
        ensures
            (!vis.exists || vis.empty) <==> (r matches Err(e) && e == StepError::NoPrevisFound),
            vis.exists && !vis.empty && !previs_esp_exists ==> r == Result::<
                Fo4EditRun,
                StepError,
            >::Err(StepError::PrevisEspMissing),
            vis.exists && !vis.empty && previs_esp_exists ==> (r matches Ok(run)
                && self.spec_fo4edit_runner().is_script_run(
                run,
                self.plugin_name@,
                "Batch_FO4MergePrevisandCleanRefr.pas"@,
                temp_dir@,
            )),
    {
        if !vis.exists || vis.empty {
            return Err(StepError::NoPrevisFound);
        }
        if !previs_esp_exists {
            return Err(StepError::PrevisEspMissing);
        }
        let runner = self.make_fo4edit_runner();
        Ok(runner.merge_previs(self.plugin_name.as_str(), temp_dir))
    }

    /// Step 8: append the visibility data to the archive, which must
    /// already exist.
    pub fn step8_add_previs_to_archive(
        &self,
        overlay: &OverlayCollection,
        archive_exists: bool,
    ) -> (r: Result<ArchivePlan, StepError>)
        requires
            self.wf(),
        ensures
            overlay is Empty <==> r == Result::<ArchivePlan, StepError>::Err(
                StepError::Archive(ArchiveError::NoCollectedFiles),
            ),
            !(overlay is Empty) && !archive_exists <==> r == Result::<ArchivePlan, StepError>::Err(
                StepError::Archive(ArchiveError::ArchiveMissing),
            ),
            overlay is Off && archive_exists ==> (r matches Ok(plan)
                && self.spec_archive_manager().is_append_steps(
                plan.steps@,
                self.spec_vis_dir(),
                self.spec_archive_name(),
                self.spec_is_xbox(),
            ) && self.spec_archive_manager().is_append_cleanup(plan.on_error@)),
            overlay matches OverlayCollection::Staged(d) ==> (archive_exists ==> (r matches Ok(plan)
                && plan.steps@.len() >= 1 && self.spec_archive_manager().is_append_steps(
                plan.steps@.drop_last(),
                d@,
                self.spec_archive_name(),
                self.spec_is_xbox(),
            ) && (plan.steps@.last() matches ArchiveAction::DeleteDir { path } && path@
                == self.spec_archive_manager().spec_collect_dir()) && plan.on_error@.len() >= 1
                && self.spec_archive_manager().is_append_cleanup(plan.on_error@.drop_last()) && (
            plan.on_error@.last() matches ArchiveAction::DeleteDir { path } && path@
                == self.spec_archive_manager().spec_collect_dir()))),
    {
        let base = get_plugin_base_name(self.plugin_name.as_str());
        let archive_name = concat2(base, " - Main.ba2");
        let manager = self.make_archive_manager();
        let is_xbox = matches!(self.config.build_mode, BuildMode::Xbox);
        match manager.add_previs_to_archive(archive_name.as_str(), is_xbox, overlay, archive_exists)
        {
            Ok(plan) => Ok(plan),
            Err(e) => Err(StepError::Archive(e)),
        }
    }
}

} // verus!
