use generateprevisibines::config::{ArchiveTool, BuildMode, Config};
use generateprevisibines::tools::archive::OverlayCollection;
use generateprevisibines::workflow::{
    DirState, FsAction, StepError, StepWarning, WorkflowExecutor, WorkflowStep,
};

#[test]
fn test_workflow_step_numbers() {
    assert_eq!(WorkflowStep::GeneratePrecombined.number(), 1);
    assert_eq!(WorkflowStep::AddPrevisToArchive.number(), 8);
}

#[test]
fn test_workflow_step_from_number() {
    assert_eq!(
        WorkflowStep::from_number(1),
        Some(WorkflowStep::GeneratePrecombined)
    );
    assert_eq!(
        WorkflowStep::from_number(8),
        Some(WorkflowStep::AddPrevisToArchive)
    );
    assert_eq!(WorkflowStep::from_number(0), None);
    assert_eq!(WorkflowStep::from_number(9), None);
}

#[test]
fn test_clean_mode_only_steps() {
    assert!(!WorkflowStep::GeneratePrecombined.is_clean_mode_only());
    assert!(WorkflowStep::CompressPSG.is_clean_mode_only());
    assert!(WorkflowStep::BuildCDX.is_clean_mode_only());
    assert!(!WorkflowStep::GeneratePrevis.is_clean_mode_only());
}

#[test]
fn test_step_next() {
    assert_eq!(
        WorkflowStep::GeneratePrecombined.next(),
        Some(WorkflowStep::MergeCombinedObjects)
    );
    assert_eq!(WorkflowStep::AddPrevisToArchive.next(), None);
}

fn executor(mode: BuildMode, interactive: bool) -> WorkflowExecutor {
    let mut config = Config::new(mode, ArchiveTool::Archive2);
    config.fo4_dir = "C:\\Games\\Fallout4".to_string();
    config.fo4edit_path = "C:\\Tools\\FO4Edit.exe".to_string();
    config.creation_kit_path = "C:\\Games\\Fallout4\\CreationKit.exe".to_string();
    config.archive_exe_path = "C:\\Games\\Fallout4\\Tools\\Archive2\\Archive2.exe".to_string();
    config.ck_log_path = Some("C:\\Games\\Fallout4\\CreationKit.log".to_string());
    WorkflowExecutor::new(config, "MyMod.esp".to_string(), interactive)
}

#[test]
fn run_from_step_executes_remaining_steps_in_order() {
    // a clean-mode run started at step 3 executes exactly steps 3..=8
    let ex = executor(BuildMode::Clean, false);
    let order = ex.run_from_step(WorkflowStep::CreatePrecombinedArchive);
    assert_eq!(
        order,
        vec![
            WorkflowStep::CreatePrecombinedArchive,
            WorkflowStep::CompressPSG,
            WorkflowStep::BuildCDX,
            WorkflowStep::GeneratePrevis,
            WorkflowStep::MergePrevis,
            WorkflowStep::AddPrevisToArchive,
        ]
    );
}

#[test]
fn run_all_skips_clean_only_steps_in_filtered_mode() {
    let ex = executor(BuildMode::Filtered, false);
    let order = ex.run_all();
    assert_eq!(
        order,
        vec![
            WorkflowStep::GeneratePrecombined,
            WorkflowStep::MergeCombinedObjects,
            WorkflowStep::CreatePrecombinedArchive,
            WorkflowStep::GeneratePrevis,
            WorkflowStep::MergePrevis,
            WorkflowStep::AddPrevisToArchive,
        ]
    );
}

#[test]
fn scenario_resume_at_previs_in_filtered_mode() {
    // resuming at step 6 with mode filtered: the clean-mode-only steps 4
    // and 5 are skipped and steps 6, 7, 8 execute in order
    let ex = executor(BuildMode::Filtered, false);
    let order = ex.run_from_step(WorkflowStep::GeneratePrevis);
    assert_eq!(
        order,
        vec![
            WorkflowStep::GeneratePrevis,
            WorkflowStep::MergePrevis,
            WorkflowStep::AddPrevisToArchive,
        ]
    );
    // even a resume from step 4 itself starts at the first non-skipped step
    let order = ex.run_from_step(WorkflowStep::CompressPSG);
    assert_eq!(
        order,
        vec![
            WorkflowStep::GeneratePrevis,
            WorkflowStep::MergePrevis,
            WorkflowStep::AddPrevisToArchive,
        ]
    );
}

#[test]
fn scenario_clean_run_step1_with_empty_dirs_warns_on_missing_side_file() {
    // clean mode, both working directories initially empty: step 1 needs
    // no cleaning and invokes the generator with "clean all"
    let ex = executor(BuildMode::Clean, false);
    let empty = DirState { exists: true, empty: true };
    let prep = ex
        .step1_generate_precombined(empty, empty, false, false)
        .unwrap();
    assert_eq!(prep.pre_actions.len(), 0);
    assert_eq!(prep.tool.exe, "C:\\Games\\Fallout4\\CreationKit.exe");
    assert_eq!(
        prep.tool.args,
        vec![
            "-GeneratePrecombined:MyMod.esp".to_string(),
            "clean".to_string(),
            "all".to_string(),
        ]
    );
    assert_eq!(prep.tool.fatal_patterns, vec!["OUT OF HANDLE ARRAY ENTRIES".to_string()]);
    assert!(prep.tool.delete_log_first);

    // afterwards the mesh directory is populated (three files) and the
    // side-file absent: the step succeeds with a warning, not a failure
    let populated = DirState { exists: true, empty: false };
    let warning = ex.step1_verify_results(populated, false).unwrap();
    assert_eq!(warning, Some(StepWarning::PsgNotCreated));

    // with the side-file present there is nothing to warn about
    assert_eq!(ex.step1_verify_results(populated, true).unwrap(), None);

    // an empty mesh directory is a failure
    assert_eq!(
        ex.step1_verify_results(empty, true),
        Err(StepError::NoPrecombinedGenerated)
    );
}

#[test]
fn step1_filtered_mode_builds_filtered_arguments() {
    let ex = executor(BuildMode::Filtered, false);
    let empty = DirState { exists: true, empty: true };
    let prep = ex
        .step1_generate_precombined(empty, empty, false, false)
        .unwrap();
    assert_eq!(prep.tool.args[1], "filtered");
}

#[test]
fn step1_rejects_populated_directory_without_clearance() {
    let ex = executor(BuildMode::Clean, false);
    let populated = DirState { exists: true, empty: false };
    let empty = DirState { exists: true, empty: true };
    match ex.step1_generate_precombined(populated, empty, false, false) {
        Err(StepError::DirectoryNotEmpty { dir }) => {
            assert_eq!(dir, "C:\\Games\\Fallout4\\Data\\meshes\\precombined");
        }
        other => panic!("expected a directory conflict, got {:?}", other),
    }
}

#[test]
fn step1_cleans_populated_directory_with_clearance() {
    let ex = executor(BuildMode::Clean, true);
    let populated = DirState { exists: true, empty: false };
    let empty = DirState { exists: true, empty: true };
    let prep = ex
        .step1_generate_precombined(populated, empty, true, true)
        .unwrap();
    assert_eq!(prep.pre_actions.len(), 2);
    match &prep.pre_actions[0] {
        FsAction::DeleteDir { path } => {
            assert_eq!(path, "C:\\Games\\Fallout4\\Data\\meshes\\precombined")
        }
        other => panic!("expected a directory deletion, got {:?}", other),
    }
    match &prep.pre_actions[1] {
        FsAction::CreateDir { path } => {
            assert_eq!(path, "C:\\Games\\Fallout4\\Data\\meshes\\precombined")
        }
        other => panic!("expected a directory creation, got {:?}", other),
    }
}

#[test]
fn step2_requires_meshes_and_builds_editor_run() {
    let ex = executor(BuildMode::Clean, false);
    let empty = DirState { exists: true, empty: true };
    assert!(matches!(
        ex.step2_merge_combined_objects(empty, "C:\\Temp"),
        Err(StepError::NoPrecombinedFound)
    ));
    let populated = DirState { exists: true, empty: false };
    let run = ex.step2_merge_combined_objects(populated, "C:\\Temp").unwrap();
    assert_eq!(run.plugins_file, "C:\\Temp\\FO4Edit_Plugins_MyMod.esp.txt");
    assert_eq!(run.plugins_content, "MyMod.esp");
    assert_eq!(run.tool.exe, "C:\\Tools\\FO4Edit.exe");
    assert_eq!(run.tool.args[0], "-fo4");
    assert_eq!(run.tool.args[1], "-autoexit");
    assert_eq!(
        run.tool.args[3],
        "-Script:Batch_FO4MergeCombinedObjectsAndCheck.pas"
    );
    assert_eq!(run.tool.args[4], "-Mod:MyMod.esp");
    assert_eq!(run.tool.fatal_patterns, vec!["Error:".to_string()]);
    assert_eq!(
        run.tool.success_pattern,
        Some("Completed: No Errors.".to_string())
    );
    assert!(run.tool.missing_log_fatal);
}

#[test]
fn step4_needs_side_file_and_plans_its_deletion() {
    let ex = executor(BuildMode::Clean, false);
    assert!(matches!(
        ex.step4_compress_psg(false),
        Err(StepError::PsgFileMissing)
    ));
    let prep = ex.step4_compress_psg(true).unwrap();
    assert_eq!(prep.tool.args, vec!["-CompressPSG:MyMod.esp".to_string()]);
    assert_eq!(
        prep.delete_after,
        "C:\\Games\\Fallout4\\Data\\MyMod - Geometry.psg"
    );
}

#[test]
fn step5_builds_index_run() {
    let ex = executor(BuildMode::Clean, false);
    let tool = ex.step5_build_cdx().unwrap();
    assert_eq!(tool.args, vec!["-BuildCDX:MyMod.esp".to_string()]);
}

#[test]
fn steps_refuse_to_run_without_a_configured_log() {
    // without a log path there is no way to classify a Creation Kit run
    let mut config = Config::new(BuildMode::Clean, ArchiveTool::Archive2);
    config.fo4_dir = "C:\\Games\\Fallout4".to_string();
    let ex = WorkflowExecutor::new(config, "MyMod.esp".to_string(), false);
    assert!(matches!(
        ex.step5_build_cdx(),
        Err(StepError::CkLogNotConfigured)
    ));
    assert!(matches!(
        ex.step4_compress_psg(true),
        Err(StepError::CkLogNotConfigured)
    ));
}

#[test]
fn step_names_for_display() {
    assert_eq!(
        WorkflowStep::GeneratePrecombined.name(),
        "Generate Precombines Via CK"
    );
    assert_eq!(
        WorkflowStep::AddPrevisToArchive.name(),
        "Add Previs files to BA2 Archive"
    );
}

#[test]
fn step6_verify_reads_log_evidence() {
    let ex = executor(BuildMode::Clean, false);
    let populated = DirState { exists: true, empty: false };
    let empty = DirState { exists: true, empty: true };

    let bad = "processing...\nvisibility task did not complete\n".to_string();
    assert_eq!(
        ex.step6_verify_results(Some(&bad), populated),
        Err(StepError::PrevisGenerationIncomplete)
    );

    let good = "processing...\nall cells done\n".to_string();
    assert!(ex.step6_verify_results(Some(&good), populated).is_ok());
    assert_eq!(
        ex.step6_verify_results(Some(&good), empty),
        Err(StepError::NoPrevisGenerated)
    );
    assert!(ex.step6_verify_results(None, populated).is_ok());
}

#[test]
fn step7_requires_previs_data_and_intermediate_plugin() {
    let ex = executor(BuildMode::Clean, false);
    let populated = DirState { exists: true, empty: false };
    let empty = DirState { exists: true, empty: true };
    assert!(matches!(
        ex.step7_merge_previs(empty, true, "C:\\Temp"),
        Err(StepError::NoPrevisFound)
    ));
    assert!(matches!(
        ex.step7_merge_previs(populated, false, "C:\\Temp"),
        Err(StepError::PrevisEspMissing)
    ));
    let run = ex.step7_merge_previs(populated, true, "C:\\Temp").unwrap();
    assert_eq!(
        run.tool.args[3],
        "-Script:Batch_FO4MergePrevisandCleanRefr.pas"
    );
}

#[test]
fn xprevis_patches_block_only_on_request() {
    let ex = executor(BuildMode::Clean, true);
    let found = vec!["xPrevisPatch.esp".to_string()];
    assert_eq!(
        ex.check_xprevis_patches(&found, true),
        Err(StepError::XPrevisPatchFound)
    );
    assert!(ex.check_xprevis_patches(&found, false).is_ok());
    assert!(ex.check_xprevis_patches(&Vec::new(), true).is_ok());
}

#[test]
fn cleanup_plans_one_deletion_per_confirmed_file() {
    let ex = executor(BuildMode::Clean, true);
    let files = vec!["Previs.esp".to_string(), "CombinedObjects.esp".to_string()];
    assert_eq!(ex.cleanup_working_files(&files, false).len(), 0);
    let plan = ex.cleanup_working_files(&files, true);
    assert_eq!(plan.len(), 2);
    match &plan[0] {
        FsAction::DeleteFile { path } => {
            assert_eq!(path, "C:\\Games\\Fallout4\\Data\\Previs.esp")
        }
        other => panic!("expected a file deletion, got {:?}", other),
    }
}

#[test]
fn step8_in_overlay_mode_uses_staged_files() {
    let ex = executor(BuildMode::Clean, false);
    let staged =
        OverlayCollection::Staged("C:\\Games\\Fallout4\\Data\\_temp_mo2_collect".to_string());
    let plan = ex.step8_add_previs_to_archive(&staged, true).unwrap();
    // the staged append ends by removing the collection scratch directory
    match plan.steps.last().unwrap() {
        generateprevisibines::tools::archive::ArchiveAction::DeleteDir { path } => {
            assert_eq!(path, "C:\\Games\\Fallout4\\Data\\_temp_mo2_collect")
        }
        other => panic!("expected the scratch deletion, got {:?}", other),
    }
    let empty = OverlayCollection::Empty;
    assert!(ex.step8_add_previs_to_archive(&empty, true).is_err());
}
