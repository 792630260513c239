use generateprevisibines::config::BuildMode;
use generateprevisibines::invoker::{classify, ToolError, ToolRun, ToolWarning};
use generateprevisibines::tools::creation_kit::{check_previs_log, CreationKitRunner};
use generateprevisibines::tools::dll_manager::{DllGuard, DllManager};
use generateprevisibines::tools::fo4edit::FO4EditRunner;

#[test]
fn test_module_compiles() {
    // Basic compilation test
    assert!(true);
}

#[test]
fn creation_kit_test_runner_creation() {
    let runner = CreationKitRunner::new("CreationKit.exe", "F:\\Games\\Fallout4");
    assert_eq!(runner.ck_exe, "CreationKit.exe");
}

#[test]
fn test_with_log_file() {
    let runner = CreationKitRunner::new("CreationKit.exe", "F:\\Games\\Fallout4")
        .with_log_file("CreationKit.log");

    assert_eq!(runner.log_file, Some("CreationKit.log".to_string()));
}

#[test]
fn fo4edit_test_runner_creation() {
    let runner = FO4EditRunner::new("FO4Edit.exe", "F:\\Games\\Fallout4");
    assert_eq!(runner.fo4edit_exe, "FO4Edit.exe");
}

fn ck_style_run() -> ToolRun {
    CreationKitRunner::new("CreationKit.exe", "F:\\Games\\Fallout4")
        .with_log_file("CreationKit.log")
        .generate_precombined("MyMod.esp", BuildMode::Clean)
}

#[test]
fn classification_ignores_a_nonzero_exit_code() {
    // a run that exits non-zero but writes a clean log is a success
    let run = ck_style_run();
    let log = "loading...\nall good\n".to_string();
    let outcome = classify(&run, Some(3), Some(&log)).unwrap();
    assert_eq!(outcome.exit_code, Some(3));
    assert!(outcome.warnings.is_empty());
}

#[test]
fn classification_ignores_a_zero_exit_code() {
    // a run that exits zero but logs a registered fatal token fails
    let run = ck_style_run();
    let log = "loading...\nOUT OF HANDLE ARRAY ENTRIES\n".to_string();
    match classify(&run, Some(0), Some(&log)) {
        Err(ToolError::LogFatalPattern { pattern }) => {
            assert_eq!(pattern, "OUT OF HANDLE ARRAY ENTRIES");
        }
        other => panic!("expected the fatal-pattern verdict, got {:?}", other),
    }
}

#[test]
fn missing_log_is_a_warning_for_tolerant_runs() {
    let run = ck_style_run();
    let outcome = classify(&run, Some(0), None).unwrap();
    assert_eq!(outcome.warnings, vec![ToolWarning::LogMissing]);
}

#[test]
fn missing_log_is_fatal_for_runs_that_need_evidence() {
    let run = FO4EditRunner::new("FO4Edit.exe", "F:\\Games\\Fallout4")
        .merge_combined_objects("MyMod.esp", "C:\\Temp")
        .tool;
    assert!(run.missing_log_fatal);
    match classify(&run, Some(0), None) {
        Err(ToolError::LogMissing) => {}
        other => panic!("expected the missing-log verdict, got {:?}", other),
    }
}

#[test]
fn absent_success_token_is_a_warning_never_an_error() {
    let run = FO4EditRunner::new("FO4Edit.exe", "F:\\Games\\Fallout4")
        .merge_previs("MyMod.esp", "C:\\Temp")
        .tool;
    let log = "merging records...\ndone\n".to_string();
    let outcome = classify(&run, Some(0), Some(&log)).unwrap();
    assert_eq!(outcome.warnings, vec![ToolWarning::SuccessTokenMissing]);

    let log = "merging records...\nCompleted: No Errors.\n".to_string();
    let outcome = classify(&run, Some(1), Some(&log)).unwrap();
    assert!(outcome.warnings.is_empty());
}

#[test]
fn editor_error_token_is_fatal() {
    let run = FO4EditRunner::new("FO4Edit.exe", "F:\\Games\\Fallout4")
        .merge_previs("MyMod.esp", "C:\\Temp")
        .tool;
    let log = "merging records...\nError: bad record\n".to_string();
    match classify(&run, Some(0), Some(&log)) {
        Err(ToolError::LogFatalPattern { pattern }) => assert_eq!(pattern, "Error:"),
        other => panic!("expected the fatal-pattern verdict, got {:?}", other),
    }
}

#[test]
fn previs_log_check_reads_its_own_token() {
    let bad = "cells...\nvisibility task did not complete\n".to_string();
    assert!(check_previs_log(Some(&bad)).is_err());
    let good = "cells...\ndone\n".to_string();
    assert!(check_previs_log(Some(&good)).is_ok());
    assert!(check_previs_log(None).is_ok());
}

#[test]
fn ck_run_shapes() {
    let runner = CreationKitRunner::new("CreationKit.exe", "F:\\Games\\Fallout4")
        .with_log_file("CreationKit.log");
    let t = runner.compress_psg("MyMod.esp");
    assert_eq!(t.args, vec!["-CompressPSG:MyMod.esp".to_string()]);
    let t = runner.build_cdx("MyMod.esp");
    assert_eq!(t.args, vec!["-BuildCDX:MyMod.esp".to_string()]);
    let t = runner.generate_previs("MyMod.esp");
    assert_eq!(
        t.args,
        vec![
            "-GeneratePreVisData:MyMod.esp".to_string(),
            "clean".to_string(),
            "all".to_string(),
        ]
    );
    let t = runner.generate_precombined("MyMod.esp", BuildMode::Xbox);
    assert_eq!(t.args[1], "filtered");
}

#[test]
fn scan_finds_interfering_dlls_among_names() {
    let present = vec![
        "d3d11.dll".to_string(),
        "dxgi.dll".to_string(),
        "other.dll".to_string(),
    ];
    let manager = DllManager::new("C:\\FO4".to_string());
    let found = manager.scan(&present);
    assert_eq!(
        found,
        vec!["C:\\FO4\\d3d11.dll".to_string(), "C:\\FO4\\dxgi.dll".to_string()]
    );
}

#[test]
fn guard_scope_disables_and_restores_the_same_resources() {
    // a scope that disables N resources hands back exactly N restoring
    // renames, each the inverse of its disable
    let present = vec![
        "d3d11.dll".to_string(),
        "dxgi.dll".to_string(),
        "other.dll".to_string(),
    ];
    let mut manager = DllManager::new("C:\\FO4".to_string());
    let (guard, disables) = DllGuard::new(&mut manager, &present);
    assert_eq!(guard.disabled_count, 2);
    assert_eq!(disables.len(), 2);
    assert_eq!(disables[0].from, "C:\\FO4\\d3d11.dll");
    assert_eq!(disables[0].to, "C:\\FO4\\d3d11.dll-PJMdisabled");

    let restores = manager.restore_dlls();
    assert_eq!(restores.len(), 2);
    for (d, r) in disables.iter().zip(restores.iter()) {
        assert_eq!(r.from, d.to);
        assert_eq!(r.to, d.from);
    }

    // after restoration nothing is held, and a second release is empty
    assert_eq!(manager.restore_dlls().len(), 0);
}

#[test]
fn guard_scope_with_nothing_present_restores_nothing() {
    let present = vec!["other.dll".to_string()];
    let mut manager = DllManager::new("C:\\FO4".to_string());
    let (guard, disables) = DllGuard::new(&mut manager, &present);
    assert_eq!(guard.disabled_count, 0);
    assert!(disables.is_empty());
    assert!(manager.restore_dlls().is_empty());
}
