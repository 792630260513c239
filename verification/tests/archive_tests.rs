use generateprevisibines::config::ArchiveTool;
use generateprevisibines::tools::archive::{
    ArchiveAction, ArchiveError, ArchiveManager, OverlayCollection,
};

#[test]
fn test_archive_manager_requires_exe() {
    // Archive2 without exe should fail
    let result = ArchiveManager::new(ArchiveTool::Archive2, None, None, "F:\\Games\\Fallout4");
    assert_eq!(result.unwrap_err(), ArchiveError::ExeNotConfigured);

    // BSArch without exe should fail
    let result = ArchiveManager::new(ArchiveTool::BSArch, None, None, "F:\\Games\\Fallout4");
    assert_eq!(result.unwrap_err(), ArchiveError::ExeNotConfigured);
}

#[test]
fn test_archive_manager_with_exe() {
    let result = ArchiveManager::new(
        ArchiveTool::Archive2,
        Some("Archive2.exe".to_string()),
        None,
        "F:\\Games\\Fallout4",
    );
    assert!(result.is_ok());

    let result = ArchiveManager::new(
        ArchiveTool::BSArch,
        None,
        Some("BSArch.exe".to_string()),
        "F:\\Games\\Fallout4",
    );
    assert!(result.is_ok());
}

/// A toy filesystem for walking an archive plan: directories and files by
/// full path.
struct ModelFs {
    dirs: Vec<String>,
    files: Vec<String>,
}

impl ModelFs {
    fn has_dir(&self, p: &str) -> bool {
        self.dirs.iter().any(|d| d == p)
    }

    fn has_file(&self, p: &str) -> bool {
        self.files.iter().any(|f| f == p)
    }

    fn apply(&mut self, action: &ArchiveAction) {
        match action {
            ArchiveAction::RunArchive2Create { source_dir, archive_path, .. } => {
                assert!(self.has_dir(source_dir), "pack of a missing source: {source_dir}");
                self.files.push(archive_path.clone());
            }
            ArchiveAction::RunArchive2Extract { archive_path, dest_dir, .. } => {
                assert!(self.has_file(archive_path), "extract of a missing archive");
                assert!(self.has_dir(dest_dir), "extract into a missing directory");
            }
            ArchiveAction::RunBsarchPack { source_dir, archive_path, .. } => {
                assert!(self.has_dir(source_dir), "pack of a missing source: {source_dir}");
                if !self.has_file(archive_path) {
                    self.files.push(archive_path.clone());
                }
            }
            ArchiveAction::DeleteDir { path } => {
                self.dirs.retain(|d| d != path);
            }
            ArchiveAction::DeleteFile { path } => {
                self.files.retain(|f| f != path);
            }
            ArchiveAction::CreateDir { path } => {
                if !self.has_dir(path) {
                    self.dirs.push(path.clone());
                }
            }
            ArchiveAction::CopyDirInto { src, .. } => {
                assert!(self.has_dir(src), "copy from a missing directory");
            }
        }
    }
}

fn archive2_manager() -> ArchiveManager {
    ArchiveManager::new(
        ArchiveTool::Archive2,
        Some("Archive2.exe".to_string()),
        None,
        "C:\\FO4",
    )
    .unwrap()
}

fn bsarch_manager() -> ArchiveManager {
    ArchiveManager::new(
        ArchiveTool::BSArch,
        None,
        Some("BSArch.exe".to_string()),
        "C:\\FO4",
    )
    .unwrap()
}

#[test]
fn scenario_extract_modify_repack_create_consumes_source() {
    // the append-incapable profile: after create, the archive exists and
    // the mesh directory no longer does
    let manager = archive2_manager();
    let mesh_dir = "C:\\FO4\\Data\\meshes\\precombined";
    let steps = manager.create_archive(mesh_dir, "Mod - Main.ba2", false);

    let mut fs = ModelFs {
        dirs: vec!["C:\\FO4\\Data".to_string(), mesh_dir.to_string()],
        files: Vec::new(),
    };
    for action in &steps {
        fs.apply(action);
    }
    assert!(fs.has_file("C:\\FO4\\Data\\Mod - Main.ba2"));
    assert!(!fs.has_dir(mesh_dir));
}

#[test]
fn direct_append_create_preserves_source() {
    let manager = bsarch_manager();
    let mesh_dir = "C:\\FO4\\Data\\meshes\\precombined";
    let steps = manager.create_archive(mesh_dir, "Mod - Main.ba2", false);
    assert_eq!(steps.len(), 1);

    let mut fs = ModelFs {
        dirs: vec!["C:\\FO4\\Data".to_string(), mesh_dir.to_string()],
        files: Vec::new(),
    };
    for action in &steps {
        fs.apply(action);
    }
    assert!(fs.has_file("C:\\FO4\\Data\\Mod - Main.ba2"));
    assert!(fs.has_dir(mesh_dir));
}

#[test]
fn scenario_direct_append_is_a_single_pack_call() {
    // the append-capable profile on an existing archive: one pack
    // invocation, and the populated source directory survives
    let manager = bsarch_manager();
    let vis_dir = "C:\\FO4\\Data\\vis";
    let plan = manager
        .add_to_archive(vis_dir, "Mod - Main.ba2", false, true)
        .unwrap();
    assert_eq!(plan.steps.len(), 1);
    assert!(plan.on_error.is_empty());
    match &plan.steps[0] {
        ArchiveAction::RunBsarchPack { exe, source_dir, archive_path } => {
            assert_eq!(exe, "BSArch.exe");
            assert_eq!(source_dir, vis_dir);
            assert_eq!(archive_path, "C:\\FO4\\Data\\Mod - Main.ba2");
        }
        other => panic!("expected a single pack call, got {:?}", other),
    }

    let mut fs = ModelFs {
        dirs: vec!["C:\\FO4\\Data".to_string(), vis_dir.to_string()],
        files: vec!["C:\\FO4\\Data\\Mod - Main.ba2".to_string()],
    };
    for action in &plan.steps {
        fs.apply(action);
    }
    assert!(fs.has_dir(vis_dir));
    assert!(fs.has_file("C:\\FO4\\Data\\Mod - Main.ba2"));
}

#[test]
fn append_on_missing_archive_is_rejected_without_any_action() {
    // both profiles refuse to append to an archive that does not exist,
    // and hand back no plan: nothing is created, deleted, or modified
    for manager in [archive2_manager(), bsarch_manager()] {
        let r = manager.add_to_archive("C:\\FO4\\Data\\vis", "Mod - Main.ba2", false, false);
        match r {
            Err(ArchiveError::ArchiveMissing) => {}
            other => panic!("expected the archive-missing rejection, got {:?}", other),
        }
    }
}

#[test]
fn extract_modify_repack_append_merges_and_cleans_up() {
    let manager = archive2_manager();
    let vis_dir = "C:\\FO4\\Data\\vis";
    let plan = manager
        .add_to_archive(vis_dir, "Mod - Main.ba2", false, true)
        .unwrap();
    assert_eq!(plan.steps.len(), 8);
    assert_eq!(plan.on_error.len(), 1);

    let mut fs = ModelFs {
        dirs: vec!["C:\\FO4\\Data".to_string(), vis_dir.to_string()],
        files: vec!["C:\\FO4\\Data\\Mod - Main.ba2".to_string()],
    };
    for action in &plan.steps {
        fs.apply(action);
    }
    // afterwards: the archive exists again, the scratch directory and the
    // source directory are both gone
    assert!(fs.has_file("C:\\FO4\\Data\\Mod - Main.ba2"));
    assert!(!fs.has_dir("C:\\FO4\\Data\\_temp_archive_extract"));
    assert!(!fs.has_dir(vis_dir));
}

#[test]
fn overlay_create_rejects_empty_collection() {
    let manager = archive2_manager();
    let r = manager.create_archive_from_precombines(
        "Mod - Main.ba2",
        false,
        &OverlayCollection::Empty,
    );
    assert_eq!(r.unwrap_err(), ArchiveError::NoCollectedFiles);
}

#[test]
fn overlay_create_archives_staged_files_and_removes_scratch() {
    let manager = archive2_manager();
    let staged = "C:\\FO4\\Data\\_temp_mo2_collect".to_string();
    let plan = manager
        .create_archive_from_precombines(
            "Mod - Main.ba2",
            false,
            &OverlayCollection::Staged(staged.clone()),
        )
        .unwrap();
    match plan.steps.last().unwrap() {
        ArchiveAction::DeleteDir { path } => assert_eq!(path, &staged),
        other => panic!("expected the scratch deletion, got {:?}", other),
    }
    match &plan.steps[0] {
        ArchiveAction::RunArchive2Create { source_dir, .. } => assert_eq!(source_dir, &staged),
        other => panic!("expected a pack of the staged files, got {:?}", other),
    }
    // the scratch directory is removed even when a step fails
    match plan.on_error.last().unwrap() {
        ArchiveAction::DeleteDir { path } => assert_eq!(path, &staged),
        other => panic!("expected the scratch deletion, got {:?}", other),
    }
}
