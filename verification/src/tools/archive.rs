//! The archive backend: two incompatible packing tools behind one
//! `create`/`append` contract.
//!
//! One tool can append to an existing archive in a single pack call; the
//! other cannot append at all, so adding files means extract, merge, delete
//! the old archive and repack — a required behaviour, not an inefficiency.
//! The two profiles also differ in side effects: creating an archive with
//! the append-incapable tool consumes the source directory, while the
//! append-capable tool preserves it.
//!
//! Each operation here returns a plan: the exact actions the caller must
//! perform, in order.  An operation that is rejected (such as `append` on a
//! missing archive) returns an error and no plan, so nothing is created,
//! deleted or modified.

use vstd::prelude::*;

use crate::config::ArchiveTool;
use crate::strutil::{concat2, join_path, joined_path, seq_views};

verus! {

/// One effect of an archive operation, for the caller to carry out.
#[derive(Debug, Clone, PartialEq, Eq)]
pub enum ArchiveAction {
    /// Launch the append-incapable packer: create `archive_path` from the
    /// files under `source_dir`.
    RunArchive2Create { exe: String, source_dir: String, archive_path: String, xbox: bool },
    /// Launch the append-incapable packer: extract `archive_path` into
    /// `dest_dir`.
    RunArchive2Extract { exe: String, archive_path: String, dest_dir: String },
    /// Launch the append-capable packer against `archive_path`; the archive
    /// is created if absent and appended to if present.
    RunBsarchPack { exe: String, source_dir: String, archive_path: String },
    /// Delete the directory and its contents, if it exists.
    DeleteDir { path: String },
    /// Delete the file.
    DeleteFile { path: String },
    /// Create the directory and its parents.
    CreateDir { path: String },
    /// Recursively copy every file under `src` into `dest`, overwriting on
    /// name collision.
    CopyDirInto { src: String, dest: String },
}

/// A planned archive operation: the steps of the success path, in order,
/// and the cleanup the caller must still run if one of the steps fails.
#[derive(Debug)]
pub struct ArchivePlan {
    /// The actions to perform, in order, stopping at the first failure.
    pub steps: Vec<ArchiveAction>,
    /// The actions to perform after a failure among `steps`.
    pub on_error: Vec<ArchiveAction>,
}

/// Why an archive operation was rejected before any action was taken.
#[derive(Debug, Clone, Copy, PartialEq, Eq, Structural)]
pub enum ArchiveError {
    /// `append` was asked of an archive that does not exist.
    ArchiveMissing,
    /// The selected tool's executable was not supplied.
    ExeNotConfigured,
    /// Overlay collection ran and found nothing to archive.
    NoCollectedFiles,
}

/// What overlay collection observed, for an operation whose source files
/// may live in an overlay filesystem that the packing tools cannot see.
#[derive(Debug, Clone, PartialEq, Eq)]
pub enum OverlayCollection {
    /// No overlay is in play; archive from the real directory.
    Off,
    /// The overlay was searched and held no files.
    Empty,
    /// The overlay's files were staged into this directory.
    Staged(String),
}

/// Unifies the two packing tools behind one `create`/`append` contract.
#[derive(Debug)]
pub struct ArchiveManager {
    /// Which capability profile this manager drives.
    pub tool: ArchiveTool,
    /// Path of the append-incapable packer, when that profile is selected.
    pub archive2_exe: Option<String>,
    /// Path of the append-capable packer, when that profile is selected.
    pub bsarch_exe: Option<String>,
    /// The game directory; archives live in its `Data` subdirectory.
    pub fallout4_dir: String,
}

impl ArchiveManager {
    /// The selected tool's executable is supplied.
    pub open spec fn wf(&self) -> bool {
        &&& self.tool is Archive2 ==> self.archive2_exe is Some
        &&& self.tool is BSArch ==> self.bsarch_exe is Some
    }

    /// The `Data` directory archives are written into.
    pub open spec fn spec_data_dir(&self) -> Seq<char> {
        joined_path(self.fallout4_dir@, "Data"@)
    }

    /// The full path of the named archive.
    pub open spec fn spec_archive_path(&self, archive_name: Seq<char>) -> Seq<char> {
        joined_path(self.spec_data_dir(), archive_name)
    }

    /// The scratch directory the extract/repack append path uses.
    pub open spec fn spec_extract_dir(&self) -> Seq<char> {
        joined_path(self.spec_data_dir(), "_temp_archive_extract"@)
    }

    /// The scratch directory overlay collection fills.
    pub open spec fn spec_collect_dir(&self) -> Seq<char> {
        joined_path(self.spec_data_dir(), "_temp_mo2_collect"@)
    }

    /// `steps` is exactly the plan that creates the named archive from
    /// `source`: one pack call, and, for the append-incapable profile, the
    /// deletion of the source directory afterwards.
    pub open spec fn is_create_steps(
        &self,
        steps: Seq<ArchiveAction>,
        source: Seq<char>,
        name: Seq<char>,
        xbox: bool,
    ) -> bool {
        if self.tool is Archive2 {
            steps.len() == 2 && (steps[0] matches ArchiveAction::RunArchive2Create {
                exe,
                source_dir: s,
                archive_path,
                xbox: x,
            } && exe == self.archive2_exe->0 && s@ == source && archive_path@
                == self.spec_archive_path(name) && x == xbox) && (steps[1]
                matches ArchiveAction::DeleteDir { path } && path@ == source)
        } else {
            steps.len() == 1 && (steps[0] matches ArchiveAction::RunBsarchPack {
                exe,
                source_dir: s,
                archive_path,
            } && exe == self.bsarch_exe->0 && s@ == source && archive_path@
                == self.spec_archive_path(name))
        }
    }

    /// `steps` is exactly the plan that adds the files under `source` to
    /// the named archive.  The append-capable profile packs straight onto
    /// the archive and preserves the source; the append-incapable profile
    /// extracts to scratch, merges, deletes the old archive, repacks, and
    /// deletes scratch and source.
    pub open spec fn is_append_steps(
        &self,
        steps: Seq<ArchiveAction>,
        source: Seq<char>,
        name: Seq<char>,
        xbox: bool,
    ) -> bool {
        if self.tool is Archive2 {
            steps.len() == 8 && (steps[0] matches ArchiveAction::DeleteDir { path } && path@
                == self.spec_extract_dir()) && (steps[1] matches ArchiveAction::CreateDir { path }
                && path@ == self.spec_extract_dir()) && (steps[2]
                matches ArchiveAction::RunArchive2Extract { exe, archive_path, dest_dir } && exe
                == self.archive2_exe->0 && archive_path@ == self.spec_archive_path(name)
                && dest_dir@ == self.spec_extract_dir()) && (steps[3]
                matches ArchiveAction::CopyDirInto { src, dest } && src@ == source && dest@
                == self.spec_extract_dir()) && (steps[4] matches ArchiveAction::DeleteFile { path }
                && path@ == self.spec_archive_path(name)) && (steps[5]
                matches ArchiveAction::RunArchive2Create { exe, source_dir: s, archive_path, xbox: x }
                && exe == self.archive2_exe->0 && s@ == self.spec_extract_dir() && archive_path@
                == self.spec_archive_path(name) && x == xbox) && (steps[6]
                matches ArchiveAction::DeleteDir { path } && path@ == self.spec_extract_dir()) && (
            steps[7] matches ArchiveAction::DeleteDir { path } && path@ == source)
        } else {
            steps.len() == 1 && (steps[0] matches ArchiveAction::RunBsarchPack {
                exe,
                source_dir: s,
                archive_path,
            } && exe == self.bsarch_exe->0 && s@ == source && archive_path@
                == self.spec_archive_path(name))
        }
    }

    /// `on_error` is exactly the cleanup owed after a failed append: the
    /// scratch directory is removed; the append-capable profile owes none.
    pub open spec fn is_append_cleanup(&self, on_error: Seq<ArchiveAction>) -> bool {
        if self.tool is Archive2 {
            on_error.len() == 1 && (on_error[0] matches ArchiveAction::DeleteDir { path } && path@
                == self.spec_extract_dir())
        } else {
            on_error.len() == 0
        }
    }

    /// Create a new archive manager.
    ///
    /// Rejected when the executable of the selected tool is missing; the
    /// other tool's path is not consulted.
    pub fn new(
        tool: ArchiveTool,
        archive2_exe: Option<String>,
        bsarch_exe: Option<String>,
        fallout4_dir: &str,
    ) -> (r: Result<ArchiveManager, ArchiveError>)
        ensures
            r is Ok <==> (tool is Archive2 ==> archive2_exe is Some) && (tool is BSArch
                ==> bsarch_exe is Some),
            r matches Ok(m) ==> m.tool == tool && m.archive2_exe == archive2_exe && m.bsarch_exe
                == bsarch_exe && m.fallout4_dir@ == fallout4_dir@ && m.wf(),
            r is Err ==> r == Result::<ArchiveManager, ArchiveError>::Err(
                ArchiveError::ExeNotConfigured,
            ),
    {
        match tool {
            ArchiveTool::Archive2 => {
                if archive2_exe.is_none() {
                    return Err(ArchiveError::ExeNotConfigured);
                }
            },
            ArchiveTool::BSArch => {
                if bsarch_exe.is_none() {
                    return Err(ArchiveError::ExeNotConfigured);
                }
            },
        }
        Ok(ArchiveManager { tool, archive2_exe, bsarch_exe, fallout4_dir: fallout4_dir.to_owned() })
    }

    /// The plan that creates a new archive from a directory.
    ///
    /// Both profiles pack in a single call.  The append-incapable profile
    /// then deletes the source directory — archiving with it consumes the
    /// source — while the append-capable profile preserves it.
    pub fn create_archive(&self, source_dir: &str, archive_name: &str, is_xbox: bool) -> (r: Vec<
        ArchiveAction,
    >)
        requires
            self.wf(),
        ensures
            self.is_create_steps(r@, source_dir@, archive_name@, is_xbox),
    {
        let data_dir = join_path(self.fallout4_dir.as_str(), "Data");
        let archive_path = join_path(data_dir.as_str(), archive_name);
        let mut r: Vec<ArchiveAction> = Vec::new();
        match self.tool {
            ArchiveTool::Archive2 => {
                let exe = self.archive2_exe.as_ref().unwrap().clone();
                r.push(
                    ArchiveAction::RunArchive2Create {
                        exe,
                        source_dir: source_dir.to_owned(),
                        archive_path,
                        xbox: is_xbox,
                    },
                );
                r.push(ArchiveAction::DeleteDir { path: source_dir.to_owned() });
            },
            ArchiveTool::BSArch => {
                let exe = self.bsarch_exe.as_ref().unwrap().clone();
                r.push(
                    ArchiveAction::RunBsarchPack {
                        exe,
                        source_dir: source_dir.to_owned(),
                        archive_path,
                    },
                );
            },
        }
        r
    }

    /// The plan that adds the files of a directory to an existing archive.
    ///
    /// Rejected with `ArchiveMissing`, before anything else, when the
    /// archive does not exist (`archive_exists` is what the caller observed
    /// of it); an error carries no plan, so no file is created, deleted or
    /// modified.  The append-capable profile packs straight onto the
    /// archive and preserves the source.  The append-incapable profile
    /// cannot append: it extracts the archive to a scratch directory,
    /// merges the source into it, deletes the old archive, repacks from the
    /// merged directory, and deletes scratch and source; on failure the
    /// scratch directory is still removed.
    pub fn add_to_archive(
        &self,
        source_dir: &str,
        archive_name: &str,
        is_xbox: bool,
        archive_exists: bool,
    ) -> (r: Result<ArchivePlan, ArchiveError>)
        requires
            self.wf(),
        ensures
            !archive_exists <==> r == Result::<ArchivePlan, ArchiveError>::Err(
                ArchiveError::ArchiveMissing,
            ),
            archive_exists ==> (r matches Ok(plan) && self.is_append_steps(
                plan.steps@,
                source_dir@,
                archive_name@,
                is_xbox,
            ) && self.is_append_cleanup(plan.on_error@)),
    {
        if !archive_exists {
            return Err(ArchiveError::ArchiveMissing);
        }
        let data_dir = join_path(self.fallout4_dir.as_str(), "Data");
        let archive_path = join_path(data_dir.as_str(), archive_name);
        match self.tool {
            ArchiveTool::Archive2 => {
                let temp_extract = join_path(data_dir.as_str(), "_temp_archive_extract");
                let exe = self.archive2_exe.as_ref().unwrap();
                let mut steps: Vec<ArchiveAction> = Vec::new();
                steps.push(ArchiveAction::DeleteDir { path: temp_extract.clone() });
                steps.push(ArchiveAction::CreateDir { path: temp_extract.clone() });
                steps.push(
                    ArchiveAction::RunArchive2Extract {
                        exe: exe.clone(),
                        archive_path: archive_path.clone(),
                        dest_dir: temp_extract.clone(),
                    },
                );
                steps.push(
                    ArchiveAction::CopyDirInto {
                        src: source_dir.to_owned(),
                        dest: temp_extract.clone(),
                    },
                );
                steps.push(ArchiveAction::DeleteFile { path: archive_path.clone() });
                steps.push(
                    ArchiveAction::RunArchive2Create {
                        exe: exe.clone(),
                        source_dir: temp_extract.clone(),
                        archive_path,
                        xbox: is_xbox,
                    },
                );
                steps.push(ArchiveAction::DeleteDir { path: temp_extract.clone() });
                steps.push(ArchiveAction::DeleteDir { path: source_dir.to_owned() });
                let mut on_error: Vec<ArchiveAction> = Vec::new();
                on_error.push(ArchiveAction::DeleteDir { path: temp_extract });
                Ok(ArchivePlan { steps, on_error })
            },
            ArchiveTool::BSArch => {
                let exe = self.bsarch_exe.as_ref().unwrap().clone();
                let mut steps: Vec<ArchiveAction> = Vec::new();
                steps.push(
                    ArchiveAction::RunBsarchPack {
                        exe,
                        source_dir: source_dir.to_owned(),
                        archive_path,
                    },
                );
                Ok(ArchivePlan { steps, on_error: Vec::new() })
            },
        }
    }

    /// The plan that creates the archive from the precombined-mesh output.
    ///
    /// Without an overlay, the source is the real `meshes\precombined`
    /// directory under `Data`.  With an overlay, the caller has collected
    /// the overlay's files first: an empty collection is rejected, and a
    /// staged one is archived and followed by removal of the collection
    /// scratch directory — which is removed on a failure as well.
    pub fn create_archive_from_precombines(
        &self,
        archive_name: &str,
        is_xbox: bool,
        overlay: &OverlayCollection,
    ) -> (r: Result<ArchivePlan, ArchiveError>)
        requires
            self.wf(),
        ensures
            overlay is Empty <==> r == Result::<ArchivePlan, ArchiveError>::Err(
                ArchiveError::NoCollectedFiles,
            ),
            overlay is Off ==> (r matches Ok(plan) && self.is_create_steps(
                plan.steps@,
                joined_path(joined_path(self.spec_data_dir(), "meshes"@), "precombined"@),
                archive_name@,
                is_xbox,
            ) && plan.on_error@.len() == 0),
            overlay matches OverlayCollection::Staged(d) ==> (r matches Ok(plan)
                && plan.steps@.len() >= 1 && self.is_create_steps(
                plan.steps@.drop_last(),
                d@,
                archive_name@,
                is_xbox,
            ) && (plan.steps@.last() matches ArchiveAction::DeleteDir { path } && path@
                == self.spec_collect_dir()) && plan.on_error@.len() == 1 && (plan.on_error@[0]
                matches ArchiveAction::DeleteDir { path } && path@ == self.spec_collect_dir())),
    {
        let data_dir = join_path(self.fallout4_dir.as_str(), "Data");
        match overlay {
            OverlayCollection::Off => {
                let meshes_dir = join_path(data_dir.as_str(), "meshes");
                let precombined_dir = join_path(meshes_dir.as_str(), "precombined");
                let steps = self.create_archive(precombined_dir.as_str(), archive_name, is_xbox);
                Ok(ArchivePlan { steps, on_error: Vec::new() })
            },
            OverlayCollection::Empty => Err(ArchiveError::NoCollectedFiles),
            OverlayCollection::Staged(collected) => {
                let mut steps = self.create_archive(collected.as_str(), archive_name, is_xbox);
                let ghost before = steps@;
                let temp_collect = join_path(data_dir.as_str(), "_temp_mo2_collect");
                steps.push(ArchiveAction::DeleteDir { path: temp_collect.clone() });
                let mut on_error: Vec<ArchiveAction> = Vec::new();
                on_error.push(ArchiveAction::DeleteDir { path: temp_collect });
                proof {
                    assert(steps@.drop_last() =~= before);
                }
                Ok(ArchivePlan { steps, on_error })
            },
        }
    }

    /// The plan that adds the previs output to the existing archive.
    ///
    /// Without an overlay, the source is the real `vis` directory under
    /// `Data`.  With an overlay, the caller has collected the overlay's
    /// files first: an empty collection is rejected before the archive is
    /// even considered, and a staged one is appended and followed by
    /// removal of the collection scratch directory — removed on a failure
    /// as well.  A missing archive is rejected with `ArchiveMissing` and
    /// no plan.
    pub fn add_previs_to_archive(
        &self,
        archive_name: &str,
        is_xbox: bool,
        overlay: &OverlayCollection,
        archive_exists: bool,
    ) -> (r: Result<ArchivePlan, ArchiveError>)
        requires
            self.wf(),
        ensures
            overlay is Empty <==> r == Result::<ArchivePlan, ArchiveError>::Err(
                ArchiveError::NoCollectedFiles,
            ),
            !(overlay is Empty) && !archive_exists <==> r == Result::<
                ArchivePlan,
                ArchiveError,
            >::Err(ArchiveError::ArchiveMissing),
            overlay is Off && archive_exists ==> (r matches Ok(plan) && self.is_append_steps(
                plan.steps@,
                joined_path(self.spec_data_dir(), "vis"@),
                archive_name@,
                is_xbox,
            ) && self.is_append_cleanup(plan.on_error@)),
            overlay matches OverlayCollection::Staged(d) ==> (archive_exists ==> (r matches Ok(
                plan,
            ) && plan.steps@.len() >= 1 && self.is_append_steps(
                plan.steps@.drop_last(),
                d@,
                archive_name@,
                is_xbox,
            ) && (plan.steps@.last() matches ArchiveAction::DeleteDir { path } && path@
                == self.spec_collect_dir()) && plan.on_error@.len() >= 1
                && self.is_append_cleanup(plan.on_error@.drop_last()) && (plan.on_error@.last()
                matches ArchiveAction::DeleteDir { path } && path@ == self.spec_collect_dir()))),
    {
        let data_dir = join_path(self.fallout4_dir.as_str(), "Data");
        match overlay {
            OverlayCollection::Off => {
                let vis_dir = join_path(data_dir.as_str(), "vis");
                self.add_to_archive(vis_dir.as_str(), archive_name, is_xbox, archive_exists)
            },
            OverlayCollection::Empty => Err(ArchiveError::NoCollectedFiles),
            OverlayCollection::Staged(collected) => {
                let mut plan = self.add_to_archive(
                    collected.as_str(),
                    archive_name,
                    is_xbox,
                    archive_exists,
                )?;
                let ghost before = plan.steps@;
                let ghost cleanup_before = plan.on_error@;
                let temp_collect = join_path(data_dir.as_str(), "_temp_mo2_collect");
                plan.steps.push(ArchiveAction::DeleteDir { path: temp_collect.clone() });
                plan.on_error.push(ArchiveAction::DeleteDir { path: temp_collect });
                proof {
                    assert(plan.steps@.drop_last() =~= before);
                    assert(plan.on_error@.drop_last() =~= cleanup_before);
                }
                Ok(plan)
            },
        }
    }
}

/// The command line of the append-incapable packer's create call: pack
/// `source_dir` into the archive, in the general format, quietly, and in
/// the console compression when asked for.
pub fn archive2_create_args(source_dir: &str, archive_path: &str, xbox: bool) -> (r: Vec<String>)
    ensures
        !xbox ==> seq_views(r@) == seq![
            source_dir@,
            "-c="@ + archive_path@,
            "-f=General"@,
            "-q"@,
        ],
        xbox ==> seq_views(r@) == seq![
            source_dir@,
            "-c="@ + archive_path@,
            "-f=General"@,
            "-q"@,
            "-compression=XBox"@,
        ],
{
    let mut r: Vec<String> = Vec::new();
    r.push(source_dir.to_owned());
    r.push(concat2("-c=", archive_path));
    r.push("-f=General".to_owned());
    r.push("-q".to_owned());
    if xbox {
        r.push("-compression=XBox".to_owned());
        proof {
            assert(seq_views(r@) =~= seq![
                source_dir@,
                "-c="@ + archive_path@,
                "-f=General"@,
                "-q"@,
                "-compression=XBox"@,
            ]);
        }
    } else {
        proof {
            assert(seq_views(r@) =~= seq![
                source_dir@,
                "-c="@ + archive_path@,
                "-f=General"@,
                "-q"@,
            ]);
        }
    }
    r
}

/// The command line of the append-incapable packer's extract call.
pub fn archive2_extract_args(archive_path: &str, dest_dir: &str) -> (r: Vec<String>)
    ensures
        seq_views(r@) == seq![archive_path@, "-e="@ + dest_dir@, "-q"@],
{
    let mut r: Vec<String> = Vec::new();
    r.push(archive_path.to_owned());
    r.push(concat2("-e=", dest_dir));
    r.push("-q".to_owned());
    proof {
        assert(seq_views(r@) =~= seq![archive_path@, "-e="@ + dest_dir@, "-q"@]);
    }
    r
}

/// The command line of the append-capable packer's pack call:
/// multi-threaded, in the game's archive format, compressed.
pub fn bsarch_pack_args(source_dir: &str, archive_path: &str) -> (r: Vec<String>)
    ensures
        seq_views(r@) == seq![
            "pack"@,
            source_dir@,
            archive_path@,
            "-mt"@,
            "-fo4"@,
            "-z"@,
        ],
{
    let mut r: Vec<String> = Vec::new();
    r.push("pack".to_owned());
    r.push(source_dir.to_owned());
    r.push(archive_path.to_owned());
    r.push("-mt".to_owned());
    r.push("-fo4".to_owned());
    r.push("-z".to_owned());
    proof {
        assert(seq_views(r@) =~= seq![
            "pack"@,
            source_dir@,
            archive_path@,
            "-mt"@,
            "-fo4"@,
            "-z"@,
        ]);
    }
    r
}

} // verus!
