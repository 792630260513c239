//! Decisions over observed directory contents: installation checks and the
//! plugin-file filters the workflow consults.  The caller lists the
//! directories; the logic here is what the listings mean.

use vstd::prelude::*;

use crate::strutil::{
    contains_ic_seq, ends_with_ic_seq, eq_ic_seq, seq_views, str_contains_ic, str_ends_with_ic,
    str_eq_ic,
};

verus! {

/// Why the installation layout was rejected.
#[derive(Debug, Clone, Copy, PartialEq, Eq, Structural)]
pub enum SetupError {
    /// The `Data` directory is missing: not a game installation.
    DataDirMissing,
    /// The game's master file is missing from `Data`.
    MasterFileMissing,
}

/// Check the game installation's layout from what the caller observed:
/// the `Data` directory must exist and hold the game's master file.
pub fn validate_fo4_directories(data_dir_exists: bool, fallout4_esm_exists: bool) -> (r: Result<
    (),
    SetupError,
>)
    ensures
        r is Ok <==> data_dir_exists && fallout4_esm_exists,
        !data_dir_exists ==> r == Result::<(), SetupError>::Err(SetupError::DataDirMissing),
        data_dir_exists && !fallout4_esm_exists ==> r == Result::<(), SetupError>::Err(
            SetupError::MasterFileMissing,
        ),
{
    if !data_dir_exists {
        return Err(SetupError::DataDirMissing);
    }
    if !fallout4_esm_exists {
        return Err(SetupError::MasterFileMissing);
    }
    Ok(())
}

/// A plugin file whose name carries the leftover-patch marker, compared
/// without case.
pub open spec fn is_xprevis_plugin(name: Seq<char>) -> bool {
    (ends_with_ic_seq(name, ".esp"@) || ends_with_ic_seq(name, ".esm"@)) && contains_ic_seq(
        name,
        "xprevispatch"@,
    )
}

/// A temporary plugin the workflow leaves behind, compared without case.
pub open spec fn is_working_file(name: Seq<char>) -> bool {
    eq_ic_seq(name, "previs.esp"@) || eq_ic_seq(name, "combinedobjects.esp"@)
}

/// The names among the first `i` entries that satisfy `xprevis` (when set)
/// or the working-file test (when clear), in listing order.
pub open spec fn spec_matching_names(names: Seq<Seq<char>>, i: int, xprevis: bool) -> Seq<
    Seq<char>,
>
    decreases i,
{
    if i <= 0 || i > names.len() {
        Seq::empty()
    } else {
        let rest = spec_matching_names(names, i - 1, xprevis);
        let hit = if xprevis {
            is_xprevis_plugin(names[i - 1])
        } else {
            is_working_file(names[i - 1])
        };
        if hit {
            rest.push(names[i - 1])
        } else {
            rest
        }
    }
}

/// Filter a directory listing by one of the two name tests.
fn filter_names(file_names: &Vec<String>, xprevis: bool) -> (r: Vec<String>)
    ensures
        seq_views(r@) == spec_matching_names(
            seq_views(file_names@),
            file_names@.len() as int,
            xprevis,
        ),
{
    let ghost names = seq_views(file_names@);
    let n = file_names.len();
    let mut r: Vec<String> = Vec::new();
    let mut i: usize = 0;
    proof {
        assert(seq_views(r@) =~= spec_matching_names(names, 0, xprevis));
    }
    while i < n
        invariant
            i <= n,
            n == file_names@.len(),
            names == seq_views(file_names@),
            seq_views(r@) == spec_matching_names(names, i as int, xprevis),
        decreases n - i,
    {
        let name = file_names[i].as_str();
        proof {
            assert(names[i as int] == file_names@[i as int]@);
        }
        let hit = if xprevis {
            (str_ends_with_ic(name, ".esp") || str_ends_with_ic(name, ".esm")) && str_contains_ic(
                name,
                "xprevispatch",
            )
        } else {
            str_eq_ic(name, "previs.esp") || str_eq_ic(name, "combinedobjects.esp")
        };
        if hit {
            let owned = file_names[i].clone();
            proof {
                assert(seq_views(r@.push(owned)) =~= seq_views(r@).push(owned@));
            }
            r.push(owned);
        }
        i += 1;
    }
    r
}

/// The leftover-patch plugins among the Data directory's file names: every
/// `.esp` or `.esm` whose name contains `xprevispatch`, without case.
pub fn find_xprevis_patch_plugins(file_names: &Vec<String>) -> (r: Vec<String>)
    ensures
        seq_views(r@) == spec_matching_names(
            seq_views(file_names@),
            file_names@.len() as int,
            true,
        ),
{
    filter_names(file_names, true)
}

/// The workflow's temporary working files among the Data directory's file
/// names: `Previs.esp` and `CombinedObjects.esp`, without case.
pub fn find_working_files(file_names: &Vec<String>) -> (r: Vec<String>)
    ensures
        seq_views(r@) == spec_matching_names(
            seq_views(file_names@),
            file_names@.len() as int,
            false,
        ),
{
    filter_names(file_names, false)
}

} // verus!
