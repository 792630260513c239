//! Scoped disable/restore of DLLs that crash the Creation Kit.
//!
//! The Creation Kit crashes when certain graphics-enhancement DLLs sit in
//! its directory.  The remedy is to rename each one by appending a fixed
//! disabled-marker suffix before the Creation Kit runs, and to rename every
//! one of them back afterwards, whatever happened in between.  This module
//! plans those renames and proves the balance: a scope that disables N
//! resources emits exactly N restoring renames, each the inverse of the
//! disable that created it.  The caller performs the renames and must run
//! the restore plan on every exit path.

use vstd::prelude::*;

use crate::strutil::{concat2, contains_str, join_path, joined_path, seq_views};

verus! {

/// A file rename the caller must perform.
#[derive(Debug, Clone)]
pub struct RenameAction {
    /// Path the file currently has.
    pub from: String,
    /// Path it must get.
    pub to: String,
}

/// One resource held by the active guard scope: the path the subordinate
/// process would load, and the path it is parked under while disabled.
#[derive(Debug, Clone)]
pub struct GuardedResource {
    /// The resource's own path.
    pub original: String,
    /// The path carrying the disabled-marker suffix.
    pub disabled: String,
}

/// The views of a rename list, as pairs of character sequences.
pub open spec fn rename_views(v: Seq<RenameAction>) -> Seq<(Seq<char>, Seq<char>)> {
    v.map_values(|a: RenameAction| (a.from@, a.to@))
}

/// The views of a guarded-resource list.
pub open spec fn resource_views(v: Seq<GuardedResource>) -> Seq<(Seq<char>, Seq<char>)> {
    v.map_values(|g: GuardedResource| (g.original@, g.disabled@))
}

/// The parked name of a disabled resource: its own name with the fixed
/// disabled-marker suffix appended.
pub open spec fn disabled_name(orig: Seq<char>) -> Seq<char> {
    orig + "-PJMdisabled"@
}

/// The DLL names known to interfere with the Creation Kit.
pub open spec fn spec_interfering_dlls() -> Seq<Seq<char>> {
    seq![
        "d3d11.dll"@,
        "d3d10.dll"@,
        "d3d9.dll"@,
        "dxgi.dll"@,
        "enbimgui.dll"@,
        "d3dcompiler_46e.dll"@,
    ]
}

/// The full paths of the interfering DLLs that are present, scanning the
/// catalogue from index `i`: each present name joined onto `dir`.
pub open spec fn spec_scan_from(
    dir: Seq<char>,
    present: Seq<Seq<char>>,
    i: int,
) -> Seq<Seq<char>>
    decreases spec_interfering_dlls().len() - i,
{
    let names = spec_interfering_dlls();
    if i < 0 || i >= names.len() {
        Seq::empty()
    } else if present.contains(names[i]) {
        seq![joined_path(dir, names[i])] + spec_scan_from(dir, present, i + 1)
    } else {
        spec_scan_from(dir, present, i + 1)
    }
}

/// The full paths of the interfering DLLs among the present file names.
pub open spec fn spec_scan(dir: Seq<char>, present: Seq<Seq<char>>) -> Seq<Seq<char>> {
    spec_scan_from(dir, present, 0)
}

/// The renames that disable the found resources, in order.
pub open spec fn spec_disable_renames(found: Seq<Seq<char>>) -> Seq<(Seq<char>, Seq<char>)> {
    found.map_values(|p: Seq<char>| (p, disabled_name(p)))
}

/// The renames that restore recorded resources, in order: each parks-path
/// renamed back to the original path.
pub open spec fn spec_restore_renames(recorded: Seq<(Seq<char>, Seq<char>)>) -> Seq<
    (Seq<char>, Seq<char>),
> {
    recorded.map_values(|g: (Seq<char>, Seq<char>)| (g.1, g.0))
}

/// A guard scope over N found resources disables N and restores the same N,
/// each restore the exact inverse of its disable.
pub proof fn lemma_guard_round_trip(found: Seq<Seq<char>>)
    ensures
        spec_disable_renames(found).len() == found.len(),
        spec_restore_renames(spec_disable_renames(found)).len() == found.len(),
        forall|k: int|
            0 <= k < found.len() ==> #[trigger] spec_restore_renames(spec_disable_renames(found))[k]
                == (disabled_name(found[k]), found[k]),
{
    assert forall|k: int|
        0 <= k < found.len() implies #[trigger] spec_restore_renames(
        spec_disable_renames(found),
    )[k] == (disabled_name(found[k]), found[k]) by {
        assert(spec_disable_renames(found)[k] == (found[k], disabled_name(found[k])));
    }
}

/// Tracks which interfering DLLs the active scope has disabled.
#[derive(Debug)]
pub struct DllManager {
    /// The directory the subordinate process loads DLLs from.
    pub fallout4_dir: String,
    /// The resources disabled and not yet restored, in disable order.
    pub disabled: Vec<GuardedResource>,
}

impl DllManager {
    /// A manager for the given directory, with nothing disabled.
    pub fn new(fallout4_dir: String) -> (r: DllManager)
        ensures
            r.fallout4_dir == fallout4_dir,
            r.disabled@.len() == 0,
    {
        DllManager { fallout4_dir, disabled: Vec::new() }
    }

    /// The full paths of the interfering DLLs among the given file names
    /// (the names the directory currently holds), in catalogue order.
    pub fn scan(&self, present_files: &Vec<String>) -> (r: Vec<String>)
        ensures
            seq_views(r@) == spec_scan(self.fallout4_dir@, seq_views(present_files@)),
    {
        let ghost dir = self.fallout4_dir@;
        let ghost present = seq_views(present_files@);
        let mut names: Vec<&str> = Vec::new();
        names.push("d3d11.dll");
        names.push("d3d10.dll");
        names.push("d3d9.dll");
        names.push("dxgi.dll");
        names.push("enbimgui.dll");
        names.push("d3dcompiler_46e.dll");
        proof {
            assert(names@.map_values(|n: &str| n@) =~= spec_interfering_dlls());
        }
        let mut r: Vec<String> = Vec::new();
        let mut i: usize = 0;
        proof {
            assert(seq_views(r@) + spec_scan_from(dir, present, 0) =~= spec_scan_from(
                dir,
                present,
                0,
            ));
        }
        while i < 6
            invariant
                i <= 6,
                names@.len() == 6,
                names@.map_values(|n: &str| n@) == spec_interfering_dlls(),
                dir == self.fallout4_dir@,
                present == seq_views(present_files@),
                spec_scan(dir, present) == seq_views(r@) + spec_scan_from(dir, present, i as int),
            decreases 6 - i,
        {
            proof {
                assert(names@.map_values(|n: &str| n@)[i as int] == names@[i as int]@);
            }
            if contains_str(present_files, names[i]) {
                let p = join_path(self.fallout4_dir.as_str(), names[i]);
                proof {
                    assert(seq_views(r@.push(p)) =~= seq_views(r@).push(p@));
                    assert(seq_views(r@.push(p)) + spec_scan_from(dir, present, i + 1)
                        =~= seq_views(r@) + spec_scan_from(dir, present, i as int));
                }
                r.push(p);
            }
            i += 1;
        }
        proof {
            assert(seq_views(r@) + spec_scan_from(dir, present, 6) =~= seq_views(r@));
        }
        r
    }

    /// Record every found resource as disabled and hand back the renames
    /// that park them, in scan order.  The caller performs the renames
    /// before launching the subordinate process.
    pub fn disable_dlls(&mut self, present_files: &Vec<String>) -> (plan: Vec<RenameAction>)
        ensures
            final(self).fallout4_dir == old(self).fallout4_dir,
            rename_views(plan@) == spec_disable_renames(
                spec_scan(old(self).fallout4_dir@, seq_views(present_files@)),
            ),
            resource_views(final(self).disabled@) == resource_views(old(self).disabled@)
                + spec_disable_renames(
                spec_scan(old(self).fallout4_dir@, seq_views(present_files@)),
            ),
    {
        let found = self.scan(present_files);
        let ghost found_views = seq_views(found@);
        let n = found.len();
        let mut plan: Vec<RenameAction> = Vec::new();
        let mut i: usize = 0;
        proof {
            assert(rename_views(plan@) =~= spec_disable_renames(found_views).subrange(0, 0));
            assert(resource_views(self.disabled@) + spec_disable_renames(found_views).subrange(
                0,
                0,
            ) =~= resource_views(self.disabled@));
        }
        let ghost disabled0 = self.disabled@;
        while i < n
            invariant
                i <= n,
                n == found@.len(),
                found_views == seq_views(found@),
                self.fallout4_dir == old(self).fallout4_dir,
                disabled0 == old(self).disabled@,
                rename_views(plan@) == spec_disable_renames(found_views).subrange(0, i as int),
                resource_views(self.disabled@) == resource_views(disabled0)
                    + spec_disable_renames(found_views).subrange(0, i as int),
            decreases n - i,
        {
            let orig = found[i].clone();
            let parked = concat2(orig.as_str(), "-PJMdisabled");
            let ghost plan_pre = plan@;
            let ghost disabled_pre = self.disabled@;
            plan.push(RenameAction { from: orig.clone(), to: parked.clone() });
            self.disabled.push(GuardedResource { original: orig, disabled: parked });
            proof {
                assert(found_views[i as int] == found@[i as int]@);
                assert(rename_views(plan@) =~= rename_views(plan_pre).push(
                    (found_views[i as int], disabled_name(found_views[i as int])),
                ));
                assert(rename_views(plan@) =~= spec_disable_renames(found_views).subrange(
                    0,
                    i + 1,
                ));
                assert(resource_views(self.disabled@) =~= resource_views(disabled_pre).push(
                    (found_views[i as int], disabled_name(found_views[i as int])),
                ));
                assert(resource_views(self.disabled@) =~= resource_views(disabled0)
                    + spec_disable_renames(found_views).subrange(0, i + 1));
            }
            i += 1;
        }
        proof {
            assert(spec_disable_renames(found_views).subrange(
                0,
                spec_disable_renames(found_views).len() as int,
            ) =~= spec_disable_renames(found_views));
        }
        plan
    }

    /// Hand back the renames that restore every disabled resource — exactly
    /// one per recorded resource, each the inverse of its disable — and
    /// forget them.  The caller performs the renames on every exit path; a
    /// resource missing at restore time is its concern to log, not an error
    /// here.
    pub fn restore_dlls(&mut self) -> (plan: Vec<RenameAction>)
        ensures
            final(self).fallout4_dir == old(self).fallout4_dir,
            final(self).disabled@.len() == 0,
            plan@.len() == old(self).disabled@.len(),
            rename_views(plan@) == spec_restore_renames(resource_views(old(self).disabled@)),
            forall|k: int|
                0 <= k < plan@.len() ==> #[trigger] plan@[k].from == old(self).disabled@[k].disabled
                    && plan@[k].to == old(self).disabled@[k].original,
    {
        let n = self.disabled.len();
        let mut plan: Vec<RenameAction> = Vec::new();
        let mut i: usize = 0;
        while i < n
            invariant
                i <= n,
                n == self.disabled@.len(),
                self == old(self),
                plan@.len() == i,
                forall|k: int|
                    0 <= k < i ==> #[trigger] plan@[k].from == self.disabled@[k].disabled
                        && plan@[k].to == self.disabled@[k].original,
            decreases n - i,
        {
            let g = &self.disabled[i];
            plan.push(RenameAction { from: g.disabled.clone(), to: g.original.clone() });
            i += 1;
        }
        proof {
            assert(rename_views(plan@) =~= spec_restore_renames(
                resource_views(old(self).disabled@),
            ));
        }
        self.disabled = Vec::new();
        plan
    }
}

/// A guard scope around one subordinate-process run.  Entering the scope
/// disables every interfering DLL; the scope remembers how many, and the
/// caller must run the manager's restore plan when the scope ends, on
/// success, error, or abnormal termination alike.
#[derive(Debug)]
pub struct DllGuard {
    /// How many resources this scope disabled.
    pub disabled_count: usize,
}

impl DllGuard {
    /// Enter a guard scope: disable every interfering DLL present and hand
    /// back the renames that do it.
    pub fn new(manager: &mut DllManager, present_files: &Vec<String>) -> (r: (
        DllGuard,
        Vec<RenameAction>,
    ))
        ensures
            final(manager).fallout4_dir == old(manager).fallout4_dir,
            rename_views(r.1@) == spec_disable_renames(
                spec_scan(old(manager).fallout4_dir@, seq_views(present_files@)),
            ),
            resource_views(final(manager).disabled@) == resource_views(old(manager).disabled@)
                + spec_disable_renames(
                spec_scan(old(manager).fallout4_dir@, seq_views(present_files@)),
            ),
            r.0.disabled_count == r.1@.len(),
    {
        let plan = manager.disable_dlls(present_files);
        let count = plan.len();
        proof {
            assert(rename_views(plan@).len() == plan@.len());
        }
        (DllGuard { disabled_count: count }, plan)
    }
}

} // verus!
