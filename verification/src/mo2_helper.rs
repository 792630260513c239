//! The overlay-filesystem file collector.
//!
//! Generated files can land in an overlay staging directory that the
//! archiving tools cannot see.  Collection stages them into a real scratch
//! directory, preserving each file's place under the searched subtree.  The
//! caller walks the overlay and hands in the relative paths it found; this
//! module decides and plans.  A relative path that contains a
//! parent-directory component would escape the destination, so one such
//! entry aborts the whole collection with nothing copied.

use vstd::prelude::*;

use crate::strutil::{contains_str, join_path, joined_path, seq_views, split_char, split_seq};

verus! {

/// Why a collection was refused.
#[derive(Debug, Clone, Copy, PartialEq, Eq, Structural)]
pub enum Mo2Error {
    /// The staging directory does not exist.
    StagingDirMissing,
    /// A found entry's relative path contains a parent-directory
    /// component and would escape the destination.
    PathTraversal,
}

/// One file copy the caller must perform.
#[derive(Debug, Clone, PartialEq, Eq)]
pub struct CopyAction {
    /// The file inside the overlay subtree.
    pub src: String,
    /// Where it goes under the collection root.
    pub dest: String,
}

/// A planned collection: recreate the scratch directory, then copy every
/// found file, preserving the relative hierarchy.
#[derive(Debug)]
pub struct CollectionPlan {
    /// The scratch root to delete (if present) and recreate.
    pub root: String,
    /// The directory under the root that mirrors the searched subpath;
    /// every copy lands beneath it.
    pub dest_base: String,
    /// The copies to perform, one per found file, in the found order.
    pub copies: Vec<CopyAction>,
}

/// Whether a relative path contains a parent-directory component, under
/// either path separator.
pub open spec fn has_parent_component(s: Seq<char>) -> bool {
    exists|i: int|
        0 <= i < split_seq(s, '\\').len() && split_seq(split_seq(s, '\\')[i], '/').contains(".."@)
}

/// Whether some entry of the listing has a parent-directory component.
pub open spec fn listing_has_traversal(files: Seq<Seq<char>>) -> bool {
    exists|k: int| 0 <= k < files.len() && has_parent_component(files[k])
}

/// Whether this relative path contains a parent-directory component.
pub fn rel_path_has_parent(s: &str) -> (b: bool)
    ensures
        b == has_parent_component(s@),
{
    let outer = split_char(s, '\\');
    let n = outer.len();
    let mut i: usize = 0;
    while i < n
        invariant
            i <= n,
            n == outer@.len(),
            seq_views(outer@) == split_seq(s@, '\\'),
            forall|k: int|
                0 <= k < i ==> !split_seq(split_seq(s@, '\\')[k], '/').contains(".."@),
        decreases n - i,
    {
        let inner = split_char(outer[i].as_str(), '/');
        proof {
            assert(seq_views(outer@)[i as int] == outer@[i as int]@);
        }
        if contains_str(&inner, "..") {
            return true;
        }
        i += 1;
    }
    proof {
        if has_parent_component(s@) {
            let k = choose|k: int|
                0 <= k < split_seq(s@, '\\').len() && split_seq(
                    split_seq(s@, '\\')[k],
                    '/',
                ).contains(".."@);
        }
    }
    false
}

/// Helper for staging files out of an overlay filesystem into a real,
/// tool-visible directory.
#[derive(Debug)]
pub struct Mo2Helper {
    staging_dir: String,
}

impl Mo2Helper {
    /// The staging directory this helper searches.
    pub closed spec fn spec_staging_dir(&self) -> Seq<char> {
        self.staging_dir@
    }

    /// A helper over the given staging directory; `staging_dir_exists` is
    /// what the caller observed of it, and a missing directory is refused.
    pub fn new(staging_dir: String, staging_dir_exists: bool) -> (r: Result<Mo2Helper, Mo2Error>)
        ensures
            r is Ok <==> staging_dir_exists,
            r matches Ok(h) ==> h.spec_staging_dir() == staging_dir@,
            r is Err ==> r == Result::<Mo2Helper, Mo2Error>::Err(Mo2Error::StagingDirMissing),
    {
        if !staging_dir_exists {
            return Err(Mo2Error::StagingDirMissing);
        }
        Ok(Mo2Helper { staging_dir })
    }

    /// Get the staging directory path.
    pub fn staging_dir(&self) -> (r: &str)
        ensures
            r@ == self.spec_staging_dir(),
    {
        self.staging_dir.as_str()
    }

    /// Plan the collection of the precombined-mesh subtree.
    pub fn collect_precombines(&self, temp_dir: &str, listing: Option<&Vec<String>>) -> (r: Result<
        Option<CollectionPlan>,
        Mo2Error,
    >)
        ensures
            self.collect_post(r, "meshes/precombined"@, temp_dir@, listing),
    {
        self.collect_files_from_subpath("meshes/precombined", temp_dir, listing)
    }

    /// Plan the collection of the visibility-data subtree.
    pub fn collect_previs(&self, temp_dir: &str, listing: Option<&Vec<String>>) -> (r: Result<
        Option<CollectionPlan>,
        Mo2Error,
    >)
        ensures
            self.collect_post(r, "vis"@, temp_dir@, listing),
    {
        self.collect_files_from_subpath("vis", temp_dir, listing)
    }

    /// What a collection over `subpath` must return, given the caller's
    /// listing of the searched subtree: `None` when the subtree is missing
    /// or holds no files; `PathTraversal`, with nothing copied, when some
    /// entry would escape; otherwise the full copy plan, one copy per found
    /// file, hierarchy preserved.
    pub open spec fn collect_post(
        &self,
        r: Result<Option<CollectionPlan>, Mo2Error>,
        subpath: Seq<char>,
        temp_dir: Seq<char>,
        listing: Option<&Vec<String>>,
    ) -> bool {
        match listing {
            None => r matches Ok(o) && o is None,
            Some(files) => {
                if files@.len() == 0 {
                    r matches Ok(o) && o is None
                } else if listing_has_traversal(seq_views(files@)) {
                    r == Result::<Option<CollectionPlan>, Mo2Error>::Err(Mo2Error::PathTraversal)
                } else {
                    r matches Ok(o) && o matches Some(plan) && plan.root@ == temp_dir
                        && plan.dest_base@ == joined_path(temp_dir, subpath)
                        && plan.copies@.len() == files@.len() && (forall|k: int|
                        0 <= k < files@.len() ==> (#[trigger] plan.copies@[k]).src@ == joined_path(
                            joined_path(self.spec_staging_dir(), subpath),
                            files@[k]@,
                        ) && plan.copies@[k].dest@ == joined_path(
                            joined_path(temp_dir, subpath),
                            files@[k]@,
                        ))
                }
            },
        }
    }

    /// Plan the collection of one subtree of the staging directory.
    ///
    /// `listing` is what the caller's walk observed: `None` when
    /// `staging_dir/subpath` is missing or not a directory, otherwise the
    /// relative path of every file beneath it, in walk order.
    pub fn collect_files_from_subpath(
        &self,
        subpath: &str,
        temp_dir: &str,
        listing: Option<&Vec<String>>,
    ) -> (r: Result<Option<CollectionPlan>, Mo2Error>)
        ensures
            self.collect_post(r, subpath@, temp_dir@, listing),
    {
        let files = match listing {
            None => {
                return Ok(None);
            },
            Some(files) => files,
        };
        if files.len() == 0 {
            return Ok(None);
        }
        let n = files.len();
        let mut i: usize = 0;
        while i < n
            invariant
                i <= n,
                n == files@.len(),
                n > 0,
                listing == Some(files),
                forall|k: int| 0 <= k < i ==> !has_parent_component(seq_views(files@)[k]),
            decreases n - i,
        {
            if rel_path_has_parent(files[i].as_str()) {
                proof {
                    assert(seq_views(files@)[i as int] == files@[i as int]@);
                    assert(listing_has_traversal(seq_views(files@)));
                }
                return Err(Mo2Error::PathTraversal);
            }
            proof {
                assert(seq_views(files@)[i as int] == files@[i as int]@);
            }
            i += 1;
        }
        proof {
            if listing_has_traversal(seq_views(files@)) {
                let k = choose|k: int|
                    0 <= k < seq_views(files@).len() && has_parent_component(
                        seq_views(files@)[k],
                    );
            }
        }
        let search_path = join_path(self.staging_dir.as_str(), subpath);
        let dest_base = join_path(temp_dir, subpath);
        let mut copies: Vec<CopyAction> = Vec::new();
        let mut j: usize = 0;
        while j < n
            invariant
                j <= n,
                n == files@.len(),
                search_path@ == joined_path(self.spec_staging_dir(), subpath@),
                dest_base@ == joined_path(temp_dir@, subpath@),
                copies@.len() == j,
                forall|k: int|
                    0 <= k < j ==> (#[trigger] copies@[k]).src@ == joined_path(
                        search_path@,
                        files@[k]@,
                    ) && copies@[k].dest@ == joined_path(dest_base@, files@[k]@),
            decreases n - j,
        {
            let src = join_path(search_path.as_str(), files[j].as_str());
            let dest = join_path(dest_base.as_str(), files[j].as_str());
            copies.push(CopyAction { src, dest });
            j += 1;
        }
        proof {
            assert forall|k: int| 0 <= k < files@.len() implies (#[trigger] copies@[k]).src@
                == joined_path(
                joined_path(self.spec_staging_dir(), subpath@),
                files@[k]@,
            ) && copies@[k].dest@ == joined_path(joined_path(temp_dir@, subpath@), files@[k]@) by {
                assert(copies@[k].src@ == joined_path(search_path@, files@[k]@));
            }
        }
        Ok(Some(CollectionPlan { root: temp_dir.to_owned(), dest_base, copies }))
    }
}

} // verus!
