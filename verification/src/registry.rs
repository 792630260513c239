//! Decisions of the tool-discovery search orders.  The registry reads and
//! existence probes themselves are the caller's work; what is decided from
//! them — which candidate wins, and when discovery fails — is here.

use vstd::prelude::*;

use crate::strutil::{join_path, joined_path};

verus! {

/// Why a tool could not be discovered.
#[derive(Debug, Clone, Copy, PartialEq, Eq, Structural)]
pub enum DiscoveryError {
    /// The Creation Kit is not in the game directory.
    CreationKitNotFound,
    /// The append-incapable packer is in neither of its two locations.
    Archive2NotFound,
}

/// Find the Creation Kit executable in the game directory;
/// `creation_kit_exists` is what the caller observed of that path.
pub fn find_creation_kit(fo4_dir: &str, creation_kit_exists: bool) -> (r: Result<
    String,
    DiscoveryError,
>)
    ensures
        r is Ok <==> creation_kit_exists,
        r matches Ok(p) ==> p@ == joined_path(fo4_dir@, "CreationKit.exe"@),
        r is Err ==> r == Result::<String, DiscoveryError>::Err(DiscoveryError::CreationKitNotFound),
{
    if !creation_kit_exists {
        return Err(DiscoveryError::CreationKitNotFound);
    }
    Ok(join_path(fo4_dir, "CreationKit.exe"))
}

/// The official location of the append-incapable packer under the game
/// directory's tools tree.
pub open spec fn spec_archive2_tools_path(fo4_dir: Seq<char>) -> Seq<char> {
    joined_path(joined_path(joined_path(fo4_dir, "Tools"@), "Archive2"@), "Archive2.exe"@)
}

/// Find the append-incapable packer: first in its official place under
/// `Tools\Archive2`, then in the game directory's root.  The two flags are
/// what the caller observed of those locations.
pub fn find_archive2(fo4_dir: &str, in_tools_dir: bool, in_root_dir: bool) -> (r: Result<
    String,
    DiscoveryError,
>)
    ensures
        r is Ok <==> in_tools_dir || in_root_dir,
        in_tools_dir ==> (r matches Ok(p) && p@ == spec_archive2_tools_path(fo4_dir@)),
        !in_tools_dir && in_root_dir ==> (r matches Ok(p) && p@ == joined_path(
            fo4_dir@,
            "Archive2.exe"@,
        )),
        r is Err ==> r == Result::<String, DiscoveryError>::Err(DiscoveryError::Archive2NotFound),
{
    if in_tools_dir {
        let tools = join_path(fo4_dir, "Tools");
        let archive2_dir = join_path(tools.as_str(), "Archive2");
        return Ok(join_path(archive2_dir.as_str(), "Archive2.exe"));
    }
    if in_root_dir {
        return Ok(join_path(fo4_dir, "Archive2.exe"));
    }
    Err(DiscoveryError::Archive2NotFound)
}

/// Find the Creation Kit extender's configuration file, in priority order:
/// the newest format first, then the older one, then the legacy file.  The
/// three flags are what the caller observed of those files.
pub fn find_ckpe_config(
    fo4_dir: &str,
    toml_exists: bool,
    ini_exists: bool,
    test_ini_exists: bool,
) -> (r: Option<String>)
    ensures
        r is Some <==> toml_exists || ini_exists || test_ini_exists,
        toml_exists ==> (r matches Some(p) && p@ == joined_path(
            fo4_dir@,
            "CreationKitPlatformExtended.toml"@,
        )),
        !toml_exists && ini_exists ==> (r matches Some(p) && p@ == joined_path(
            fo4_dir@,
            "CreationKitPlatformExtended.ini"@,
        )),
        !toml_exists && !ini_exists && test_ini_exists ==> (r matches Some(p) && p@ == joined_path(
            fo4_dir@,
            "fallout4_test.ini"@,
        )),
{
    if toml_exists {
        Some(join_path(fo4_dir, "CreationKitPlatformExtended.toml"))
    } else if ini_exists {
        Some(join_path(fo4_dir, "CreationKitPlatformExtended.ini"))
    } else if test_ini_exists {
        Some(join_path(fo4_dir, "fallout4_test.ini"))
    } else {
        None
    }
}

} // verus!
