//! The run's configuration: build mode, archive tool, and the paths of
//! every external program, with the validation the run demands of them.

use vstd::prelude::*;

verus! {

/// Build mode for the precombine/previs generation.
#[derive(Debug, Clone, Copy, PartialEq, Eq, Structural)]
pub enum BuildMode {
    Clean,
    Filtered,
    Xbox,
}

impl BuildMode {
    /// Short lower-case name of the mode, as shown to the user.
    pub fn as_str(&self) -> (r: &'static str)
        ensures
            self is Clean ==> r@ == "clean"@,
            self is Filtered ==> r@ == "filtered"@,
            self is Xbox ==> r@ == "xbox"@,
    {
        match self {
            BuildMode::Clean => "clean",
            BuildMode::Filtered => "filtered",
            BuildMode::Xbox => "xbox",
        }
    }
}

/// Which external archiving tool the run uses.
#[derive(Debug, Clone, Copy, PartialEq, Eq, Structural)]
pub enum ArchiveTool {
    Archive2,
    BSArch,
}

/// What the caller observed of the configured paths: whether each one
/// exists on disk.
#[derive(Debug, Clone, Copy, PartialEq, Eq, Structural)]
pub struct ConfigFacts {
    /// The game directory exists.
    pub fo4_dir_exists: bool,
    /// The scriptable editor's executable exists.
    pub fo4edit_exists: bool,
    /// The Creation Kit executable exists.
    pub creation_kit_exists: bool,
    /// The selected archive tool's executable exists.
    pub archive_exe_exists: bool,
    /// The overlay manager executable exists.
    pub mo2_path_exists: bool,
    /// The overlay staging directory exists.
    pub mo2_data_dir_exists: bool,
}

/// Why a configuration was rejected.
#[derive(Debug, Clone, Copy, PartialEq, Eq, Structural)]
pub enum ConfigError {
    /// The game directory does not exist.
    Fo4DirMissing,
    /// The scriptable editor was not found at its configured path.
    Fo4EditMissing,
    /// The Creation Kit was not found at its configured path.
    CreationKitMissing,
    /// The selected archive tool was not found at its configured path.
    ArchiveToolMissing,
    /// Overlay mode is on but the manager's executable does not exist.
    Mo2Missing,
    /// Overlay mode is on but no manager path was set.
    Mo2PathNotSet,
    /// The configured overlay staging directory does not exist.
    Mo2DataDirMissing,
}

/// Configuration of a run: modes and the paths of every external program.
#[derive(Debug)]
pub struct Config {
    /// Build mode (clean/filtered/xbox).
    pub build_mode: BuildMode,
    /// Archive tool to use.
    pub archive_tool: ArchiveTool,
    /// Plugin name the run works on, once known.
    pub plugin_name: Option<String>,
    /// The game's installation directory.
    pub fo4_dir: String,
    /// The scriptable editor's executable path.
    pub fo4edit_path: String,
    /// The Creation Kit executable path.
    pub creation_kit_path: String,
    /// The selected archive tool's executable path.
    pub archive_exe_path: String,
    /// The Creation Kit extender's configuration file, if found.
    pub ckpe_config_path: Option<String>,
    /// The Creation Kit's log file, as that configuration names it.
    pub ck_log_path: Option<String>,
    /// Whether the tools run through an overlay filesystem manager.
    pub mo2_mode: bool,
    /// The overlay manager's executable, when overlay mode is on.
    pub mo2_path: Option<String>,
    /// The overlay staging directory the generated files land in.
    pub mo2_data_dir: Option<String>,
}

/// The verdict `Config::validate` owes for given observations, checked in
/// the order the paths are configured.
pub open spec fn spec_validate_config(c: Config, facts: ConfigFacts) -> Result<(), ConfigError> {
    if !facts.fo4_dir_exists {
        Err(ConfigError::Fo4DirMissing)
    } else if !facts.fo4edit_exists {
        Err(ConfigError::Fo4EditMissing)
    } else if !facts.creation_kit_exists {
        Err(ConfigError::CreationKitMissing)
    } else if !facts.archive_exe_exists {
        Err(ConfigError::ArchiveToolMissing)
    } else if c.mo2_mode {
        if c.mo2_path is Some {
            if !facts.mo2_path_exists {
                Err(ConfigError::Mo2Missing)
            } else if c.mo2_data_dir is Some && !facts.mo2_data_dir_exists {
                Err(ConfigError::Mo2DataDirMissing)
            } else {
                Ok(())
            }
        } else {
            Err(ConfigError::Mo2PathNotSet)
        }
    } else {
        Ok(())
    }
}

impl Config {
    /// Create a new configuration with the given build mode and archive
    /// tool; every path starts empty.
    pub fn new(build_mode: BuildMode, archive_tool: ArchiveTool) -> (r: Config)
        ensures
            r.build_mode == build_mode,
            r.archive_tool == archive_tool,
            r.plugin_name is None,
            r.fo4_dir@.len() == 0,
            r.fo4edit_path@.len() == 0,
            r.creation_kit_path@.len() == 0,
            r.archive_exe_path@.len() == 0,
            r.ckpe_config_path is None,
            r.ck_log_path is None,
            !r.mo2_mode,
            r.mo2_path is None,
            r.mo2_data_dir is None,
    {
        Config {
            build_mode,
            archive_tool,
            plugin_name: None,
            fo4_dir: String::new(),
            fo4edit_path: String::new(),
            creation_kit_path: String::new(),
            archive_exe_path: String::new(),
            ckpe_config_path: None,
            ck_log_path: None,
            mo2_mode: false,
            mo2_path: None,
            mo2_data_dir: None,
        }
    }

    /// Set the plugin name.
    pub fn with_plugin_name(self, name: String) -> (r: Config)
        ensures
            r.plugin_name == Some(name),
            r.build_mode == self.build_mode,
            r.archive_tool == self.archive_tool,
            r.fo4_dir == self.fo4_dir,
            r.fo4edit_path == self.fo4edit_path,
            r.creation_kit_path == self.creation_kit_path,
            r.archive_exe_path == self.archive_exe_path,
            r.ckpe_config_path == self.ckpe_config_path,
            r.ck_log_path == self.ck_log_path,
            r.mo2_mode == self.mo2_mode,
            r.mo2_path == self.mo2_path,
            r.mo2_data_dir == self.mo2_data_dir,
    {
        Config { plugin_name: Some(name), ..self }
    }

    /// The game's `Data` directory.
    pub fn data_dir(&self) -> (r: String)
        ensures
            r@ == crate::strutil::joined_path(self.fo4_dir@, "Data"@),
    {
        crate::strutil::join_path(self.fo4_dir.as_str(), "Data")
    }

    /// The precombined-mesh output directory under `Data`.
    pub fn precombined_dir(&self) -> (r: String)
        ensures
            r@ == crate::strutil::joined_path(
                crate::strutil::joined_path(
                    crate::strutil::joined_path(self.fo4_dir@, "Data"@),
                    "meshes"@,
                ),
                "precombined"@,
            ),
    {
        let data = self.data_dir();
        let meshes = crate::strutil::join_path(data.as_str(), "meshes");
        crate::strutil::join_path(meshes.as_str(), "precombined")
    }

    /// The visibility-data output directory under `Data`.
    pub fn vis_dir(&self) -> (r: String)
        ensures
            r@ == crate::strutil::joined_path(
                crate::strutil::joined_path(self.fo4_dir@, "Data"@),
                "vis"@,
            ),
    {
        let data = self.data_dir();
        crate::strutil::join_path(data.as_str(), "vis")
    }

    /// Validate that all required paths exist, from what the caller
    /// observed of them.
    pub fn validate(&self, facts: &ConfigFacts) -> (r: Result<(), ConfigError>)
        ensures
            r == spec_validate_config(*self, *facts),
    {
        if !facts.fo4_dir_exists {
            return Err(ConfigError::Fo4DirMissing);
        }
        if !facts.fo4edit_exists {
            return Err(ConfigError::Fo4EditMissing);
        }
        if !facts.creation_kit_exists {
            return Err(ConfigError::CreationKitMissing);
        }
        if !facts.archive_exe_exists {
            return Err(ConfigError::ArchiveToolMissing);
        }
        if self.mo2_mode {
            match &self.mo2_path {
                Some(_) => {
                    if !facts.mo2_path_exists {
                        return Err(ConfigError::Mo2Missing);
                    }
                },
                None => {
                    return Err(ConfigError::Mo2PathNotSet);
                },
            }
            if self.mo2_data_dir.is_some() && !facts.mo2_data_dir_exists {
                return Err(ConfigError::Mo2DataDirMissing);
            }
        }
        Ok(())
    }
}

} // verus!
