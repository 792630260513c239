use generateprevisibines::ckpe_config::{CKPEConfig, ConfigType};
use generateprevisibines::config::{ArchiveTool, BuildMode, Config, ConfigError, ConfigFacts};
use generateprevisibines::filesystem::{
    find_working_files, find_xprevis_patch_plugins, validate_fo4_directories, SetupError,
};
use generateprevisibines::mo2_helper::{Mo2Helper, Mo2Error};
use generateprevisibines::registry::{find_archive2, find_ckpe_config, find_creation_kit};
use generateprevisibines::utils::get_simple_version;

#[test]
fn test_mo2_helper_creation() {
    let helper = Mo2Helper::new("C:\\MO2\\overwrite".to_string(), true);
    assert!(helper.is_ok());
    assert_eq!(helper.unwrap().staging_dir(), "C:\\MO2\\overwrite");

    let helper = Mo2Helper::new("Z:\\does\\not\\exist".to_string(), false);
    assert!(helper.is_err());
}

#[test]
fn collect_returns_none_for_missing_or_empty_subtrees() {
    let helper = Mo2Helper::new("C:\\MO2\\overwrite".to_string(), true).unwrap();
    // the searched subtree does not exist
    assert!(helper
        .collect_precombines("C:\\FO4\\Data\\_temp_mo2_collect", None)
        .unwrap()
        .is_none());
    // it exists but holds no files
    let empty: Vec<String> = Vec::new();
    assert!(helper
        .collect_precombines("C:\\FO4\\Data\\_temp_mo2_collect", Some(&empty))
        .unwrap()
        .is_none());
}

#[test]
fn collect_plans_copies_preserving_hierarchy() {
    let helper = Mo2Helper::new("C:\\MO2\\overwrite".to_string(), true).unwrap();
    let listing = vec![
        "subdir1\\subdir2\\test.uvd".to_string(),
        "top.uvd".to_string(),
    ];
    let plan = helper
        .collect_previs("C:\\FO4\\Data\\_temp_mo2_collect", Some(&listing))
        .unwrap()
        .unwrap();
    assert_eq!(plan.root, "C:\\FO4\\Data\\_temp_mo2_collect");
    assert_eq!(plan.dest_base, "C:\\FO4\\Data\\_temp_mo2_collect\\vis");
    assert_eq!(plan.copies.len(), 2);
    assert_eq!(
        plan.copies[0].src,
        "C:\\MO2\\overwrite\\vis\\subdir1\\subdir2\\test.uvd"
    );
    assert_eq!(
        plan.copies[0].dest,
        "C:\\FO4\\Data\\_temp_mo2_collect\\vis\\subdir1\\subdir2\\test.uvd"
    );
}

#[test]
fn collect_rejects_parent_directory_components_entirely() {
    // one escaping entry aborts the whole collection: no partial plan
    let helper = Mo2Helper::new("C:\\MO2\\overwrite".to_string(), true).unwrap();
    let listing = vec![
        "good1.nif".to_string(),
        "..\\escape.nif".to_string(),
        "good2.nif".to_string(),
    ];
    let r = helper.collect_precombines("C:\\FO4\\Data\\_temp_mo2_collect", Some(&listing));
    assert_eq!(r.unwrap_err(), Mo2Error::PathTraversal);

    // the forward-slash form escapes just the same
    let listing = vec!["nested/../../escape.nif".to_string()];
    let r = helper.collect_precombines("C:\\FO4\\Data\\_temp_mo2_collect", Some(&listing));
    assert_eq!(r.unwrap_err(), Mo2Error::PathTraversal);

    // dots inside a file name are not an escape
    let listing = vec!["a..b.nif".to_string()];
    assert!(helper
        .collect_precombines("C:\\FO4\\Data\\_temp_mo2_collect", Some(&listing))
        .is_ok());
}

#[test]
fn parse_toml_config_from_text() {
    let content = "[CreationKit]\nbBSPointerHandleExtremly = true\nsLogFile = \"CK.log\"\n";
    let config = CKPEConfig::parse("C:\\FO4\\CreationKitPlatformExtended.toml", content);
    assert!(config.pointer_handle_enabled);
    assert_eq!(config.config_type, ConfigType::TOML);
    assert_eq!(config.log_file_path, Some("CK.log".to_string()));
    assert!(config.validate().is_ok());
}

#[test]
fn parse_ini_config_from_text() {
    let content =
        "[CreationKit]\nbBSPointerHandleExtremly=true\n\n[Log]\nsOutputFile=CreationKit.log\n";
    let config = CKPEConfig::parse("C:\\FO4\\CreationKitPlatformExtended.ini", content);
    assert!(config.pointer_handle_enabled);
    assert_eq!(config.config_type, ConfigType::INI);
    assert_eq!(config.log_file_path, Some("CreationKit.log".to_string()));
}

#[test]
fn parse_legacy_ini_from_text() {
    let content = "[CreationKit]\nbBSPointerHandle=true\n\n[CreationKit_Log]\nOutputFile=CKLog.log\n";
    let config = CKPEConfig::parse("C:\\FO4\\fallout4_test.ini", content);
    assert!(config.pointer_handle_enabled);
    assert_eq!(config.config_type, ConfigType::Fallout4TestINI);
    assert_eq!(config.log_file_path, Some("CKLog.log".to_string()));
}

#[test]
fn missing_pointer_handle_setting_fails_validation() {
    let content = "[CreationKit]\nSomeOtherSetting = true\n";
    let config = CKPEConfig::parse("C:\\FO4\\CreationKitPlatformExtended.toml", content);
    assert!(!config.pointer_handle_enabled);
    assert!(config.validate().is_err());
}

#[test]
fn disabled_pointer_handle_setting_is_off() {
    let content = "bBSPointerHandleExtremly=0\n";
    let config = CKPEConfig::parse("C:\\FO4\\test.ini", content);
    assert!(!config.pointer_handle_enabled);
}

#[test]
fn ini_log_path_outside_its_section_is_ignored() {
    let content = "sOutputFile=Wrong.log\n[Log]\nsOutputFile=Right.log\n";
    let config = CKPEConfig::parse("C:\\FO4\\CreationKitPlatformExtended.ini", content);
    assert_eq!(config.log_file_path, Some("Right.log".to_string()));
}

#[test]
fn commented_settings_are_skipped() {
    let content = ";bBSPointerHandleExtremly=true\n#bBSPointerHandle=true\n";
    let config = CKPEConfig::parse("C:\\FO4\\CreationKitPlatformExtended.ini", content);
    assert!(!config.pointer_handle_enabled);
}

#[test]
fn installation_layout_checks() {
    assert!(validate_fo4_directories(true, true).is_ok());
    assert_eq!(
        validate_fo4_directories(false, true),
        Err(SetupError::DataDirMissing)
    );
    assert_eq!(
        validate_fo4_directories(true, false),
        Err(SetupError::MasterFileMissing)
    );
}

#[test]
fn xprevis_plugins_are_found_without_case() {
    let names = vec![
        "xPrevisPatch.esp".to_string(),
        "Other.esp".to_string(),
        "foo_XPREVISPATCH.esm".to_string(),
        "xprevispatch.txt".to_string(),
    ];
    let found = find_xprevis_patch_plugins(&names);
    assert_eq!(
        found,
        vec!["xPrevisPatch.esp".to_string(), "foo_XPREVISPATCH.esm".to_string()]
    );
}

#[test]
fn working_files_are_found_without_case() {
    let names = vec![
        "Previs.esp".to_string(),
        "CombinedObjects.esp".to_string(),
        "MyMod.esp".to_string(),
    ];
    let found = find_working_files(&names);
    assert_eq!(
        found,
        vec!["Previs.esp".to_string(), "CombinedObjects.esp".to_string()]
    );
}

#[test]
fn creation_kit_discovery() {
    let r = find_creation_kit("C:\\FO4", true);
    assert_eq!(r.unwrap(), "C:\\FO4\\CreationKit.exe");
    assert!(find_creation_kit("C:\\FO4", false).is_err());
}

#[test]
fn archive2_discovery_prefers_the_tools_tree() {
    assert_eq!(
        find_archive2("C:\\FO4", true, true).unwrap(),
        "C:\\FO4\\Tools\\Archive2\\Archive2.exe"
    );
    assert_eq!(
        find_archive2("C:\\FO4", false, true).unwrap(),
        "C:\\FO4\\Archive2.exe"
    );
    assert!(find_archive2("C:\\FO4", false, false).is_err());
}

#[test]
fn ckpe_config_discovery_priority() {
    assert_eq!(
        find_ckpe_config("C:\\FO4", true, true, true).unwrap(),
        "C:\\FO4\\CreationKitPlatformExtended.toml"
    );
    assert_eq!(
        find_ckpe_config("C:\\FO4", false, true, true).unwrap(),
        "C:\\FO4\\CreationKitPlatformExtended.ini"
    );
    assert_eq!(
        find_ckpe_config("C:\\FO4", false, false, true).unwrap(),
        "C:\\FO4\\fallout4_test.ini"
    );
    assert_eq!(find_ckpe_config("C:\\FO4", false, false, false), None);
}

#[test]
fn simple_version_keeps_major_and_minor() {
    assert_eq!(get_simple_version(Some(&"1.10.163.0".to_string())), "1.10");
    assert_eq!(get_simple_version(Some(&"42".to_string())), "42");
    assert_eq!(get_simple_version(None), "Unknown");
}

fn full_facts() -> ConfigFacts {
    ConfigFacts {
        fo4_dir_exists: true,
        fo4edit_exists: true,
        creation_kit_exists: true,
        archive_exe_exists: true,
        mo2_path_exists: true,
        mo2_data_dir_exists: true,
    }
}

#[test]
fn config_validation_reports_the_first_missing_path() {
    let config = Config::new(BuildMode::Clean, ArchiveTool::Archive2);
    assert!(config.validate(&full_facts()).is_ok());

    let mut facts = full_facts();
    facts.fo4_dir_exists = false;
    assert_eq!(config.validate(&facts), Err(ConfigError::Fo4DirMissing));

    let mut facts = full_facts();
    facts.fo4edit_exists = false;
    assert_eq!(config.validate(&facts), Err(ConfigError::Fo4EditMissing));

    let mut facts = full_facts();
    facts.creation_kit_exists = false;
    assert_eq!(config.validate(&facts), Err(ConfigError::CreationKitMissing));

    let mut facts = full_facts();
    facts.archive_exe_exists = false;
    assert_eq!(config.validate(&facts), Err(ConfigError::ArchiveToolMissing));
}

#[test]
fn config_validation_checks_overlay_settings() {
    let mut config = Config::new(BuildMode::Clean, ArchiveTool::Archive2);
    config.mo2_mode = true;
    assert_eq!(config.validate(&full_facts()), Err(ConfigError::Mo2PathNotSet));

    config.mo2_path = Some("C:\\MO2\\ModOrganizer.exe".to_string());
    assert!(config.validate(&full_facts()).is_ok());

    let mut facts = full_facts();
    facts.mo2_path_exists = false;
    assert_eq!(config.validate(&facts), Err(ConfigError::Mo2Missing));

    config.mo2_data_dir = Some("C:\\MO2\\overwrite".to_string());
    let mut facts = full_facts();
    facts.mo2_data_dir_exists = false;
    assert_eq!(config.validate(&facts), Err(ConfigError::Mo2DataDirMissing));
}

#[test]
fn config_directory_helpers() {
    let mut config = Config::new(BuildMode::Clean, ArchiveTool::Archive2);
    config.fo4_dir = "C:\\FO4".to_string();
    assert_eq!(config.data_dir(), "C:\\FO4\\Data");
    assert_eq!(config.precombined_dir(), "C:\\FO4\\Data\\meshes\\precombined");
    assert_eq!(config.vis_dir(), "C:\\FO4\\Data\\vis");
    assert_eq!(config.build_mode.as_str(), "clean");

    let named = config.with_plugin_name("MyMod.esp".to_string());
    assert_eq!(named.plugin_name, Some("MyMod.esp".to_string()));
}
