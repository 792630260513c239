use generateprevisibines::validation::{
    get_plugin_base_name, plugin_exists, validate_plugin_name, ValidationError,
};

#[test]
fn test_valid_plugin_names() {
    assert!(validate_plugin_name("MyMod.esp", true).is_ok());
    assert!(validate_plugin_name("MyMod.esm", true).is_ok());
    assert!(validate_plugin_name("My_Mod_123.esp", true).is_ok());
}

#[test]
fn test_invalid_extensions() {
    assert!(validate_plugin_name("MyMod.txt", true).is_err());
    assert!(validate_plugin_name("MyMod", true).is_err());
    assert!(validate_plugin_name("MyMod.esl", true).is_err());
}

#[test]
fn test_reserved_names() {
    assert!(validate_plugin_name("previs.esp", true).is_err());
    assert!(validate_plugin_name("Previs.esp", true).is_err());
    assert!(validate_plugin_name("MyPrevis.esp", true).is_err());
    assert!(validate_plugin_name("combinedobjects.esp", true).is_err());
    assert!(validate_plugin_name("xprevispatch.esp", true).is_err());
}

#[test]
fn test_spaces_in_clean_mode() {
    // Spaces not allowed in clean mode
    assert!(validate_plugin_name("My Mod.esp", true).is_err());

    // Spaces allowed in filtered mode
    assert!(validate_plugin_name("My Mod.esp", false).is_ok());
}

#[test]
fn test_get_plugin_base_name() {
    assert_eq!(get_plugin_base_name("MyMod.esp"), "MyMod");
    assert_eq!(get_plugin_base_name("MyMod.esm"), "MyMod");
    assert_eq!(get_plugin_base_name("MyMod.ESP"), "MyMod");
    assert_eq!(get_plugin_base_name("My_Mod_123.esp"), "My_Mod_123");
}

#[test]
fn test_validation_error_variants() {
    assert_eq!(validate_plugin_name("", true), Err(ValidationError::EmptyName));
    assert_eq!(
        validate_plugin_name("MyMod.txt", true),
        Err(ValidationError::BadExtension)
    );
    assert_eq!(
        validate_plugin_name("MyPrevis.esp", false),
        Err(ValidationError::ReservedName)
    );
    assert_eq!(
        validate_plugin_name("My Mod.esp", true),
        Err(ValidationError::SpacesInCleanMode)
    );
}

#[test]
fn test_base_name_strips_repeated_extensions() {
    assert_eq!(get_plugin_base_name("MyMod.esp.esp"), "MyMod");
    assert_eq!(get_plugin_base_name("NoExtension"), "NoExtension");
    // a mixed-case extension that is none of the four exact forms stays
    assert_eq!(get_plugin_base_name("MyMod.EsP"), "MyMod.EsP");
}

#[test]
fn test_plugin_exists_in_listing() {
    let listing = vec![
        "Fallout4.esm".to_string(),
        "MyMod.esp".to_string(),
        "Textures.ba2".to_string(),
    ];
    assert!(plugin_exists(&listing, "MyMod.esp"));
    assert!(!plugin_exists(&listing, "OtherMod.esp"));
    assert!(!plugin_exists(&Vec::new(), "MyMod.esp"));
}
