use bext::manifests::bext_config::{BextConfig, BextConfigError};
use bext::manifests::blender_manifest::BlenderManifest;
use bext::version::SemVersion;

const BEXT_CONFIG_TEMPLATE: &str = r#"# Build settings for the extension
source_dir = "src"
output_dir = "dist"
exclude_globs = ["**/__pycache__/**", "**/*.pyc"]
blender_versions = ["4.2.0", "4.3.0"]
"#;

const MANIFEST: &str = r#"schema_version = "1.0.0"
id = "test_addon"
version = "0.1.0"
name = "Test Addon"
maintainer = "Test Maintainer"
type = "add-on"
"#;

fn template() -> BextConfig {
    BextConfig::from_toml(BEXT_CONFIG_TEMPLATE).unwrap()
}

#[test]
fn test_bext_config_template() {
    let config = template();
    assert_eq!(config.source_dir, "src");
    assert_eq!(config.output_dir.as_deref(), Some("dist"));
    assert_eq!(
        config.exclude_globs,
        Some(vec![
            "**/__pycache__/**".to_string(),
            "**/*.pyc".to_string()
        ])
    );
    assert_eq!(
        config.blender_versions,
        Some(vec![
            SemVersion::parse("4.2.0").unwrap(),
            SemVersion::parse("4.3.0").unwrap(),
        ])
    );
}

#[test]
fn test_bext_config_optional_fields_absent() {
    let config: BextConfig = "source_dir = \"src\"\noutput_dir = \"dist\"\n"
        .parse()
        .unwrap();
    assert_eq!(config.source_dir, "src");
    assert_eq!(config.output_dir.as_deref(), Some("dist"));
    assert!(config.exclude_globs.is_none());
    assert!(config.blender_versions.is_none());
}

#[test]
fn test_bext_config_write_preservation() {
    let mut config = template();
    let original_string = config.to_string().unwrap();

    config.output_dir = Some("build".to_string());
    let updated_string = config.to_string().unwrap();

    let written = config.to_string().unwrap();
    let config_from_file = BextConfig::from_toml(&written).unwrap();
    let string_from_file = config_from_file.to_string().unwrap();
    assert_eq!(string_from_file, updated_string);
    assert_ne!(string_from_file, original_string);
    assert_eq!(config_from_file.output_dir.as_deref(), Some("build"));
    assert_eq!(config_from_file.source_dir, "src");
}

#[test]
fn test_bext_config_optional_fields_roundtrip() {
    let mut config = template();

    config.exclude_globs = None;
    config.blender_versions = None;

    let written = config.to_string().unwrap();
    let config_from_file = BextConfig::from_toml(&written).unwrap();
    assert!(config_from_file.exclude_globs.is_none());
    assert!(config_from_file.blender_versions.is_none());
    assert_eq!(config_from_file.source_dir, "src");
    assert_eq!(config_from_file.output_dir.as_deref(), Some("dist"));
}

#[test]
fn lenient_versions_are_completed() {
    let config = BextConfig::from_toml("source_dir = \"src\"\nblender_versions = [\"4.2\", \"4\"]\n").unwrap();
    assert_eq!(
        config.blender_versions,
        Some(vec![
            SemVersion::parse("4.2.0").unwrap(),
            SemVersion::parse("4.0.0").unwrap(),
        ])
    );
}

#[test]
fn missing_source_dir_is_a_deserialize_error() {
    let err = BextConfig::from_toml("output_dir = \"dist\"\n").unwrap_err();
    assert!(matches!(err, BextConfigError::DeserializeError(_)));
}

#[test]
fn syntax_error_is_a_deserialize_error() {
    let err = BextConfig::from_toml("source_dir = \n").unwrap_err();
    assert!(matches!(err, BextConfigError::DeserializeError(_)));
}

#[test]
fn wrong_types_are_refused() {
    assert!(BextConfig::from_toml("source_dir = 3\n").is_err());
    assert!(BextConfig::from_toml("source_dir = \"src\"\nexclude_globs = \"*.pyc\"\n").is_err());
    assert!(BextConfig::from_toml("source_dir = \"src\"\nblender_versions = [\"four\"]\n").is_err());
}

#[test]
fn writing_keeps_other_entries_and_comments() {
    let config = BextConfig::from_toml("# keep me\nsource_dir = \"src\"\nextra = 1\n").unwrap();
    let written = config.to_string().unwrap();
    assert!(written.contains("# keep me"));
    assert!(written.contains("extra = 1"));
}

#[test]
fn new_config_writes_only_source_dir() {
    let config = BextConfig::new("addon".to_string());
    let written = config.to_string().unwrap();
    let read = BextConfig::from_toml(&written).unwrap();
    assert_eq!(read.source_dir, "addon");
    assert!(read.output_dir.is_none());
    assert!(read.package_name.is_none());
    assert!(read.exclude_globs.is_none());
    assert!(read.blender_versions.is_none());
}

#[test]
fn resolve_package_name_fills_the_template() {
    let manifest = BlenderManifest::from_toml(MANIFEST).unwrap();
    let mut config = BextConfig::new("src".to_string());
    assert_eq!(config.resolve_package_name(&manifest), "Test Addon");
    config.package_name = Some("{name}-{version}".to_string());
    assert_eq!(config.resolve_package_name(&manifest), "Test Addon-0.1.0");
    config.package_name = Some("{id} by {maintainer} ({version})".to_string());
    assert_eq!(
        config.resolve_package_name(&manifest),
        "test_addon by Test Maintainer (0.1.0)"
    );
    config.package_name = Some("plain".to_string());
    assert_eq!(config.resolve_package_name(&manifest), "plain");
}

#[test]
fn config_error_messages() {
    assert_eq!(
        BextConfigError::ConfigNotFound("/work".to_string()).message(),
        "Config file not found in directory tree starting from: /work"
    );
    assert_eq!(
        BextConfigError::DeserializeError("bad".to_string()).message(),
        "TOML deserialization error: bad"
    );
}

#[test]
fn config_is_found_up_the_tree() {
    let search = |dir: &str, name: &str| -> Option<String> {
        if dir == "/p" && name == "bext.toml" {
            Some("/p/bext.toml".to_string())
        } else {
            None
        }
    };
    let read = |path: &str| -> Result<String, String> {
        if path == "/p/bext.toml" {
            Ok("source_dir = \"addon\"\n".to_string())
        } else {
            Err("no such file".to_string())
        }
    };
    let config = BextConfig::from_config_search("/p/addon/ops", search, read).unwrap();
    assert_eq!(config.source_dir, "addon");
}

#[test]
fn config_search_errors() {
    let nothing = |_dir: &str, _name: &str| -> Option<String> { None };
    let read = |_path: &str| -> Result<String, String> { Err("denied".to_string()) };
    match BextConfig::from_config_search("/p/addon", nothing, read) {
        Err(BextConfigError::ConfigNotFound(s)) => assert_eq!(s, "/p/addon"),
        other => panic!("unexpected {:?}", other.map(|c| c.source_dir)),
    }
    let found = |dir: &str, _name: &str| -> Option<String> { Some(format!("{}/bext.toml", dir)) };
    match BextConfig::from_config_search("/p", found, read) {
        Err(BextConfigError::IoError(m)) => assert_eq!(m, "denied"),
        other => panic!("unexpected {:?}", other.map(|c| c.source_dir)),
    }
    let bad = |_path: &str| -> Result<String, String> { Ok("source_dir = 1\n".to_string()) };
    assert!(matches!(
        BextConfig::from_config_search("/p", found, bad),
        Err(BextConfigError::DeserializeError(_))
    ));
}
