use bext::manifests::blender_manifest::{BlenderManifest, BlenderManifestError, ExtensionType, Permissions};
use bext::version::SemVersion;

const BLENDER_MANIFEST_TEMPLATE: &str = r#"schema_version = "1.0.0"

id = "test_addon"
version = "0.1.0"
name = "Test Addon"
tagline = "An extension used in tests"
maintainer = "Test Maintainer"
type = "add-on"
website = "https://example.com"
tags = ["Development"]
blender_version_min = "4.2.0"
license = ["SPDX:GPL-3.0-or-later"]

[permissions]
files = "Read project files."
network = "Send anonymized statistics."
"#;

fn template() -> BlenderManifest {
    BlenderManifest::from_toml(BLENDER_MANIFEST_TEMPLATE).unwrap()
}

#[test]
fn test_blender_manifest_template() {
    let manifest = template();
    assert_eq!(manifest.id, "test_addon");
    assert_eq!(manifest.version, SemVersion::parse("0.1.0").unwrap());
    assert_eq!(manifest.name, "Test Addon");
    assert_eq!(manifest.maintainer, "Test Maintainer");
    assert_eq!(manifest.website, Some("https://example.com".to_string()));
    assert_eq!(
        manifest.blender_version_min,
        Some(SemVersion::parse("4.2.0").unwrap())
    );
    let perms = manifest.permissions.unwrap();
    assert_eq!(perms.files, Some("Read project files.".to_string()));
    assert_eq!(
        perms.network,
        Some("Send anonymized statistics.".to_string())
    );
}

#[test]
fn test_blender_manifest_write_preservation() {
    let mut manifest = template();
    let original_string = manifest.to_string().unwrap();

    manifest.version = SemVersion::parse("1.0.0").unwrap();
    let updated_string = manifest.to_string().unwrap();

    let written = manifest.to_string().unwrap();
    let manifest_from_file = BlenderManifest::from_toml(&written).unwrap();
    let string_from_file = manifest_from_file.to_string().unwrap();
    assert_eq!(string_from_file, updated_string);
    assert_ne!(string_from_file, original_string);
    assert_eq!(
        manifest_from_file.version,
        SemVersion::parse("1.0.0").unwrap()
    );
    assert_eq!(manifest_from_file.id, "test_addon");
    assert_eq!(manifest_from_file.name, "Test Addon");
}

#[test]
fn manifest_keeps_unknown_entries() {
    let written = template().to_string().unwrap();
    assert!(written.contains("schema_version = \"1.0.0\""));
    assert!(written.contains("license = [\"SPDX:GPL-3.0-or-later\"]"));
    assert!(written.contains("tagline"));
}

#[test]
fn manifest_roundtrip_keeps_every_field() {
    let manifest = template();
    let read = BlenderManifest::from_toml(&manifest.to_string().unwrap()).unwrap();
    assert_eq!(read.id, manifest.id);
    assert_eq!(read.version, manifest.version);
    assert_eq!(read.extension_type, ExtensionType::AddOn);
    assert_eq!(read.tags, Some(vec!["Development".to_string()]));
    assert_eq!(read.blender_version_min, manifest.blender_version_min);
    assert!(read.blender_version_max.is_none());
    assert!(read.wheels.is_none());
    let perms = read.permissions.unwrap();
    assert_eq!(perms.files, Some("Read project files.".to_string()));
    assert_eq!(perms.network, Some("Send anonymized statistics.".to_string()));
    assert!(perms.clipboard.is_none());
}

#[test]
fn theme_type_is_read() {
    let text = BLENDER_MANIFEST_TEMPLATE.replace("type = \"add-on\"", "type = \"theme\"");
    assert_eq!(BlenderManifest::from_toml(&text).unwrap().extension_type, ExtensionType::Theme);
    assert_eq!(ExtensionType::Theme.as_str(), "theme");
    assert_eq!(ExtensionType::AddOn.as_str(), "add-on");
}

#[test]
fn unknown_type_is_refused() {
    let text = BLENDER_MANIFEST_TEMPLATE.replace("type = \"add-on\"", "type = \"plugin\"");
    assert!(matches!(
        BlenderManifest::from_toml(&text),
        Err(BlenderManifestError::DeserializeError(_))
    ));
}

#[test]
fn strict_version_is_required() {
    let text = BLENDER_MANIFEST_TEMPLATE.replace("version = \"0.1.0\"", "version = \"0.1\"");
    assert!(BlenderManifest::from_toml(&text).is_err());
}

#[test]
fn removed_permissions_are_dropped() {
    let mut manifest = template();
    manifest.permissions = None;
    let read = BlenderManifest::from_toml(&manifest.to_string().unwrap()).unwrap();
    assert!(read.permissions.is_none());
}

#[test]
fn permissions_inline_table_entries() {
    let perms = Permissions {
        files: Some("f".to_string()),
        network: None,
        clipboard: Some("c".to_string()),
        camera: None,
        microphone: Some("m".to_string()),
    };
    assert_eq!(
        perms.inline_table_entries(),
        vec![
            ("files".to_string(), "f".to_string()),
            ("clipboard".to_string(), "c".to_string()),
            ("microphone".to_string(), "m".to_string()),
        ]
    );
}
