use bext::ops::archive_ops::{archive_entry, keep_entry, ArchiveEntry, ArchiveOpsError};
use bext::ops::blender_data::{get_blender_extension_dir, BlenderDataError};
use bext::ops::extension_validation::{validate_extension, ExtensionValidationError};
use bext::ops::glob_ops::{
    compile_string_globs, glob_delete_action, matches_any, DeleteAction, GlobDeleteError, GlobPattern,
};
use bext::ops::link::{self, LinkCommand, Platform};
use bext::ops::link_ops::{self, plan_create_link, plan_remove_link, ClearPlan, RemovePlan};
use bext::version::SemVersion;

#[test]
fn validate_extension_accepts_a_directory_with_a_manifest() {
    let exists = |p: &str| p == "/p/src" || p == "/p/src/blender_manifest.toml";
    assert!(validate_extension("/p/src", exists).is_ok());
}

#[test]
fn validate_extension_reports_a_missing_directory() {
    let exists = |_p: &str| false;
    match validate_extension("/p/src", exists) {
        Err(ExtensionValidationError::DirectoryNotFound(d)) => assert_eq!(d, "/p/src"),
        other => panic!("unexpected {:?}", other),
    }
}

#[test]
fn validate_extension_reports_a_missing_manifest() {
    let exists = |p: &str| p == "/p/src";
    let err = validate_extension("/p/src", exists).unwrap_err();
    assert!(matches!(err, ExtensionValidationError::NoManifestFile(_)));
    assert_eq!(
        err.message(),
        "No blender_manifest.toml file found in source directory /p/src"
    );
}

#[test]
fn blender_extension_dir_is_found() {
    let version = SemVersion::parse("4.2.1").unwrap();
    let exists = |_p: &str| true;
    let dir = get_blender_extension_dir(&version, Some("/home/u/.local/share"), exists).unwrap();
    assert_eq!(
        dir,
        "/home/u/.local/share/Blender Foundation/Blender/4.2/extensions/user_default"
    );
}

#[test]
fn blender_data_errors() {
    let version = SemVersion::parse("4.2.0").unwrap();
    assert!(matches!(
        get_blender_extension_dir(&version, None, |_p: &str| true),
        Err(BlenderDataError::DataDirNotFound)
    ));
    let err = get_blender_extension_dir(&version, Some("/d"), |_p: &str| false).unwrap_err();
    assert_eq!(
        err.message(),
        "Blender data directory not found: /d/Blender Foundation/Blender"
    );
    let only_root = |p: &str| p == "/d/Blender Foundation/Blender";
    let err = get_blender_extension_dir(&version, Some("/d"), only_root).unwrap_err();
    assert_eq!(
        err.message(),
        "Blender data directory not found for version 4.2.0"
    );
    let no_ext = |p: &str| !p.ends_with("user_default");
    let err = get_blender_extension_dir(&version, Some("/d"), no_ext).unwrap_err();
    assert!(matches!(err, BlenderDataError::BlenderExtensionsDirNotFound(_)));
}

#[test]
fn invalid_globs_are_left_out() {
    let globs = vec!["*.pyc".to_string(), "[".to_string(), "__pycache__".to_string()];
    let patterns = compile_string_globs(&globs).unwrap();
    let texts: Vec<&str> = patterns.iter().map(|p| p.as_str()).collect();
    assert_eq!(texts, vec!["*.pyc", "__pycache__"]);
    assert!(GlobPattern::new("[").is_none());
}

#[test]
fn glob_matching() {
    let patterns = compile_string_globs(&vec!["*.pyc".to_string(), "__pycache__".to_string()]).unwrap();
    assert!(matches_any(&patterns, "module.pyc"));
    assert!(matches_any(&patterns, "__pycache__"));
    assert!(!matches_any(&patterns, "module.py"));
}

#[test]
fn clean_deletes_only_matching_entries() {
    let patterns = compile_string_globs(&vec!["*.pyc".to_string(), "__pycache__".to_string()]).unwrap();
    assert_eq!(glob_delete_action(Some("a.pyc"), true, false, &patterns), DeleteAction::RemoveFile);
    assert_eq!(glob_delete_action(Some("__pycache__"), false, true, &patterns), DeleteAction::RemoveDirAll);
    assert_eq!(glob_delete_action(Some("a.py"), true, false, &patterns), DeleteAction::Keep);
    assert_eq!(glob_delete_action(None, true, false, &patterns), DeleteAction::Keep);
    assert_eq!(glob_delete_action(Some("a.pyc"), false, false, &patterns), DeleteAction::Keep);
}

#[test]
fn archive_keeps_unmatched_entries() {
    let patterns = compile_string_globs(&vec!["**/__pycache__/**".to_string(), "*.pyc".to_string()]).unwrap();
    assert!(keep_entry(Some(""), &patterns));
    assert!(keep_entry(None, &patterns));
    assert!(keep_entry(Some("ops/module.py"), &patterns));
    assert!(!keep_entry(Some("module.pyc"), &patterns));
    assert!(!keep_entry(Some("a/__pycache__/m.pyc"), &patterns));
}

#[test]
fn archive_names_use_forward_slashes() {
    assert!(matches!(archive_entry("", false, true), ArchiveEntry::Skip));
    match archive_entry("ops\\module.py", true, false) {
        ArchiveEntry::File(n) => assert_eq!(n, "ops/module.py"),
        other => panic!("unexpected {:?}", other),
    }
    match archive_entry("ops", false, true) {
        ArchiveEntry::Directory(n) => assert_eq!(n, "ops"),
        other => panic!("unexpected {:?}", other),
    }
    assert!(matches!(archive_entry("socket", false, false), ArchiveEntry::Skip));
}

#[test]
fn link_commands_per_platform() {
    match link::create_link("/src", "/ext/src", Platform::Unix) {
        LinkCommand::Symlink { source, link } => {
            assert_eq!(source, "/src");
            assert_eq!(link, "/ext/src");
        }
        other => panic!("unexpected {:?}", other),
    }
    match link::create_link("C:\\src", "C:\\ext\\src", Platform::Windows) {
        LinkCommand::Run { program, args } => {
            assert_eq!(program, "cmd");
            assert_eq!(args, vec!["/C", "mklink", "/J", "C:\\ext\\src", "C:\\src"]);
        }
        other => panic!("unexpected {:?}", other),
    }
    match link::remove_link("C:\\ext\\src", Platform::Windows) {
        LinkCommand::Run { program, args } => {
            assert_eq!(program, "cmd");
            assert_eq!(args, vec!["/C", "rmdir", "C:\\ext\\src"]);
        }
        other => panic!("unexpected {:?}", other),
    }
    match link::remove_link("/ext/src", Platform::Unix) {
        LinkCommand::RemoveFile { path } => assert_eq!(path, "/ext/src"),
        other => panic!("unexpected {:?}", other),
    }
}

#[test]
fn junction_outcomes() {
    assert!(link::junction_outcome(true, false).is_ok());
    assert!(matches!(
        link::junction_outcome(false, false),
        Err(link::LinkError::JunctionCreationFailed)
    ));
    assert!(matches!(
        link::junction_outcome(false, true),
        Err(link::LinkError::JunctionRemovalFailed)
    ));
    assert_eq!(
        link::LinkError::JunctionRemovalFailed.message(),
        "Failed to remove Junction via cmd"
    );
    assert!(bext::core_utils::link::junction_outcome(true).is_ok());
    assert!(bext::core_utils::link::junction_outcome(false).is_err());
}

#[test]
fn core_link_command() {
    match bext::core_utils::link::create_link("/src", "/l", Platform::Unix) {
        LinkCommand::Symlink { source, link } => {
            assert_eq!(source, "/src");
            assert_eq!(link, "/l");
        }
        other => panic!("unexpected {:?}", other),
    }
}

#[test]
fn create_link_plans() {
    assert_eq!(plan_create_link("/l", false, false, false).unwrap(), ClearPlan::Nothing);
    assert_eq!(plan_create_link("/l", true, true, true).unwrap(), ClearPlan::RemoveDirAll);
    assert_eq!(plan_create_link("/l", true, false, true).unwrap(), ClearPlan::RemoveFile);
    match plan_create_link("/l", true, true, false) {
        Err(link_ops::LinkError::PathExists(p)) => assert_eq!(p, "/l"),
        other => panic!("unexpected {:?}", other),
    }
}

#[test]
fn remove_link_plans() {
    assert_eq!(plan_remove_link("/l", true, true).unwrap(), RemovePlan::RemoveDirAll);
    assert_eq!(plan_remove_link("/l", true, false).unwrap(), RemovePlan::RemoveFile);
    let err = plan_remove_link("/l", false, false).unwrap_err();
    assert_eq!(err.message(), "Path does not exist: /l");
}

#[test]
fn error_messages() {
    assert_eq!(GlobDeleteError::GlobError("bad".to_string()).message(), "Glob pattern error: bad");
    assert_eq!(ArchiveOpsError::ZipError("z".to_string()).message(), "Zip error: z");
    assert_eq!(
        link_ops::LinkError::PathExists("/l".to_string()).message(),
        "Path exists: /l"
    );
}
