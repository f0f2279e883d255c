use bext::cli::build_cmd::{
    archive_path, build_exclude_patterns, build_output_dir, build_source_dir, manifest_file, BuildCommandError,
};
use bext::cli::clean_cmd::{clean_patterns, clean_report, CleanCommandError};
use bext::cli::init_cmd::{check_no_config, init_config, init_config_path, init_source_dir, InitCommandError};
use bext::cli::link_cmd::{link_target, link_versions, record_link_outcome, LinkCommandError, LinkResult};
use bext::cli::unlink_cmd::{
    link_name, record_unlink_outcome, unlink_target, unlink_versions, UnlinkCommandError, UnlinkResult,
};
use bext::cli::{configured_versions, source_path, Args, Commands};
use bext::manifests::bext_config::{BextConfig, BextConfigError};
use bext::manifests::blender_manifest::BlenderManifest;
use bext::ops::link_ops::LinkError;
use bext::version::SemVersion;

fn config(text: &str) -> BextConfig {
    BextConfig::from_toml(text).unwrap()
}

#[test]
fn commands_are_plain_values() {
    let args = Args { command: Commands::Link { replace: true } };
    assert!(matches!(args.command, Commands::Link { replace: true }));
}

#[test]
fn versions_are_required_for_linking() {
    let c = config("source_dir = \"src\"\nblender_versions = [\"4.2\"]\n");
    let vs = link_versions(&c).unwrap();
    assert_eq!(vs, vec![SemVersion::parse("4.2.0").unwrap()]);
    assert_eq!(configured_versions(&c).unwrap().len(), 1);
    let empty = config("source_dir = \"src\"\nblender_versions = []\n");
    assert!(matches!(link_versions(&empty), Err(LinkCommandError::NoBlenderVersions)));
    let none = config("source_dir = \"src\"\n");
    assert!(matches!(unlink_versions(&none), Err(UnlinkCommandError::NoBlenderVersions)));
    assert!(configured_versions(&none).is_none());
}

#[test]
fn link_target_is_named_after_the_source() {
    let c = config("source_dir = \"addons/my_ext\"\n");
    let src = source_path("/work", &c);
    assert_eq!(src, "/work/addons/my_ext");
    assert_eq!(link_target("/ext", &src).unwrap(), "/ext/my_ext");
    match link_target("/ext", "/") {
        Err(LinkCommandError::InvalidSourcePath(p)) => assert_eq!(p, "/"),
        other => panic!("unexpected {:?}", other),
    }
    assert_eq!(link_name(&src).unwrap(), "my_ext");
    assert!(matches!(link_name("/work/.."), Err(UnlinkCommandError::InvalidSourcePath(_))));
    assert_eq!(unlink_target("/ext", "my_ext"), "/ext/my_ext");
}

#[test]
fn link_outcomes_are_recorded() {
    let mut result = LinkResult::new();
    record_link_outcome(&mut result, "/a".to_string(), Ok(())).unwrap();
    record_link_outcome(&mut result, "/b".to_string(), Err(LinkError::PathExists("/b".to_string()))).unwrap();
    let err = record_link_outcome(&mut result, "/c".to_string(), Err(LinkError::IoError("denied".to_string())))
        .unwrap_err();
    assert_eq!(result.linked, vec!["/a".to_string()]);
    assert_eq!(result.skipped, vec!["/b".to_string()]);
    assert_eq!(err.message(), "Link error: I/O error: denied");
}

#[test]
fn unlink_outcomes_are_recorded() {
    let mut result = UnlinkResult::new();
    record_unlink_outcome(&mut result, "/a".to_string(), Ok(())).unwrap();
    record_unlink_outcome(&mut result, "/b".to_string(), Err(LinkError::PathNotFound("/b".to_string())))
        .unwrap();
    assert!(record_unlink_outcome(&mut result, "/c".to_string(), Err(LinkError::PathExists("/c".to_string())))
        .is_err());
    assert_eq!(result.removed, vec!["/a".to_string()]);
    assert_eq!(result.not_found, vec!["/b".to_string()]);
}

#[test]
fn build_needs_an_existing_source_directory() {
    let c = config("source_dir = \"src\"\noutput_dir = \"dist\"\n");
    let yes = |_p: &str| true;
    let no = |_p: &str| false;
    assert_eq!(build_source_dir("/w", &c, yes, yes).unwrap(), "/w/src");
    match build_source_dir("/w", &c, yes, no) {
        Err(BuildCommandError::InvalidSourcePath(p)) => assert_eq!(p, "/w/src"),
        other => panic!("unexpected {:?}", other),
    }
    assert_eq!(manifest_file("/w/src"), "/w/src/blender_manifest.toml");
}

#[test]
fn build_output_directory_choices() {
    let c = config("source_dir = \"src\"\noutput_dir = \"dist\"\n");
    let yes = |_p: &str| true;
    let no = |_p: &str| false;
    let out = build_output_dir("/w", &c, no, no).unwrap();
    assert_eq!(out.path, "/w/dist");
    assert!(out.create);
    let out = build_output_dir("/w", &c, yes, yes).unwrap();
    assert!(!out.create);
    let err = build_output_dir("/w", &c, yes, no).unwrap_err();
    assert_eq!(err.message(), "Output path exists but is not a directory: /w/dist");
    let none = config("source_dir = \"src\"\n");
    assert!(matches!(build_output_dir("/w", &none, yes, yes), Err(BuildCommandError::NoOutputDirectory)));
    let empty = config("source_dir = \"src\"\noutput_dir = \"\"\n");
    assert!(matches!(build_output_dir("/w", &empty, yes, yes), Err(BuildCommandError::NoOutputDirectory)));
}

#[test]
fn archive_is_named_by_the_template() {
    let manifest = BlenderManifest::from_toml(
        "id = \"my_ext\"\nversion = \"1.2.0\"\nname = \"My Ext\"\nmaintainer = \"Me\"\ntype = \"add-on\"\n",
    )
    .unwrap();
    let c = config("source_dir = \"src\"\npackage_name = \"{id}-{version}\"\n");
    assert_eq!(archive_path("/w/dist", &c, &manifest), "/w/dist/my_ext-1.2.0.zip");
    let plain = config("source_dir = \"src\"\n");
    assert_eq!(archive_path("/w/dist", &plain, &manifest), "/w/dist/My Ext.zip");
}

#[test]
fn exclude_patterns_for_build_and_clean() {
    let c = config("source_dir = \"src\"\nexclude_globs = [\"*.pyc\", \"[\"]\n");
    assert_eq!(build_exclude_patterns(&c).unwrap().len(), 1);
    assert_eq!(clean_patterns(&c).unwrap().len(), 1);
    let none = config("source_dir = \"src\"\n");
    assert_eq!(build_exclude_patterns(&none).unwrap().len(), 0);
    let err = clean_patterns(&none).unwrap_err();
    assert!(matches!(err, CleanCommandError::NoExcludePatterns));
    assert_eq!(err.message(), "No exclude patterns specified in configuration");
    assert_eq!(clean_report(3), "Deleted 3 items based on exclude patterns.");
}

#[test]
fn init_writes_the_default_configuration() {
    assert_eq!(init_config_path("/w"), "/w/bext.toml");
    assert_eq!(init_source_dir("/w/addon/blender_manifest.toml", "/w"), "addon");
    assert_eq!(init_source_dir("/elsewhere/blender_manifest.toml", "/w"), ".");
    let c = init_config("addon".to_string());
    let read = BextConfig::from_toml(&c.to_string().unwrap()).unwrap();
    assert_eq!(read.source_dir, "addon");
    assert_eq!(read.output_dir.as_deref(), Some("dist"));
    assert_eq!(read.package_name.as_deref(), Some("{name} ({version})"));
    assert_eq!(
        read.exclude_globs,
        Some(vec!["**/__pycache__/**".to_string(), "**/*.pyc".to_string()])
    );
    assert_eq!(read.blender_versions, Some(vec![]));
}

#[test]
fn command_error_messages() {
    let e = InitCommandError::ConfigAlreadyExists("/w/bext.toml".to_string());
    assert_eq!(e.message(), "Bext configuration already exists at /w/bext.toml");
    let e = LinkCommandError::BextConfigError(BextConfigError::ConfigNotFound("/w".to_string()));
    assert_eq!(
        e.message(),
        "Bext configuration error: Config file not found in directory tree starting from: /w"
    );
    assert_eq!(
        BuildCommandError::NoOutputDirectory.message(),
        "No output directory specified in configuration"
    );
    assert_eq!(
        UnlinkCommandError::InvalidSourcePath("/".to_string()).message(),
        "Invalid source path: /"
    );
}

#[test]
fn init_refuses_an_existing_configuration() {
    assert!(check_no_config("/w/bext.toml", |_p: &str| false).is_ok());
    match check_no_config("/w/bext.toml", |p: &str| p == "/w/bext.toml") {
        Err(InitCommandError::ConfigAlreadyExists(p)) => assert_eq!(p, "/w/bext.toml"),
        other => panic!("unexpected {:?}", other),
    }
}
