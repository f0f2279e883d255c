use bext::manifests::pyproject::{PyProject, PyProjectError, PyVersion};

const PYPROJECT_TEMPLATE: &str = r#"[project]
name = "test-package"
version = "0.1.0"
description = "A package used in tests"
requires-python = ">=3.11"

[build-system]
requires = ["hatchling"]
build-backend = "hatchling.build"
"#;

fn template() -> PyProject {
    PyProject::from_toml(PYPROJECT_TEMPLATE).unwrap()
}

#[test]
fn test_pyproject_template() {
    let pyproject = template();
    assert_eq!(pyproject.project.name, "test-package");
    assert_eq!(pyproject.project.version, PyVersion::parse("0.1.0").unwrap());
}

#[test]
fn test_pyproject_write_preservation() {
    let mut pyproject = template();
    let pyproject_string = pyproject.to_string().unwrap();

    pyproject.project.version = PyVersion::parse("1.0.0").unwrap();
    let pyproject_string_updated = pyproject.to_string().unwrap();

    let written = pyproject.to_string().unwrap();
    let pyproject_from_file = PyProject::from_toml(&written).unwrap();
    let pyproject_string_from_file = pyproject_from_file.to_string().unwrap();
    assert_eq!(pyproject_string_from_file, pyproject_string_updated);
    assert_ne!(pyproject_string_from_file, pyproject_string);
}

#[test]
fn versions_are_kept_in_normal_form() {
    assert_eq!(PyVersion::parse("1.0.0").unwrap().as_str(), "1.0.0");
    assert_eq!(PyVersion::parse("1.0RC1").unwrap().as_str(), "1.0rc1");
    assert!(PyVersion::parse("not a version").is_err());
}

#[test]
fn project_table_is_required() {
    assert!(matches!(
        PyProject::from_toml("name = \"x\"\n"),
        Err(PyProjectError::DeserializeError(_))
    ));
    assert!(PyProject::from_toml("[project]\nname = \"x\"\n").is_err());
}

#[test]
fn writing_keeps_the_rest_of_the_file() {
    let mut pyproject = template();
    pyproject.project.version = PyVersion::parse("2.0").unwrap();
    let written = pyproject.to_string().unwrap();
    assert!(written.contains("version = \"2.0\""));
    assert!(written.contains("build-backend = \"hatchling.build\""));
    let read = PyProject::from_toml(&written).unwrap();
    assert_eq!(read.project.name, "test-package");
    assert_eq!(read.project.version.as_str(), "2.0");
}

#[test]
fn writability_of_the_project_entry() {
    assert!(template().is_writable());
    let odd = PyProject {
        project: bext::manifests::pyproject::Project {
            name: "x".to_string(),
            version: PyVersion::parse("1.0").unwrap(),
        },
        doc: "project = 1\n".parse::<toml_edit::DocumentMut>().unwrap(),
    };
    assert!(!odd.is_writable());
    let fresh = PyProject {
        project: bext::manifests::pyproject::Project {
            name: "x".to_string(),
            version: PyVersion::parse("1.0").unwrap(),
        },
        doc: toml_edit::DocumentMut::new(),
    };
    assert!(fresh.is_writable());
    let read = PyProject::from_toml(&fresh.to_string().unwrap()).unwrap();
    assert_eq!(read.project.name, "x");
    assert_eq!(read.project.version.as_str(), "1.0");
}
