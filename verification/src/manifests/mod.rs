//! The three TOML files the tool reads and writes: `bext.toml`,
//! `blender_manifest.toml` and `pyproject.toml`.

pub mod bext_config;
pub mod blender_manifest;
pub mod pyproject;
pub mod utility;
