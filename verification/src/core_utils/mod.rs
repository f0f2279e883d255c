//! Helpers beside `ops`: making a link without the choice of replacing, and
//! looking for a file upward from the directory the tool runs in.

pub mod find_files;
pub mod link;
