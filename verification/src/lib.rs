//! Bundling settings of a desktop application and the Rust dependency report of its
//! project, with their rules stated and proved.

pub mod text;
pub mod package_type;
pub mod category;
pub mod error;
pub mod platform;
pub mod settings;
pub mod cargo_info;
