//! Lookup-table generation for the tagged structures of a graphics API.
//!
//! From a parsed API description the library selects the structures that carry
//! a structure-tag field, leaves out those that belong to an unsupported
//! profile, and renders two tables keyed by the tag: one that gives the size
//! of each structure and one that gives the name of its tag.

pub mod context;
pub mod document;
pub mod entries;
pub mod exclusion;
pub mod generate;
pub mod names;
pub mod render;
pub mod tables;
pub mod tokens;

pub use entries::{generate_struct_name, generate_struct_type_size};
pub use names::vkspec_name_to_ash_struct_name;
