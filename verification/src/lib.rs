//! Resolution of a flat, C++-style class/property/enum description into a
//! per-module catalog of fully resolved types, suitable for documentation or
//! binding generation for a QML-like target language.
//!
//! The entry point is [`resolver::resolve_types`]: given a target module name
//! and a raw [`model::TypeSpec`], it computes the catalog of classes and
//! enums exposed under that module, including inherited members, inline
//! expansion of value types ("gadgets"), and list-type unwrapping.

pub mod assoc;
pub mod laws;
pub mod model;
pub mod outform;
pub mod resolver;
pub mod text;

pub use resolver::resolve_types;
