//! Build-time synthesis of record boilerplate: constructors, read accessors
//! and write accessors, driven by per-field directives.
//!
//! The host build process parses source text into a [`model::TypeDef`] and
//! hands it to one of the three synthesizers; the returned
//! [`model::Fragment`] is rendered back into host-language syntax by the
//! caller.

pub mod model;
pub mod scan;
pub mod extract;
pub mod constructor;
pub mod getters;
pub mod setters;
pub mod laws;

pub use crate::constructor::constructor;
pub use crate::getters::getters;
pub use crate::setters::setters;
