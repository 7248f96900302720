//! Data model for revocation registries of an anonymous-credential system:
//! registry state and deltas, registry definitions, their identifiers, and the
//! rules that decide which of them are acceptable.

pub mod anoncreds;
pub mod envelope;
pub mod identifiers;
pub mod opaque;
pub mod utils;
pub mod validation;

pub use validation::{Validatable, ValidationError};
