//! Helpers shared by the identifier types.

pub mod qualifiable;
pub mod text;
