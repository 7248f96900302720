//! Identifiers of the records that a registry refers to.

pub mod cred_def;
pub mod rev_reg;
