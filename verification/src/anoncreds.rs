//! Records exchanged between issuers, holders and verifiers.

pub mod rev_reg;
pub mod rev_reg_def;
