//! The PLINK token: a CW20 token whose one rule of its own is who may hand
//! the minter role on.

pub mod contract;
