//! Derivation of a guest secret key from a hardware root of trust.
//!
//! The crate validates caller-supplied derivation parameters (root-key
//! selector, privilege level, field-selection mask, SVN and TCB version),
//! builds the hardware request, issues it to the SEV-SNP guest firmware,
//! and fixes the exact byte layout under which the derived key is persisted.

pub mod key;
pub mod request;
