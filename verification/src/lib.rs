//! On-chain glue for compressed NFTs: account configuration, authority
//! derivation and event emission around an external compression library.
//!
//! The library holds the verified logic of the two entry points: deriving
//! the signing authority from the fixed seed, assembling the forwarded
//! call (accounts, signer seeds, parameters, metadata), and deciding the
//! event or error from the external call's outcome. The external call
//! itself is performed by the surrounding program, which hands its outcome
//! back as a plain value.

pub mod instructions;
pub mod keys;
pub mod metadata;
pub mod parse;
