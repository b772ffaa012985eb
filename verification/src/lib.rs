//! Provisioning of a platform-specific language-server binary.
//!
//! The library decides, step by step, how a host editor should locate,
//! download, cache and launch the `conl-lsp` executable. All outside work
//! (querying the release service, probing the filesystem, downloading) is
//! performed by the host; the library is the verified state machine that
//! tells the host what to do next and what to conclude from each result.

pub mod error;
pub mod laws;
pub mod platform;
pub mod provision;
