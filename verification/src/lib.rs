//! TLS configuration for an HTTP client on WinHTTP.
//!
//! The crate decides; it performs no system call.  [`tls`] turns a range of
//! protocol versions into the mask that WinHTTP takes and describes client
//! certificates.  [`abi`] holds the certificate-store operations as
//! resumable machines: each names the crypt32 call it is waiting for, and is
//! resumed with what that call answered.

pub mod abi;
pub mod error;
pub mod format;
pub mod identity_laws;
pub mod tls;
pub mod version_laws;
