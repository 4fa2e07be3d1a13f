//! The crypt32 certificate-store interface.
//!
//! Backs [`crate::tls::Identity`]: opening a system store, finding and
//! listing certificates, and counting references to certificate contexts.
//! Nothing here touches private key material; SChannel does that.

pub mod call_laws;
pub mod cert;
pub mod cert_laws;
pub mod constants;
pub mod crypt32;
pub mod deletion;
pub mod listing;
pub mod listing_laws;
pub mod lookup;
pub mod operation;
pub mod store_laws;
pub mod wide;
pub mod wide_laws;
