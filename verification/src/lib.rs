//! The verified core of the iOS call manager interface: what the application
//! hands across the boundary, as plain values, and how each entry point turns it
//! into a request for the call manager and the call manager's answer into the
//! address handed back.

pub mod byte_slice;
pub mod ice_candidate;
pub mod request;
pub mod app_object;
pub mod laws;
