//! Network Slice Selection Function (NSSF): the slice selection rules, the
//! validation of identifiers, feature negotiation and the decisions on AMF
//! selection, NSAG admission and NSSRG assignment, stated and proved with Verus.
//! Storage, HTTP and the NRF client live in the application around this library.
pub mod text;
pub mod runtime;
pub mod types;
pub mod errors;
pub mod config;
pub mod validation;
pub mod services;
