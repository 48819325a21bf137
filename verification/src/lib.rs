//! A sandbox that runs untrusted JavaScript modules under an allowlist of
//! importable modules and with heap and time limits.
pub mod module_map;
pub mod error;
pub mod limits;
pub mod json;
pub mod metrics;
pub mod module_loader;
pub mod ops;
pub mod runtime;
