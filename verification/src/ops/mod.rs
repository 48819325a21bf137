//! What the host functions exposed to scripts compute.
pub mod db;
pub mod result;
