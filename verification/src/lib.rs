//! Layered configuration merging and the reconciliation of tool installs.
//!
//! [`combine`] merges configuration layers of different precedence into one
//! effective configuration. [`reconcile`] decides, for a request to install a
//! tool, whether the installed environment is reused, updated or rebuilt.

pub mod strategy;
pub mod plain;
pub mod names;
pub mod combine;
pub mod settings;
pub mod model;
pub mod request;
pub mod reconcile;
pub mod laws;
