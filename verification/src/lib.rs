//! Aggregate business metrics over a chronological log of application
//! lifecycle events (installs, uninstalls, subscription and one-time
//! purchase activity), computed per tenant and across all tenants.
//!
//! The pipeline lives in [`analyze`]: a single pass folds the event stream
//! into per-tenant state ([`merchant`]) and global counts ([`stats`]), and a
//! second pass derives the final classifications and growth metrics. The
//! classifier's rules are in [`classify`] and [`event`], backed by the
//! pattern engine bindings in [`pattern`]; [`model`] states what every
//! counter and retained list must equal, and [`laws`] proves the general
//! properties the pipeline promises.

pub mod analyze;
pub mod classify;
pub mod dates;
pub mod defs;
pub mod error;
pub mod event;
pub mod laws;
pub mod merchant;
pub mod model;
pub mod pattern;
pub mod stats;
