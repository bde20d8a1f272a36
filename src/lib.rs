//! Status dashboard logic for VPS accounts: credential handling, provider
//! request construction, usage figures, aggregation, size formatting and the
//! answers of the two HTTP endpoints.
//!
//! Aggregation is best-effort: an account whose status cannot be had is left
//! out of the list, so one bad credential does not blank the dashboard.
//! Credentials are given as two lists, identifiers and keys, paired by
//! position; `config::parse_credentials` reads the `id:key` token form.
pub mod config;
pub mod reply;
pub mod size;
pub mod status;
