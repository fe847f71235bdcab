//! Verified core of an accessibility audit service: the data model of audit
//! projects and scans, the summary and comparison rules for WCAG compliance,
//! request validation, the in-memory project store and the request-handling
//! decisions of the HTTP API.

pub mod bindings;
pub mod api;
pub mod domain;
pub mod laws;
pub mod services;
pub mod utils;
