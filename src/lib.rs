//! Header and form-field SQL-injection probing: anomaly classification against a
//! baseline response, request construction, CSRF token extraction and caching, and
//! the sequential target-by-payload scan plan.

pub mod csrf;
pub mod file_reader;
pub mod logger;
pub mod models;
pub mod scan_service;
pub mod scanner;
pub mod text;
pub mod ui;
