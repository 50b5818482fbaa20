//! Verified core of the SDKWork GitHub integration: tenant-scope rules,
//! tracker validation, view assembly, catalog and sync record derivation,
//! SQL statement construction and HTTP-facing decisions.

pub mod api_assembly;
pub mod catalog_run;
pub mod domain;
pub mod error;
pub mod external;
pub mod gateway_assembly;
pub mod http;
pub mod integration;
pub mod records;
pub mod rows;
pub mod rules;
pub mod sql;
pub mod sync_run;
pub mod text;
pub mod tracker;
pub mod views;
