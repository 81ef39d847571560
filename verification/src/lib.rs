//! Verified diagnosis logic of Magento Doctor.

pub mod base64;
pub mod bytes;
pub mod causal;
pub mod correlation;
pub mod endpoints;
pub mod env_parser;
pub mod fields;
pub mod finding;
pub mod flags;
pub mod forensics_rules;
pub mod fpc_inspector;
pub mod http_probe;
pub mod inventory;
pub mod investigate;
pub mod investigate_fmt;
pub mod json;
pub mod layout;
pub mod live_inspector;
pub mod model;
pub mod nginx_inspector;
pub mod number;
pub mod opensearch_inspector;
pub mod outcomes;
pub mod paths;
pub mod patterns;
pub mod php_fpm_inspector;
pub mod probe_plan;
pub mod ratio;
pub mod redis_check;
pub mod redis_inspector;
pub mod report;
pub mod service_reports;
pub mod signals;
pub mod text;
