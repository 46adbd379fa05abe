//! Helpers that are not specific to NiFi.

pub mod json;
pub mod pod_template;
pub mod reader;
pub mod writer;
