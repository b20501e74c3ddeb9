//! Helpers that serve more than one record.

pub mod json_string;
