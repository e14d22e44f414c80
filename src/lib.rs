//! Filtering of forward-DNS dumps: newline-delimited JSON records, each kept
//! or dropped by a record-type filter, an optional list of domain suffixes and
//! a regular expression searched in a chosen field.

pub mod fdns;
pub mod laws;
pub mod pattern;
pub mod record;
