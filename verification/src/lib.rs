//! Inspect one filesystem entry and render its metadata in one of several
//! presentation styles.
//!
//! The library is organised as a pipeline: a [`record::RawMetadata`] bundle of
//! raw attributes (gathered by the caller) is enriched into an immutable
//! [`record::FileRecord`], which interchangeable formatters turn into a
//! display string: a plain labelled report, a single-row table, or a
//! structured (JSON) document whose round trip is proved lossless.

pub mod record;
pub mod numfmt;
pub mod textlib;
pub mod escape;
pub mod plain;
pub mod json;
pub mod resolve;
pub mod table;
pub mod dispatch;
