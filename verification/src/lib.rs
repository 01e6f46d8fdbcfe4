//! Consolidates batches of job-status event records into one summary and
//! renders a human-readable notification for it.
//!
//! A batch is a byte stream of concatenated JSON objects, each one an
//! observation of a task's progress.  The library decodes the stream, folds
//! the records into a single consolidated record, classifies the outcome by
//! the shape of the record's optional fields, and produces a notification
//! title and body.  Delivery of the notification and transport of the byte
//! stream are left to the caller.

pub mod classify;
pub mod duration;
pub mod json;
pub mod merge;
pub mod pipeline;
pub mod record;
pub mod render;
pub mod text;
