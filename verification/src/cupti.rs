//! CUPTI profiling support: identifiers, activity records, buffers and attributes.
pub mod activity;
pub mod callback;
pub mod error;
pub mod event;
pub mod types;
pub mod utility;
