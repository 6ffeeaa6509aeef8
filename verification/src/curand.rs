//! cuRAND host API support: status codes, generators, distributions and Sobol tables.
pub mod distribution;
pub mod error;
pub mod generator;
pub mod quasi;
pub mod types;
