//! Verified support for NVIDIA CUPTI profiling and cuRAND random number generation:
//! the decisions, decoders and bookkeeping around the two C libraries' calls.
pub mod cupti;
pub mod curand;
pub mod version;
