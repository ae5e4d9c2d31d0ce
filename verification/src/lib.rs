//! Configuration handling for Python-defined Cube settings and the decision
//! logic of the cache store's garbage-collection scheduler.

pub mod error;
pub mod properties;
pub mod python_call;
pub mod config;
pub mod conversion;
pub mod scheduler;

pub use error::{CubeError, CubeErrorCauseType};
