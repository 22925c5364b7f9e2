//! Checks on a finished encode: its measured quality, and whether it has
//! the frame rate and the duration of its source.

pub mod validator;
pub mod vmaf;

pub use validator::{validate, ValidationResult};
pub use vmaf::{VmafOptions, VmafResult};
