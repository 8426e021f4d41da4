//! Helpers of the screens: the estimate of a height, and the checks of the
//! form fields.

pub mod input;

pub use crate::helpers::height_to_est;
