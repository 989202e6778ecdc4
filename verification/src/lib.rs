//! Core logic of a batch-gradient-descent linear regression estimator:
//! the error taxonomy, eager shape validation, and the bookkeeping of a
//! training run. Floating-point arithmetic (predictions, losses, gradient
//! updates) lives outside the verified core and reports back through the
//! plain values these modules take.

pub mod errors;
pub mod model;
pub mod shape;
pub mod training;
