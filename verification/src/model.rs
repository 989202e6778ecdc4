//! The verified core of a model: its feature count, fixed at construction
//! and never mutated. The numeric state that goes with it — one weight per
//! feature, a bias, a learning rate — is floating point and lives with the
//! unverified driver, which keeps its weight vector exactly as long as this
//! record says and consults this record for every shape decision.

use vstd::prelude::*;
use crate::errors::LinearRegressionError;
use crate::shape::{feature_count_ok, predict_shape_error};

verus! {

/// The shape contract of one estimator: how many features (and therefore
/// how many weights) it has. Constructed once by `build_model`.
pub struct Model {
    n_features: usize,
}

impl Model {
    /// Number of features this model expects, equal to the length of the
    /// driver's weight vector for the model's entire lifetime.
    pub closed spec fn features(self) -> nat {
        self.n_features as nat
    }

    /// Fixed feature count of this model.
    pub fn feature_count(&self) -> (r: usize)
        ensures
            r == self.features(),
    {
        self.n_features
    }

    /// Shape check made by prediction: this model accepts exactly the
    /// matrices whose column count equals its feature count, whatever their
    /// row count (an empty matrix is legal and predicts an empty vector).
    pub fn check_predict(&self, x_cols: usize) -> (r: Result<(), LinearRegressionError>)
        ensures
            r is Ok <==> feature_count_ok(self.features(), x_cols as nat),
            r matches Err(e) ==> predict_shape_error(self.features(), x_cols as nat, e),
    {
        if x_cols != self.n_features {
            Err(LinearRegressionError::DimensionMismatch {
                expected: self.n_features,
                found: x_cols,
                context: "number of features in prediction",
            })
        } else {
            Ok(())
        }
    }
}

/// Builds the verified core of a model with the given feature count.
pub fn build_model(n_features: usize) -> (m: Model)
    ensures
        m.features() == n_features,
{
    Model { n_features }
}

} // verus!
