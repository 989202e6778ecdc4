//! Shape contracts: which dimensions each operation accepts, and exactly
//! which error it owes when they are violated. Every operation validates
//! eagerly, before any arithmetic runs, and the first violated check
//! decides which error comes back.

use vstd::prelude::*;
use crate::errors::LinearRegressionError;

verus! {

/// True when a feature matrix with `x_cols` columns fits a model that
/// expects `n_features` features.
pub open spec fn feature_count_ok(n_features: nat, x_cols: nat) -> bool {
    x_cols == n_features
}

/// True when `(X, y)` with the given dimensions is a legal training set for
/// a model expecting `n_features` features: matching sample counts, matching
/// feature counts, and at least one row.
pub open spec fn train_shapes_ok(n_features: nat, x_rows: nat, x_cols: nat, y_len: nat) -> bool {
    &&& x_rows == y_len
    &&& x_cols == n_features
    &&& x_rows > 0
}

/// The exact error owed when prediction is attempted against a matrix whose
/// column count disagrees with the model's feature count.
pub open spec fn predict_shape_error(n_features: nat, x_cols: nat, e: LinearRegressionError) -> bool {
    &&& e matches LinearRegressionError::DimensionMismatch { expected, found, context }
    &&& expected == n_features
    &&& found == x_cols
    &&& context@ == "number of features in prediction"@
}

/// The exact error owed for an invalid training shape, in the order the
/// checks are made: sample count first, then feature count, then emptiness.
pub open spec fn train_shape_error(
    n_features: nat,
    x_rows: nat,
    x_cols: nat,
    y_len: nat,
    e: LinearRegressionError,
) -> bool {
    if x_rows != y_len {
        &&& e matches LinearRegressionError::DimensionMismatch { expected, found, context }
        &&& expected == x_rows
        &&& found == y_len
        &&& context@ == "number of samples in X and y"@
    } else if x_cols != n_features {
        &&& e matches LinearRegressionError::DimensionMismatch { expected, found, context }
        &&& expected == n_features
        &&& found == x_cols
        &&& context@ == "number of features"@
    } else {
        e is EmptyData
    }
}

/// Once a training set passes validation, prediction on the same matrix
/// cannot fail: the feature-count check prediction makes is already implied.
pub proof fn lemma_train_shapes_allow_prediction(
    n_features: nat,
    x_rows: nat,
    x_cols: nat,
    y_len: nat,
)
    requires
        train_shapes_ok(n_features, x_rows, x_cols, y_len),
    ensures
        feature_count_ok(n_features, x_cols),
{
}

} // verus!
