//! Bookkeeping of one training run. Training is a small state machine:
//! validate the shapes once, then run exactly the requested number of
//! epochs, stopping early only when an epoch reports non-finite residuals.
//!
//! The floating-point work of an epoch (predict, residuals, gradients,
//! parameter update, loss) happens outside the verified core; the caller
//! drives the loop and reports, per epoch, the one fact the state machine
//! decides on: whether every residual was finite. Everything about the
//! schedule — how many epochs run, how many loss values the history holds,
//! when and with which error the run fails — is decided and proved here.
//!
//! When a run diverges, the error alone comes back and the loss values of
//! the completed epochs are discarded: a partial curve cut short by
//! overflow invites misreading, and the caller is expected to retry with
//! different hyperparameters anyway.

use vstd::prelude::*;
use crate::errors::LinearRegressionError;
use crate::model::Model;
use crate::shape::{train_shapes_ok, train_shape_error};

verus! {

/// The message carried by the error that a divergent epoch raises.
pub open spec fn divergence_error(e: LinearRegressionError) -> bool {
    &&& e matches LinearRegressionError::NumericalError(msg)
    &&& msg@ == "Infinite or NaN values encountered during training"@
}

/// The state of one training run: how many epochs were requested, how many
/// completed (one loss value is recorded per completed epoch), and whether
/// a non-finite residual has been seen.
pub struct TrainRun {
    epochs: usize,
    completed: usize,
    failed: bool,
}

impl TrainRun {
    /// Number of epochs this run was asked to perform.
    pub closed spec fn goal(self) -> nat {
        self.epochs as nat
    }

    /// Number of epochs completed so far; the loss history the caller
    /// accumulates holds exactly this many entries.
    pub closed spec fn recorded(self) -> nat {
        self.completed as nat
    }

    /// Whether an epoch has reported a non-finite residual.
    pub closed spec fn diverged(self) -> bool {
        self.failed
    }

    /// A run never completes more epochs than were requested.
    pub open spec fn wf(self) -> bool {
        self.recorded() <= self.goal()
    }

    /// A run keeps going while epochs remain and nothing has diverged.
    pub open spec fn running(self) -> bool {
        self.recorded() < self.goal() && !self.diverged()
    }

    /// The successor state after an epoch: the next state is a pure
    /// function of the current state and of the one reported fact, so a
    /// whole run is determined by its inputs and its epoch reports.
    pub closed spec fn step(self, all_finite: bool) -> TrainRun {
        if all_finite {
            TrainRun { completed: (self.completed + 1) as usize, ..self }
        } else {
            TrainRun { failed: true, ..self }
        }
    }

    /// Validates the shapes of a training set against a model and opens a
    /// run.
    ///
    /// Succeeds exactly on legal training shapes; on an illegal shape it
    /// returns the error of the first violated check (sample count, then
    /// feature count, then emptiness) and no run exists, so no epoch can
    /// have executed.
    pub fn begin(
        model: &Model,
        x_rows: usize,
        x_cols: usize,
        y_len: usize,
        epochs: usize,
    ) -> (r: Result<TrainRun, LinearRegressionError>)
        ensures
            r is Ok <==> train_shapes_ok(
                model.features(),
                x_rows as nat,
                x_cols as nat,
                y_len as nat,
            ),
            r matches Ok(run) ==> run.wf() && run.goal() == epochs && run.recorded() == 0
                && !run.diverged(),
            r matches Err(e) ==> train_shape_error(
                model.features(),
                x_rows as nat,
                x_cols as nat,
                y_len as nat,
                e,
            ),
    {
        let n_features: usize = model.feature_count();
        if x_rows != y_len {
            Err(LinearRegressionError::DimensionMismatch {
                expected: x_rows,
                found: y_len,
                context: "number of samples in X and y",
            })
        } else if x_cols != n_features {
            Err(LinearRegressionError::DimensionMismatch {
                expected: n_features,
                found: x_cols,
                context: "number of features",
            })
        } else if x_rows == 0 {
            Err(LinearRegressionError::EmptyData)
        } else {
            Ok(TrainRun { epochs, completed: 0, failed: false })
        }
    }

    /// Whether the loop must run another epoch: epochs remain and nothing
    /// has diverged.
    pub fn in_progress(&self) -> (r: bool)
        ensures
            r == self.running(),
    {
        self.completed < self.epochs && !self.failed
    }

    /// Records the outcome of one epoch: `all_finite` reports whether every
    /// residual of the epoch was finite.
    ///
    /// A finite epoch completes (one more loss value recorded); a
    /// non-finite epoch diverges the run and surfaces `NumericalError` at
    /// once — a run can never absorb a non-finite epoch silently. Either
    /// way the new state is `step` of the old, so identical runs fed
    /// identical reports evolve identically.
    pub fn record_epoch(&mut self, all_finite: bool) -> (r: Result<(), LinearRegressionError>)
        requires
            old(self).wf(),
            old(self).running(),
        ensures
            final(self).wf(),
            *final(self) == old(self).step(all_finite),
            final(self).goal() == old(self).goal(),
            r is Ok <==> all_finite,
            all_finite ==> final(self).recorded() == old(self).recorded() + 1
                && !final(self).diverged(),
            !all_finite ==> final(self).recorded() == old(self).recorded()
                && final(self).diverged(),
            r matches Err(e) ==> divergence_error(e),
    {
        if all_finite {
            self.completed = self.completed + 1;
            Ok(())
        } else {
            self.failed = true;
            Err(LinearRegressionError::NumericalError(
                "Infinite or NaN values encountered during training",
            ))
        }
    }

    /// Number of completed epochs, which is the length of the loss history
    /// the caller has accumulated.
    pub fn completed_epochs(&self) -> (r: usize)
        ensures
            r == self.recorded(),
    {
        self.completed
    }

    /// Number of epochs this run was asked to perform.
    pub fn epochs_requested(&self) -> (r: usize)
        ensures
            r == self.goal(),
    {
        self.epochs
    }
}

/// A run that has stopped without diverging has completed exactly the
/// requested number of epochs, so the loss history holds exactly one entry
/// per requested epoch.
pub proof fn lemma_finished_run_is_complete(run: TrainRun)
    requires
        run.wf(),
        !run.running(),
        !run.diverged(),
    ensures
        run.recorded() == run.goal(),
{
}

/// True when some residual of an epoch was reported non-finite.
pub open spec fn some_non_finite(flags: Seq<bool>) -> bool {
    exists|i: int| 0 <= i < flags.len() && !flags[i]
}

/// Decides, from the per-residual finiteness reports of one epoch, whether
/// every residual stayed finite — the one fact `record_epoch` acts on. An
/// epoch with no residuals counts as finite.
pub fn epoch_all_finite(flags: &Vec<bool>) -> (r: bool)
    ensures
        r == !some_non_finite(flags@),
{
    let mut i: usize = 0;
    while i < flags.len()
        invariant
            0 <= i <= flags@.len(),
            forall|j: int| 0 <= j < i ==> flags@[j],
        decreases flags@.len() - i,
    {
        if !flags[i] {
            return false;
        }
        i = i + 1;
    }
    true
}

/// The state of a run after a sequence of epoch reports, applied in order.
/// `replay` is a function of the starting state and the reports alone, and
/// `record_epoch` advances a run by exactly one `step`: two runs that start
/// equal and receive equal reports therefore end equal — the schedule holds
/// no hidden randomness.
pub open spec fn replay(start: TrainRun, reports: Seq<bool>) -> TrainRun
    decreases reports.len(),
{
    if reports.len() == 0 {
        start
    } else {
        replay(start, reports.drop_last()).step(reports.last())
    }
}

/// A run fed only finite-epoch reports, no more of them than it has epochs
/// left, completes one epoch per report and never diverges. In particular a
/// fresh run fed `epochs` finite reports ends with `epochs` recorded losses.
pub proof fn lemma_replay_of_finite_epochs(start: TrainRun, reports: Seq<bool>)
    requires
        start.wf(),
        !start.diverged(),
        start.recorded() + reports.len() <= start.goal(),
        forall|i: int| 0 <= i < reports.len() ==> reports[i],
    ensures
        replay(start, reports).recorded() == start.recorded() + reports.len(),
        replay(start, reports).goal() == start.goal(),
        !replay(start, reports).diverged(),
        replay(start, reports).wf(),
    decreases reports.len(),
{
    if reports.len() > 0 {
        lemma_replay_of_finite_epochs(start, reports.drop_last());
    }
}

/// A diverged run stays diverged whatever is reported afterwards: no later
/// epoch can silently absorb a non-finite one.
pub proof fn lemma_divergence_is_permanent(start: TrainRun, reports: Seq<bool>)
    requires
        start.diverged(),
    ensures
        replay(start, reports).diverged(),
    decreases reports.len(),
{
    if reports.len() > 0 {
        lemma_divergence_is_permanent(start, reports.drop_last());
    }
}

} // verus!
