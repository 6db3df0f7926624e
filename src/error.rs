//! Errors that the engine reports.
use vstd::prelude::*;

use crate::model::ModelKind;

verus! {

/// Why a simulation request cannot be run.
#[derive(Clone, Copy, Debug, PartialEq, Eq, Structural)]
pub enum SimError {
    /// The model label names none of the supported models.
    UnknownModel,
    /// The selected model has no parameter block.
    MissingParameters(ModelKind),
    /// The horizon has no steps.
    ZeroHorizon,
    /// No paths were requested.
    ZeroPaths,
    /// Resampling was asked of an empty return history.
    EmptyHistory,
    /// Statistics were asked of an ensemble without paths.
    EmptyEnsemble,
}

} // verus!
