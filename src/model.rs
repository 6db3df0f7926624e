//! Model selection: labels, parameter blocks, and the request that carries
//! them.
//!
//! The parameter types are generic over the scalar `R` that the numeric
//! side of the engine computes with.
use vstd::prelude::*;

use crate::error::SimError;

verus! {

/// The stochastic models the engine simulates.
#[derive(Clone, Copy, Debug, PartialEq, Eq, Structural)]
pub enum ModelKind {
    GBM,
    Bootstrap,
    MeanReversion,
    JumpDiffusion,
    GARCH,
}

/// The label under which a model is requested.
pub open spec fn label_of(k: ModelKind) -> Seq<char> {
    match k {
        ModelKind::GBM => "GBM"@,
        ModelKind::Bootstrap => "Bootstrap"@,
        ModelKind::MeanReversion => "MeanReversion"@,
        ModelKind::JumpDiffusion => "JumpDiffusion"@,
        ModelKind::GARCH => "GARCH"@,
    }
}

/// The model that a label requests, if any.
pub open spec fn kind_of_label(s: Seq<char>) -> Option<ModelKind> {
    if s == label_of(ModelKind::GBM) {
        Some(ModelKind::GBM)
    } else if s == label_of(ModelKind::Bootstrap) {
        Some(ModelKind::Bootstrap)
    } else if s == label_of(ModelKind::MeanReversion) {
        Some(ModelKind::MeanReversion)
    } else if s == label_of(ModelKind::JumpDiffusion) {
        Some(ModelKind::JumpDiffusion)
    } else if s == label_of(ModelKind::GARCH) {
        Some(ModelKind::GARCH)
    } else {
        None
    }
}

impl ModelKind {
    /// The model named by `label`, or `None` for an unknown label.
    pub fn from_label(label: &String) -> (r: Option<ModelKind>)
        ensures
            r == kind_of_label(label@),
    {
        if *label == "GBM".to_owned() {
            Some(ModelKind::GBM)
        } else if *label == "Bootstrap".to_owned() {
            Some(ModelKind::Bootstrap)
        } else if *label == "MeanReversion".to_owned() {
            Some(ModelKind::MeanReversion)
        } else if *label == "JumpDiffusion".to_owned() {
            Some(ModelKind::JumpDiffusion)
        } else if *label == "GARCH".to_owned() {
            Some(ModelKind::GARCH)
        } else {
            None
        }
    }

    /// The label of this model.
    pub fn label(&self) -> (r: String)
        ensures
            r@ == label_of(*self),
    {
        match self {
            ModelKind::GBM => "GBM".to_owned(),
            ModelKind::Bootstrap => "Bootstrap".to_owned(),
            ModelKind::MeanReversion => "MeanReversion".to_owned(),
            ModelKind::JumpDiffusion => "JumpDiffusion".to_owned(),
            ModelKind::GARCH => "GARCH".to_owned(),
        }
    }
}

/// Every label names exactly one model.
pub proof fn lemma_labels_round_trip(k: ModelKind)
    ensures
        kind_of_label(label_of(k)) == Some(k),
{
    reveal_strlit("GBM");
    reveal_strlit("Bootstrap");
    reveal_strlit("MeanReversion");
    reveal_strlit("JumpDiffusion");
    reveal_strlit("GARCH");
    assert("GBM"@.len() == 3);
    assert("Bootstrap"@.len() == 9);
    assert("MeanReversion"@.len() == 13);
    assert("JumpDiffusion"@.len() == 13);
    assert("GARCH"@.len() == 5);
    assert("MeanReversion"@[0] != "JumpDiffusion"@[0]);
}

/// Drift and volatility of geometric Brownian motion.
#[derive(Clone, Copy, Debug)]
pub struct GBMParams<R> {
    pub mu: R,
    pub sigma: R,
}

/// Ornstein-Uhlenbeck reversion speed, long-run level and volatility.
#[derive(Clone, Copy, Debug)]
pub struct MeanReversionParams<R> {
    pub theta: R,
    pub mu_long_term: R,
    pub sigma: R,
}

/// Diffusion drift and volatility, jump intensity, and the mean and
/// deviation of a log-jump.
#[derive(Clone, Copy, Debug)]
pub struct JumpDiffusionParams<R> {
    pub mu: R,
    pub sigma: R,
    pub lambda: R,
    pub mu_j: R,
    pub sigma_j: R,
}

/// GARCH(1,1) constant, ARCH and GARCH coefficients.
#[derive(Clone, Copy, Debug)]
pub struct GARCHParams<R> {
    pub omega: R,
    pub alpha: R,
    pub beta: R,
}

/// A model together with every parameter its path generator needs.
#[derive(Clone, Copy, Debug)]
pub enum ModelParams<R> {
    GBM { mu: R, sigma: R },
    Bootstrap {  },
    MeanReversion { theta: R, mu_long_term: R, sigma: R },
    JumpDiffusion { mu: R, sigma: R, lambda: R, mu_j: R, sigma_j: R },
    GARCH { omega: R, alpha: R, beta: R },
}

impl<R> ModelParams<R> {
    /// Which model these parameters belong to.
    pub open spec fn spec_kind(&self) -> ModelKind {
        match self {
            ModelParams::GBM { .. } => ModelKind::GBM,
            ModelParams::Bootstrap {  } => ModelKind::Bootstrap,
            ModelParams::MeanReversion { .. } => ModelKind::MeanReversion,
            ModelParams::JumpDiffusion { .. } => ModelKind::JumpDiffusion,
            ModelParams::GARCH { .. } => ModelKind::GARCH,
        }
    }

    /// Which model these parameters belong to.
    pub fn kind(&self) -> (r: ModelKind)
        ensures
            r == self.spec_kind(),
    {
        match self {
            ModelParams::GBM { .. } => ModelKind::GBM,
            ModelParams::Bootstrap {  } => ModelKind::Bootstrap,
            ModelParams::MeanReversion { .. } => ModelKind::MeanReversion,
            ModelParams::JumpDiffusion { .. } => ModelKind::JumpDiffusion,
            ModelParams::GARCH { .. } => ModelKind::GARCH,
        }
    }
}

/// A stored simulation request: run sizes, seeding, the model label, and
/// one optional parameter block per parametric model.
#[derive(Clone, Debug)]
pub struct SimConfig<R> {
    pub initial_price: R,
    pub horizon: usize,
    pub num_paths: usize,
    pub seed: u64,
    pub use_antithetic: bool,
    pub dt: R,
    pub model_type: String,
    pub gbm_params: Option<GBMParams<R>>,
    pub mean_reversion_params: Option<MeanReversionParams<R>>,
    pub jump_diffusion_params: Option<JumpDiffusionParams<R>>,
    pub garch_params: Option<GARCHParams<R>>,
}

/// The model specification that a stored request selects: the label picks
/// the model and that model's own parameter block supplies its parameters.
pub open spec fn model_params_of<R>(c: SimConfig<R>) -> Result<ModelParams<R>, SimError> {
    match kind_of_label(c.model_type@) {
        None => Err(SimError::UnknownModel),
        Some(ModelKind::GBM) => match c.gbm_params {
            Some(p) => Ok(ModelParams::GBM { mu: p.mu, sigma: p.sigma }),
            None => Err(SimError::MissingParameters(ModelKind::GBM)),
        },
        Some(ModelKind::Bootstrap) => Ok(ModelParams::Bootstrap {  }),
        Some(ModelKind::MeanReversion) => match c.mean_reversion_params {
            Some(p) => Ok(
                ModelParams::MeanReversion {
                    theta: p.theta,
                    mu_long_term: p.mu_long_term,
                    sigma: p.sigma,
                },
            ),
            None => Err(SimError::MissingParameters(ModelKind::MeanReversion)),
        },
        Some(ModelKind::JumpDiffusion) => match c.jump_diffusion_params {
            Some(p) => Ok(
                ModelParams::JumpDiffusion {
                    mu: p.mu,
                    sigma: p.sigma,
                    lambda: p.lambda,
                    mu_j: p.mu_j,
                    sigma_j: p.sigma_j,
                },
            ),
            None => Err(SimError::MissingParameters(ModelKind::JumpDiffusion)),
        },
        Some(ModelKind::GARCH) => match c.garch_params {
            Some(p) => Ok(ModelParams::GARCH { omega: p.omega, alpha: p.alpha, beta: p.beta }),
            None => Err(SimError::MissingParameters(ModelKind::GARCH)),
        },
    }
}

impl<R: Copy> SimConfig<R> {
    /// The model specification this request selects; an unknown label or a
    /// missing parameter block is an error.
    pub fn to_model_params(&self) -> (r: Result<ModelParams<R>, SimError>)
        ensures
            r == model_params_of(*self),
    {
        match ModelKind::from_label(&self.model_type) {
            None => Err(SimError::UnknownModel),
            Some(ModelKind::GBM) => match &self.gbm_params {
                Some(p) => Ok(ModelParams::GBM { mu: p.mu, sigma: p.sigma }),
                None => Err(SimError::MissingParameters(ModelKind::GBM)),
            },
            Some(ModelKind::Bootstrap) => Ok(ModelParams::Bootstrap {  }),
            Some(ModelKind::MeanReversion) => match &self.mean_reversion_params {
                Some(p) => Ok(
                    ModelParams::MeanReversion {
                        theta: p.theta,
                        mu_long_term: p.mu_long_term,
                        sigma: p.sigma,
                    },
                ),
                None => Err(SimError::MissingParameters(ModelKind::MeanReversion)),
            },
            Some(ModelKind::JumpDiffusion) => match &self.jump_diffusion_params {
                Some(p) => Ok(
                    ModelParams::JumpDiffusion {
                        mu: p.mu,
                        sigma: p.sigma,
                        lambda: p.lambda,
                        mu_j: p.mu_j,
                        sigma_j: p.sigma_j,
                    },
                ),
                None => Err(SimError::MissingParameters(ModelKind::JumpDiffusion)),
            },
            Some(ModelKind::GARCH) => match &self.garch_params {
                Some(p) => Ok(ModelParams::GARCH { omega: p.omega, alpha: p.alpha, beta: p.beta }),
                None => Err(SimError::MissingParameters(ModelKind::GARCH)),
            },
        }
    }

    /// Checks the run sizes: the horizon needs at least one step and at
    /// least one path must be requested, in that order.
    pub fn check_sizes(&self) -> (r: Result<(), SimError>)
        ensures
            self.horizon == 0 ==> r == Err::<(), SimError>(SimError::ZeroHorizon),
            self.horizon > 0 && self.num_paths == 0 ==> r == Err::<(), SimError>(
                SimError::ZeroPaths,
            ),
            self.horizon > 0 && self.num_paths > 0 ==> r is Ok,
    {
        if self.horizon == 0 {
            Err(SimError::ZeroHorizon)
        } else if self.num_paths == 0 {
            Err(SimError::ZeroPaths)
        } else {
            Ok(())
        }
    }
}

} // verus!
