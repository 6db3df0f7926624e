use price_sim::error::SimError;
use price_sim::model::{
    GARCHParams, GBMParams, JumpDiffusionParams, MeanReversionParams, ModelKind, ModelParams,
    SimConfig,
};
use price_sim::path::{scan_path, terminal_values};
use price_sim::portfolio::{history_window, symmetric_matrix, tail, PortfolioError, MIN_RECORDS};
use price_sim::seeding::{is_mirrored, path_seed};
use price_sim::stream::{gather, path_stream, resample};
use rand::rngs::StdRng;
use rand::SeedableRng;
use rand_distr::{Distribution, Normal};
use statrs::statistics::{Data, Distribution as StatDist, Median, OrderStatistics};

fn gbm_config(label: &str) -> SimConfig<f64> {
    SimConfig {
        initial_price: 100.0,
        horizon: 30,
        num_paths: 1000,
        seed: 12345,
        use_antithetic: false,
        dt: 1.0,
        model_type: label.to_string(),
        gbm_params: Some(GBMParams { mu: 0.0002, sigma: 0.015 }),
        mean_reversion_params: None,
        jump_diffusion_params: None,
        garch_params: None,
    }
}

/// One GBM path built from the library's seeding and path assembly.
fn gbm_path(init: f64, mu: f64, sigma: f64, steps: usize, dt: f64, base: u64, index: usize, antithetic: bool) -> Vec<f64> {
    let mut rng = path_stream(base, index, antithetic);
    let mirrored = is_mirrored(index, antithetic);
    let normal = Normal::new(0.0, 1.0).unwrap();
    let shocks: Vec<f64> = (0..steps)
        .map(|_| {
            let z: f64 = normal.sample(&mut rng);
            if mirrored { -z } else { z }
        })
        .collect();
    let drift = (mu - 0.5 * sigma * sigma) * dt;
    let diffusion = sigma * dt.sqrt();
    scan_path(init, &shocks, |p: f64, z: f64| p * (drift + diffusion * z).exp())
}

fn gbm_ensemble(cfg: &SimConfig<f64>, mu: f64, sigma: f64) -> Vec<Vec<f64>> {
    (0..cfg.num_paths)
        .map(|i| {
            gbm_path(
                cfg.initial_price,
                mu,
                sigma,
                cfg.horizon,
                cfg.dt,
                cfg.seed,
                i,
                cfg.use_antithetic,
            )
        })
        .collect()
}

fn summary(terminals: &[f64], reference: f64) -> Vec<f64> {
    let data = Data::new(terminals.to_vec());
    let mean = data.mean().unwrap();
    let std_dev = data.std_dev().unwrap();
    let median = data.median();
    let mut ordered = Data::new(terminals.to_vec());
    let returns: Vec<f64> = terminals.iter().map(|&p| (p - reference) / reference).collect();
    let mut returns_data = Data::new(returns);
    vec![
        mean,
        std_dev,
        median,
        ordered.percentile(5),
        ordered.percentile(25),
        ordered.percentile(75),
        ordered.percentile(95),
        -returns_data.percentile(5),
    ]
}

#[test]
fn seeds_follow_index() {
    assert_eq!(path_seed(12345, 0, false), 12345);
    assert_eq!(path_seed(12345, 7, false), 12352);
    assert_eq!(path_seed(12345, 7, true), 12348);
    assert_eq!(path_seed(u64::MAX, 2, false), 1);
}

#[test]
fn antithetic_pairs_share_seed() {
    for k in 0..50usize {
        assert_eq!(path_seed(99, 2 * k, true), path_seed(99, 2 * k + 1, true));
        assert!(!is_mirrored(2 * k, true));
        assert!(is_mirrored(2 * k + 1, true));
        assert!(!is_mirrored(2 * k + 1, false));
    }
}

#[test]
fn pair_members_share_a_stream() {
    let normal = Normal::new(0.0, 1.0).unwrap();
    let mut a = path_stream(40, 6, true);
    let mut b = path_stream(40, 7, true);
    let mut c = path_stream(40, 7, false);
    let da: Vec<f64> = (0..5).map(|_| normal.sample(&mut a)).collect();
    let db: Vec<f64> = (0..5).map(|_| normal.sample(&mut b)).collect();
    let dc: Vec<f64> = (0..5).map(|_| normal.sample(&mut c)).collect();
    assert_eq!(da, db);
    assert_ne!(da, dc);
    let mut d = StdRng::seed_from_u64(47);
    let dd: Vec<f64> = (0..5).map(|_| normal.sample(&mut d)).collect();
    assert_eq!(dc, dd);
}

#[test]
fn path_has_horizon_plus_one_points() {
    let path = gbm_path(100.0, 0.0002, 0.015, 30, 1.0, 7, 0, false);
    assert_eq!(path.len(), 31);
    assert_eq!(path[0], 100.0);
}

#[test]
fn scan_path_applies_step_in_order() {
    let path = scan_path(1u64, &vec![2u64, 3, 4], |p: u64, s: u64| p * s);
    assert_eq!(path, vec![1, 2, 6, 24]);
    let empty: Vec<u64> = Vec::new();
    assert_eq!(scan_path(5u64, &empty, |p: u64, s: u64| p + s), vec![5]);
}

#[test]
fn antithetic_pairs_identical_without_volatility() {
    let mut cfg = gbm_config("GBM");
    cfg.use_antithetic = true;
    cfg.num_paths = 10;
    let paths = gbm_ensemble(&cfg, 0.0002, 0.0);
    for k in 0..5 {
        assert_eq!(paths[2 * k], paths[2 * k + 1]);
    }
}

#[test]
fn repeated_runs_are_identical() {
    let cfg = gbm_config("GBM");
    let (mu, sigma) = match cfg.to_model_params() {
        Ok(ModelParams::GBM { mu, sigma }) => (mu, sigma),
        _ => panic!("expected GBM parameters"),
    };
    let first = gbm_ensemble(&cfg, mu, sigma);
    let second = gbm_ensemble(&cfg, mu, sigma);
    let t1 = terminal_values(&first).unwrap();
    let t2 = terminal_values(&second).unwrap();
    assert_eq!(t1.len(), 1000);
    let s1 = summary(&t1, cfg.initial_price);
    let s2 = summary(&t2, cfg.initial_price);
    assert_eq!(s1, s2);
    for p in &first {
        assert_eq!(p.len(), 31);
        assert_eq!(p[0], 100.0);
    }
}

#[test]
fn var95_is_negated_fifth_percentile_of_returns() {
    let cfg = gbm_config("GBM");
    let paths = gbm_ensemble(&cfg, 0.0002, 0.015);
    let t = terminal_values(&paths).unwrap();
    let s = summary(&t, 100.0);
    let expected = -(s[3] - 100.0) / 100.0;
    assert!((s[7] - expected).abs() < 1e-12);
}

#[test]
fn terminal_values_take_last_points() {
    let paths = vec![vec![1, 2, 3], vec![4], vec![5, 6]];
    assert_eq!(terminal_values(&paths), Ok(vec![3, 4, 6]));
}

#[test]
fn empty_ensemble_is_rejected() {
    let paths: Vec<Vec<f64>> = Vec::new();
    assert_eq!(terminal_values(&paths), Err(SimError::EmptyEnsemble));
}

#[test]
fn resampling_draws_from_history() {
    let history = vec![10u32, 20, 30];
    let mut rng = StdRng::seed_from_u64(5);
    let draws = resample(&mut rng, &history, 200).unwrap();
    assert_eq!(draws.len(), 200);
    assert!(draws.iter().all(|d| history.contains(d)));
    assert!(draws.iter().any(|&d| d != 10));
    assert!(draws.iter().any(|&d| d != draws[0]));
}

#[test]
fn resampling_is_reproducible() {
    let history: Vec<i64> = (0..50).collect();
    let a = resample(&mut StdRng::seed_from_u64(77), &history, 40).unwrap();
    let b = resample(&mut StdRng::seed_from_u64(77), &history, 40).unwrap();
    assert_eq!(a, b);
}

#[test]
fn resampling_empty_history_is_rejected() {
    let history: Vec<f64> = Vec::new();
    let mut rng = StdRng::seed_from_u64(1);
    assert_eq!(resample(&mut rng, &history, 10), Err(SimError::EmptyHistory));
}

#[test]
fn labels_round_trip() {
    for k in [
        ModelKind::GBM,
        ModelKind::Bootstrap,
        ModelKind::MeanReversion,
        ModelKind::JumpDiffusion,
        ModelKind::GARCH,
    ] {
        assert_eq!(ModelKind::from_label(&k.label()), Some(k));
    }
    assert_eq!(ModelKind::GARCH.label(), "GARCH");
    assert_eq!(ModelKind::from_label(&"gbm".to_string()), None);
    assert_eq!(ModelKind::from_label(&String::new()), None);
}

#[test]
fn config_selects_gbm() {
    let cfg = gbm_config("GBM");
    match cfg.to_model_params() {
        Ok(ModelParams::GBM { mu, sigma }) => {
            assert_eq!(mu, 0.0002);
            assert_eq!(sigma, 0.015);
        }
        other => panic!("unexpected {:?}", other),
    }
}

#[test]
fn config_selects_each_model() {
    let mut cfg = gbm_config("Bootstrap");
    cfg.gbm_params = None;
    assert!(matches!(cfg.to_model_params(), Ok(ModelParams::Bootstrap {})));

    cfg.model_type = "MeanReversion".to_string();
    cfg.mean_reversion_params = Some(MeanReversionParams { theta: 0.1, mu_long_term: 100.0, sigma: 0.2 });
    match cfg.to_model_params() {
        Ok(ModelParams::MeanReversion { theta, mu_long_term, sigma }) => {
            assert_eq!((theta, mu_long_term, sigma), (0.1, 100.0, 0.2));
        }
        other => panic!("unexpected {:?}", other),
    }

    cfg.model_type = "JumpDiffusion".to_string();
    cfg.jump_diffusion_params = Some(JumpDiffusionParams { mu: 0.01, sigma: 0.2, lambda: 2.0, mu_j: -0.02, sigma_j: 0.05 });
    match cfg.to_model_params() {
        Ok(ModelParams::JumpDiffusion { mu, sigma, lambda, mu_j, sigma_j }) => {
            assert_eq!((mu, sigma, lambda, mu_j, sigma_j), (0.01, 0.2, 2.0, -0.02, 0.05));
        }
        other => panic!("unexpected {:?}", other),
    }

    cfg.model_type = "GARCH".to_string();
    cfg.garch_params = Some(GARCHParams { omega: 0.00001, alpha: 0.1, beta: 0.85 });
    match cfg.to_model_params() {
        Ok(p @ ModelParams::GARCH { omega, alpha, beta }) => {
            assert_eq!((omega, alpha, beta), (0.00001, 0.1, 0.85));
            assert_eq!(p.kind(), ModelKind::GARCH);
        }
        other => panic!("unexpected {:?}", other),
    }
}

#[test]
fn config_missing_parameters_is_rejected() {
    let mut cfg = gbm_config("GBM");
    cfg.gbm_params = None;
    assert!(matches!(cfg.to_model_params(), Err(SimError::MissingParameters(ModelKind::GBM))));
    for (label, kind) in [
        ("MeanReversion", ModelKind::MeanReversion),
        ("JumpDiffusion", ModelKind::JumpDiffusion),
        ("GARCH", ModelKind::GARCH),
    ] {
        let mut cfg = gbm_config(label);
        cfg.gbm_params = Some(GBMParams { mu: 0.0, sigma: 0.1 });
        assert!(matches!(cfg.to_model_params(), Err(SimError::MissingParameters(k)) if k == kind));
    }
}

#[test]
fn config_unknown_model_is_rejected() {
    let cfg = gbm_config("Heston");
    assert!(matches!(cfg.to_model_params(), Err(SimError::UnknownModel)));
}

#[test]
fn config_sizes_are_checked() {
    let mut cfg = gbm_config("GBM");
    assert_eq!(cfg.check_sizes(), Ok(()));
    cfg.num_paths = 0;
    assert_eq!(cfg.check_sizes(), Err(SimError::ZeroPaths));
    cfg.horizon = 0;
    assert_eq!(cfg.check_sizes(), Err(SimError::ZeroHorizon));
}

#[test]
fn window_is_shortest_return_series() {
    assert_eq!(history_window(&vec![Some(40), Some(35), Some(60)]), Ok(34));
    assert_eq!(history_window(&vec![Some(MIN_RECORDS)]), Ok(29));
}

#[test]
fn short_history_is_rejected() {
    assert_eq!(
        history_window(&vec![Some(40), Some(29), Some(60)]),
        Err(PortfolioError::InsufficientData(1))
    );
    assert_eq!(history_window(&vec![Some(0)]), Err(PortfolioError::InsufficientData(0)));
}

#[test]
fn missing_ticker_is_rejected() {
    assert_eq!(history_window(&vec![Some(40), None, Some(10)]), Err(PortfolioError::MissingTicker(1)));
}

#[test]
fn empty_selection_is_rejected() {
    assert_eq!(history_window(&Vec::new()), Err(PortfolioError::NoTickers));
}

#[test]
fn tail_keeps_most_recent_entries() {
    let v = vec![1, 2, 3, 4, 5];
    assert_eq!(tail(&v, 2), vec![4, 5]);
    assert_eq!(tail(&v, 5), v);
    assert_eq!(tail(&v, 0), Vec::<i32>::new());
}

#[test]
fn correlation_layout_is_symmetric() {
    let m = symmetric_matrix(3, 1.0f64, |i: usize, j: usize| (10 * i + j) as f64);
    assert_eq!(m, vec![vec![1.0, 1.0, 2.0], vec![1.0, 1.0, 12.0], vec![2.0, 12.0, 1.0]]);
}

#[test]
fn single_asset_correlation_is_identity() {
    let m = symmetric_matrix(1, 1.0f64, |_: usize, _: usize| 0.5);
    assert_eq!(m, vec![vec![1.0]]);
    let corr = nalgebra::DMatrix::from_row_slice(1, 1, &[m[0][0]]);
    let l = corr.cholesky().unwrap().l();
    assert_eq!(l, nalgebra::DMatrix::<f64>::identity(1, 1));
}

#[test]
fn single_asset_portfolio_reduces_to_gbm() {
    let (mu, sigma, shares) = (0.0005, 0.02, 2.0);
    let single = gbm_path(50.0, mu, sigma, 20, 1.0, 3, 0, false);
    let mut rng = StdRng::seed_from_u64(3);
    let normal = Normal::new(0.0, 1.0).unwrap();
    let chol = nalgebra::DMatrix::<f64>::identity(1, 1);
    let shocks: Vec<f64> = (0..20)
        .map(|_| {
            let z = nalgebra::DVector::from_vec(vec![normal.sample(&mut rng)]);
            (&chol * z)[0]
        })
        .collect();
    let drift = mu - 0.5 * sigma * sigma;
    let portfolio = scan_path(50.0, &shocks, |p: f64, z: f64| p * (drift + sigma * z).exp());
    let values: Vec<f64> = portfolio.iter().map(|p| p * shares).collect();
    let expected: Vec<f64> = single.iter().map(|p| p * shares).collect();
    assert_eq!(values, expected);
}

#[test]
fn gather_picks_entries_at_indices() {
    let history = vec![1.5f64, -2.0, 3.25];
    assert_eq!(gather(&history, &vec![2, 0, 2, 1]), vec![3.25, 1.5, 3.25, -2.0]);
    assert_eq!(gather(&history, &Vec::new()), Vec::<f64>::new());
}
