//! Structural core of a Monte Carlo price-path engine.
//!
//! The library holds the decisions that do not depend on floating-point
//! arithmetic: how each simulated path is seeded and paired, how a model
//! label and its parameter blocks become a model specification, how paths
//! are assembled step by step, and how a portfolio's history window is
//! chosen. The numeric recurrences are supplied by the caller as closures
//! over its own scalar type.
pub mod error;
pub mod model;
pub mod path;
pub mod portfolio;
pub mod seeding;
pub mod stream;
