//! Exponential smoothing, fitted by exhaustive search over a parameter grid.

use vstd::prelude::*;
use crate::data::SERIES_LEN;
use crate::eval::{scores_equal_lengths, ForecastEval};

pub mod m_n;
pub mod md_m;

verus! {

/// What fitting both models yields.
pub struct Analysis<T> {
    /// The search for the weights of the model without a season.
    pub m_n: m_n::Report<T>,
    /// The search for the weights of the model with a season.
    pub md_m: md_m::Report<T>,
    /// The weights tried along each axis for the model with a season.
    pub weights: Vec<T>,
}

/// Fits both models to `values`, each by a search of its own grid.
///
/// The model without a season is tried on the grid that `alphas` and `betas`
/// span. The model with a season is tried with each of its three weights
/// running over `scale` applied to the counters from 1 to 99.
pub fn analyze<
    T: Copy,
    K: Fn(T, T, T, T, T, u32) -> m_n::ForecastResult<T>,
    L: Fn(T, T, T, T, T, T, T, u32) -> md_m::ForecastResult<T>,
    S: Fn(u32) -> T,
    E: Fn(&[T], &[T]) -> ForecastEval<T>,
>(
    values: &[T],
    zero: T,
    unit: T,
    alphas: &[T],
    betas: &[T],
    scale: &S,
    m_n_step: &K,
    md_m_step: &L,
    evaluate: &E,
) -> (r: Analysis<T>)
    requires
        values@.len() == SERIES_LEN,
        alphas@.len() >= 1,
        betas@.len() >= 1,
        alphas@.len() * betas@.len() <= usize::MAX,
        md_m::scales_counters(*scale),
        m_n::total(*m_n_step),
        md_m::total(*md_m_step),
        scores_equal_lengths(*evaluate),
    ensures
        m_n::is_report(*m_n_step, *evaluate, values@, zero, unit, alphas@, betas@, r.m_n),
        md_m::is_axis(*scale, r.weights@),
        md_m::is_report(*md_m_step, *evaluate, values@, zero, unit, r.weights@, r.weights@, r.weights@, r.md_m),
{
    let m_n = m_n::analyze(values, zero, unit, alphas, betas, m_n_step, evaluate);
    let (weights, md_m) = md_m::analyze(values, zero, unit, scale, md_m_step, evaluate);
    Analysis { m_n, md_m, weights }
}

} // verus!
