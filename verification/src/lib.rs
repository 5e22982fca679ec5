//! Grid-search model selection for seasonal sales forecasts.
//!
//! The library holds the control of the analysis: how a model is run over a
//! window of observations, how a fitted model is projected and scored, in
//! which order the points of a parameter grid are tried, and which of the
//! trials is kept. The arithmetic of the models and of the metrics is the
//! caller's: it is handed in as functions over a value type of the caller's
//! choice, and every contract says what the library makes of whatever those
//! functions return.
//!
//! - `data`: the sales series and its training and test windows.
//! - `score`, `search`, `grid`: scores, keeping the best of a run of trials,
//!   and trying every point of a grid.
//! - `season`: the seasonal indices of a run, read one season late.
//! - `exponent`: the two smoothing models and the search for their weights.
//! - `naive`, `forecast`: the naive methods, over any value type and in
//!   whole numbers.
//! - `eval`, `chart`: what scoring yields, and the series handed over for
//!   drawing.

pub mod chart;
pub mod data;
pub mod eval;
pub mod exponent;
pub mod forecast;
pub mod grid;
pub mod naive;
pub mod score;
pub mod search;
pub mod season;
