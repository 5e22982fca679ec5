//! What scoring a forecast against observations yields.
//!
//! The arithmetic of a metric is the caller's: it is handed in as a function
//! of the forecast and the observations. It is only ever applied to two
//! sequences of one length.

use vstd::prelude::*;
use crate::score::Score;

verus! {

/// The accuracy of one forecast: its mean error and its root-mean-square
/// error. Searches order fits by the latter, so it is held as a `Score`.
#[derive(Debug)]
pub struct ForecastEval<T> {
    pub mae: T,
    pub rmse: Score,
}

impl<T: Copy> Clone for ForecastEval<T> {
    fn clone(&self) -> (r: Self)
        ensures
            r == *self,
    {
        ForecastEval { mae: self.mae, rmse: self.rmse }
    }
}

impl<T: Copy> Copy for ForecastEval<T> {}

/// Why a forecast could not be scored.
#[derive(Clone, Copy, Debug, PartialEq, Eq, Structural)]
pub enum ForecastError {
    /// The forecast and the observations it is held against differ in length.
    LengthMismatch,
}

/// `evaluate` can be applied to any forecast and observations of one length.
pub open spec fn scores_equal_lengths<T, E: Fn(&[T], &[T]) -> ForecastEval<T>>(evaluate: E) -> bool {
    forall|predicted: &[T], test: &[T]|
        predicted@.len() == test@.len() ==> #[trigger] call_requires(evaluate, (predicted, test))
}

/// `eval` is what `evaluate` may return for the forecast `predicted` held against `test`.
pub open spec fn is_evaluation<T, E: Fn(&[T], &[T]) -> ForecastEval<T>>(
    evaluate: E,
    predicted: Seq<T>,
    test: Seq<T>,
    eval: ForecastEval<T>,
) -> bool {
    exists|p: &[T], t: &[T]| p@ == predicted && t@ == test && #[trigger] call_ensures(evaluate, (p, t), eval)
}

/// Scores `predicted` against `test`, and refuses to where the two differ in length.
pub fn score_forecast<T, E: Fn(&[T], &[T]) -> ForecastEval<T>>(
    predicted: &[T],
    test: &[T],
    evaluate: &E,
) -> (r: Result<ForecastEval<T>, ForecastError>)
    requires
        scores_equal_lengths(*evaluate),
    ensures
        r is Err <==> predicted@.len() != test@.len(),
        r is Ok ==> is_evaluation(*evaluate, predicted@, test@, r->Ok_0),
{
    if predicted.len() != test.len() {
        return Err(ForecastError::LengthMismatch);
    }
    let eval = evaluate(predicted, test);
    Ok(eval)
}

} // verus!
