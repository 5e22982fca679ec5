//! Exhaustive search over a grid of up to three axes.
//!
//! The places of a grid are tried row by row: the last axis runs fastest, the
//! first slowest. A trial's position in that order and its place along each
//! axis determine one another.

use vstd::prelude::*;
use vstd::arithmetic::div_mod::lemma_fundamental_div_mod_converse;
use crate::score::Score;
use crate::search::Search;

verus! {

/// The position of the trial at place `row`, `column` of a grid with `width` columns.
pub open spec fn position(width: int, row: int, column: int) -> int {
    row * width + column
}

/// The row of the trial at position `n` of a grid with `width` columns.
#[verifier::opaque]
pub open spec fn row_of(n: int, width: int) -> int {
    n / width
}

/// The column of the trial at position `n` of a grid with `width` columns.
#[verifier::opaque]
pub open spec fn column_of(n: int, width: int) -> int {
    n % width
}

/// A position determines its row and column.
pub proof fn lemma_position_place(width: int, row: int, column: int)
    requires
        0 <= row,
        0 <= column < width,
    ensures
        row_of(position(width, row, column), width) == row,
        column_of(position(width, row, column), width) == column,
        position(width, row, column) >= 0,
{
    reveal(row_of);
    reveal(column_of);
    lemma_fundamental_div_mod_converse(position(width, row, column), width, row, column);
}

/// Every place of a grid has a position below the number of its places.
pub proof fn lemma_position_bound(rows: int, width: int, row: int, column: int)
    requires
        0 <= row < rows,
        0 <= column < width,
    ensures
        position(width, row, column) < rows * width,
{
    assert(row * width + width <= rows * width) by (nonlinear_arith)
        requires
            row + 1 <= rows,
            width > 0,
    ;
}

/// The first place of the first row has position 0, and the place after the
/// last column of a row is the first of the next row.
pub proof fn lemma_position_rows(width: int, row: int)
    ensures
        position(width, 0, 0) == 0,
        position(width, row, width) == position(width, row + 1, 0),
{
    assert(row * width + width == (row + 1) * width) by (nonlinear_arith);
}

/// Every position below the number of places of a grid is that of one
/// place, which lies within the grid.
pub proof fn lemma_place_position(rows: int, width: int, n: int)
    requires
        0 <= n < rows * width,
        0 < width,
    ensures
        0 <= row_of(n, width) < rows,
        0 <= column_of(n, width) < width,
        position(width, row_of(n, width), column_of(n, width)) == n,
{
    reveal(row_of);
    reveal(column_of);
    vstd::arithmetic::div_mod::lemma_fundamental_div_mod(n, width);
    let q = n / width;
    assert(q * width == width * q) by (nonlinear_arith);
    assert(q < rows) by (nonlinear_arith)
        requires
            q * width <= n,
            n < rows * width,
            width > 0,
    ;
}

/// In a grid of one column every position is a row, and the only column is the first.
pub proof fn lemma_single_column(n: int)
    ensures
        row_of(n, 1) == n,
        column_of(n, 1) == 0,
{
    reveal(row_of);
    reveal(column_of);
}

/// `trial` can be applied at every place of a grid with the given number of
/// places along each axis.
pub open spec fn covers<P, F: Fn(usize, usize, usize) -> (Score, P)>(trial: F, na: int, nb: int, ny: int) -> bool {
    forall|i: usize, j: usize, k: usize| i < na && j < nb && k < ny ==> #[trigger] call_requires(trial, (i, j, k))
}

/// The place along the first axis of the trial at position `n`.
pub open spec fn first_place(n: int, nb: int, ny: int) -> int {
    row_of(row_of(n, ny), nb)
}

/// The place along the second axis of the trial at position `n`.
pub open spec fn second_place(n: int, nb: int, ny: int) -> int {
    column_of(row_of(n, ny), nb)
}

/// The place along the third axis of the trial at position `n`.
pub open spec fn third_place(n: int, ny: int) -> int {
    column_of(n, ny)
}

/// Trial `n` is what `trial` may return at the `n`-th place of the grid, the
/// third axis running fastest and the first slowest.
pub open spec fn follows_grid<P, F: Fn(usize, usize, usize) -> (Score, P)>(
    trial: F,
    nb: int,
    ny: int,
    scores: Seq<Score>,
    payloads: Seq<P>,
) -> bool {
    forall|n: int|
        0 <= n < payloads.len() ==> call_ensures(
            trial,
            (first_place(n, nb, ny) as usize, second_place(n, nb, ny) as usize, third_place(n, ny) as usize),
            (scores[n], #[trigger] payloads[n]),
        )
}

/// Every position below the number of places of a grid of three axes is
/// that of one place, which lies within the grid.
pub proof fn lemma_places_in_grid(na: int, nb: int, ny: int, n: int)
    requires
        0 <= n < na * nb * ny,
        0 <= na,
        0 <= nb,
        0 <= ny,
    ensures
        0 <= first_place(n, nb, ny) < na,
        0 <= second_place(n, nb, ny) < nb,
        0 <= third_place(n, ny) < ny,
        n == position(ny, position(nb, first_place(n, nb, ny), second_place(n, nb, ny)), third_place(n, ny)),
{
    assert(nb > 0 && ny > 0) by (nonlinear_arith)
        requires
            0 <= n < na * nb * ny,
            0 <= na,
            0 <= nb,
            0 <= ny,
    ;
    lemma_place_position(na * nb, ny, n);
    lemma_place_position(na, nb, row_of(n, ny));
}

/// Tries every place of a grid once, the third axis running fastest and the
/// first slowest, and keeps the best of the trials.
pub fn search_grid<P, F: Fn(usize, usize, usize) -> (Score, P)>(
    na: usize,
    nb: usize,
    ny: usize,
    initial: P,
    trial: &F,
) -> (search: Search<P>)
    requires
        na * nb * ny <= usize::MAX,
        covers(*trial, na as int, nb as int, ny as int),
    ensures
        search.wf(),
        search@.initial == initial,
        search@.scores.len() == na * nb * ny,
        follows_grid(*trial, nb as int, ny as int, search@.scores, search@.payloads),
{
    let mut search: Search<P> = Search::new(initial);
    proof {
        lemma_position_rows(nb as int, 0);
    }
    let mut i: usize = 0;
    while i < na
        invariant
            i <= na,
            na * nb * ny <= usize::MAX,
            covers(*trial, na as int, nb as int, ny as int),
            search.wf(),
            search@.initial == initial,
            search@.scores.len() == position(ny as int, position(nb as int, i as int, 0), 0),
            follows_grid(*trial, nb as int, ny as int, search@.scores, search@.payloads),
        decreases na - i,
    {
        let mut j: usize = 0;
        while j < nb
            invariant
                i < na,
                j <= nb,
                na * nb * ny <= usize::MAX,
                covers(*trial, na as int, nb as int, ny as int),
                search.wf(),
                search@.initial == initial,
                search@.scores.len() == position(ny as int, position(nb as int, i as int, j as int), 0),
                follows_grid(*trial, nb as int, ny as int, search@.scores, search@.payloads),
            decreases nb - j,
        {
            let mut k: usize = 0;
            while k < ny
                invariant
                    i < na,
                    j < nb,
                    k <= ny,
                    na * nb * ny <= usize::MAX,
                    covers(*trial, na as int, nb as int, ny as int),
                    search.wf(),
                    search@.initial == initial,
                    search@.scores.len() == position(
                        ny as int,
                        position(nb as int, i as int, j as int),
                        k as int,
                    ),
                    follows_grid(*trial, nb as int, ny as int, search@.scores, search@.payloads),
                decreases ny - k,
            {
                proof {
                    let row = position(nb as int, i as int, j as int);
                    lemma_position_place(nb as int, i as int, j as int);
                    lemma_position_bound(na as int, nb as int, i as int, j as int);
                    lemma_position_place(ny as int, row, k as int);
                    lemma_position_bound(na * nb, ny as int, row, k as int);
                }
                let (score, payload) = trial(i, j, k);
                search.record(score, payload);
                k += 1;
            }
            proof {
                lemma_position_rows(ny as int, position(nb as int, i as int, j as int));
            }
            j += 1;
        }
        proof {
            lemma_position_rows(nb as int, i as int);
        }
        i += 1;
    }
    search
}

} // verus!
