//! The sales series and how it is split into a training and a test window.

use vstd::prelude::*;
use vstd::slice::slice_subrange;

verus! {

/// Number of observations in one seasonal cycle.
pub const SEASON: usize = 12;

/// Number of leading observations a model is fitted on: four seasons.
pub const TRAIN_LEN: usize = 48;

/// Number of observations in the series: the training window and one more season.
pub const SERIES_LEN: usize = 60;

/// Total monthly sales, oldest first, five seasons long.
pub const VALUES: [u32; 60] = [
    953, 1018, 1295, 1448, 1584, 1792, 1837, 1608, 1491, 1357, 1381, 1078,
    1138, 1095, 1375, 1630, 1837, 1865, 2085, 1919, 1674, 1609, 1721, 1250,
    1180, 1232, 1544, 1787, 1959, 2053, 2250, 1932, 1775, 1743, 1688, 1246,
    1341, 1301, 1677, 1894, 2065, 2098, 2466, 2125, 1936, 1803, 1837, 1390,
    1356, 1347, 1765, 1986, 2096, 2191, 2555, 2253, 2071, 1885, 2024, 1470,
];

/// The series as a vector.
pub fn values() -> (r: Vec<u32>)
    ensures
        r@ == VALUES@,
{
    let mut r: Vec<u32> = Vec::new();
    let mut i: usize = 0;
    while i < SERIES_LEN
        invariant
            i <= SERIES_LEN,
            r@ == VALUES@.subrange(0, i as int),
        decreases SERIES_LEN - i,
    {
        r.push(VALUES[i]);
        i += 1;
    }
    r
}

/// The observations a model is fitted on: the first four seasons.
pub fn train_window<T>(data: &[T]) -> (r: &[T])
    requires
        data@.len() >= TRAIN_LEN,
    ensures
        r@ == data@.subrange(0, TRAIN_LEN as int),
{
    slice_subrange(data, 0, TRAIN_LEN)
}

/// The observations a fitted model is scored against: the fifth season.
pub fn test_window<T>(data: &[T]) -> (r: &[T])
    requires
        data@.len() >= SERIES_LEN,
    ensures
        r@ == data@.subrange(TRAIN_LEN as int, SERIES_LEN as int),
{
    slice_subrange(data, TRAIN_LEN, SERIES_LEN)
}

/// The two windows do not overlap, follow one another, and together make up a
/// series of full length.
pub proof fn lemma_windows_cover_series<T>(data: Seq<T>)
    requires
        data.len() == SERIES_LEN,
    ensures
        data.subrange(0, TRAIN_LEN as int) + data.subrange(TRAIN_LEN as int, SERIES_LEN as int) == data,
        data.subrange(0, TRAIN_LEN as int).len() == 4 * SEASON,
        data.subrange(TRAIN_LEN as int, SERIES_LEN as int).len() == SEASON,
{
}

} // verus!
