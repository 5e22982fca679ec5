//! Series handed over for drawing, and how they are put together.

use vstd::prelude::*;

verus! {

/// A request to draw one series.
pub struct Chart<T> {
    /// The values to draw, oldest first.
    pub series: Vec<T>,
    /// Whether each season gets a colour of its own.
    pub mix_color: bool,
    /// The directory, below the common one, that the drawing belongs in.
    pub dir: Option<&'static str>,
    /// The base name of the drawing.
    pub name: &'static str,
}

/// `chart` asks for `series` to be drawn under `name`, in `dir`.
pub open spec fn is_chart<T>(
    chart: Chart<T>,
    series: Seq<T>,
    mix_color: bool,
    dir: Option<&'static str>,
    name: &'static str,
) -> bool {
    &&& chart.series@ == series
    &&& chart.mix_color == mix_color
    &&& chart.dir == dir
    &&& chart.name@ == name@
}

/// `tail` over and over, `times` times.
pub open spec fn repeat<T>(tail: Seq<T>, times: nat) -> Seq<T>
    decreases times,
{
    if times == 0 {
        Seq::empty()
    } else {
        repeat(tail, (times - 1) as nat) + tail
    }
}

/// `head` followed by `tail`.
pub fn joined<T: Copy>(head: &[T], tail: &[T]) -> (r: Vec<T>)
    ensures
        r@ == head@ + tail@,
{
    let mut r: Vec<T> = Vec::new();
    let mut i: usize = 0;
    while i < head.len()
        invariant
            i <= head@.len(),
            r@ == head@.subrange(0, i as int),
        decreases head@.len() - i,
    {
        r.push(head[i]);
        i += 1;
    }
    let mut j: usize = 0;
    while j < tail.len()
        invariant
            j <= tail@.len(),
            r@ == head@ + tail@.subrange(0, j as int),
        decreases tail@.len() - j,
    {
        r.push(tail[j]);
        j += 1;
    }
    r
}

/// `head` followed by `count` copies of `value`.
pub fn padded<T: Copy>(head: &[T], value: T, count: usize) -> (r: Vec<T>)
    ensures
        r@ == head@ + Seq::new(count as nat, |i: int| value),
{
    let mut r: Vec<T> = joined(head, &[]);
    let mut j: usize = 0;
    while j < count
        invariant
            j <= count,
            r@ == head@ + Seq::new(j as nat, |i: int| value),
        decreases count - j,
    {
        r.push(value);
        j += 1;
    }
    r
}

/// `head` followed by `tail` over and over, `times` times.
pub fn extended<T: Copy>(head: &[T], tail: &[T], times: usize) -> (r: Vec<T>)
    ensures
        r@ == head@ + repeat(tail@, times as nat),
{
    let mut r: Vec<T> = joined(head, &[]);
    let mut round: usize = 0;
    while round < times
        invariant
            round <= times,
            r@ == head@ + repeat(tail@, round as nat),
        decreases times - round,
    {
        r = joined(r.as_slice(), tail);
        round += 1;
    }
    r
}

} // verus!
