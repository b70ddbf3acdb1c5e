//! Truncation of the agent feed: of the lines read from the feed file, only
//! the most recent `limit` are handed to the UI.

use vstd::prelude::*;

verus! {

/// The last `limit` lines of `lines` (all of them when there are no more
/// than `limit`), oldest first, order preserved.
pub fn tail_lines(lines: &Vec<String>, limit: usize) -> (r: Vec<String>)
    ensures
        lines@.len() <= limit ==> r@.len() == lines@.len(),
        lines@.len() > limit ==> r@.len() == limit,
        forall|i: int|
            0 <= i < r@.len() ==> #[trigger] r@[i]@ == lines@[lines@.len() - r@.len() + i]@,
{
    let n = lines.len();
    let start: usize = if n > limit {
        n - limit
    } else {
        0
    };
    let mut r: Vec<String> = Vec::new();
    let mut j: usize = start;
    while j < n
        invariant
            start <= j <= n,
            n == lines@.len(),
            r@.len() == j - start,
            forall|i: int|
                0 <= i < r@.len() ==> #[trigger] r@[i]@ == lines@[start + i]@,
        decreases n - j,
    {
        r.push(lines[j].clone());
        j = j + 1;
    }
    r
}

} // verus!
