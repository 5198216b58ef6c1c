//! The program loader: raw source bytes become a grid of characters.

use vstd::prelude::*;

verus! {

/// The rows obtained by splitting a byte sequence on the newline byte.
/// Every split segment is one row, the newline itself belongs to no row,
/// and the segment after the last newline is a row even when it is empty:
/// a trailing newline yields an empty final row.  Each byte is read as one
/// character; there is no multi-byte decoding.
pub open spec fn split_lines(s: Seq<u8>) -> Seq<Seq<char>>
    decreases s.len(),
{
    if s.len() == 0 {
        seq![Seq::<char>::empty()]
    } else if s.last() == 10u8 {
        split_lines(s.drop_last()).push(Seq::<char>::empty())
    } else {
        let rest = split_lines(s.drop_last());
        rest.update(rest.len() - 1, rest.last().push(s.last() as char))
    }
}

/// Splitting never yields fewer than one row, and at most one row more
/// than there are bytes.
pub proof fn lemma_split_lines_len(s: Seq<u8>)
    ensures
        1 <= split_lines(s).len() <= s.len() + 1,
    decreases s.len(),
{
    if s.len() > 0 {
        lemma_split_lines_len(s.drop_last());
    }
}

/// A well-formed grid: each row records its own character count, and the
/// row and column counts fit the signed 32-bit position registers.
pub open spec fn grid_wf(g: Seq<(Vec<char>, i32)>) -> bool {
    g.len() <= i32::MAX && forall|i: int|
        0 <= i < g.len() ==> #[trigger] g[i].1 == g[i].0@.len()
}

/// Whether `(y, x)` lies on the grid: the row index is within the row
/// count and the column index is within that specific row's length.  Rows
/// may be jagged, so the bound is always the length of row `y` itself.
pub open spec fn in_bounds(g: Seq<(Vec<char>, i32)>, y: int, x: int) -> bool {
    0 <= y < g.len() && 0 <= x < g[y].0@.len()
}

/// The character at row `y`, column `x` of the grid.
pub open spec fn cell_at(g: Seq<(Vec<char>, i32)>, y: int, x: int) -> char
    recommends
        in_bounds(g, y, x),
{
    g[y].0@[x]
}

/// Convert raw source bytes into the grid of rows: each element holds one
/// row's characters together with its length for easy access.  The split
/// follows `split_lines`, so a trailing newline produces an empty final
/// row and a missing final newline still keeps the last row.
pub fn lines(v: Vec<u8>) -> (r: Vec<(Vec<char>, i32)>)
    requires
        v@.len() < i32::MAX,
    ensures
        grid_wf(r@),
        r@.len() == split_lines(v@).len(),
        forall|i: int| 0 <= i < r@.len() ==> #[trigger] r@[i].0@ == split_lines(v@)[i],
{
    let mut ret: Vec<(Vec<char>, i32)> = Vec::new();
    let mut new_line: Vec<char> = Vec::new();
    let mut i: usize = 0;
    while i < v.len()
        invariant
            i <= v@.len(),
            v@.len() < i32::MAX,
            ret@.len() + 1 == split_lines(v@.take(i as int)).len(),
            forall|j: int|
                0 <= j < ret@.len() ==> #[trigger] ret@[j].0@ == split_lines(v@.take(i as int))[j],
            forall|j: int| 0 <= j < ret@.len() ==> #[trigger] ret@[j].1 == ret@[j].0@.len(),
            new_line@ == split_lines(v@.take(i as int)).last(),
            new_line@.len() <= i,
        decreases v@.len() - i,
    {
        proof {
            assert(v@.take(i as int + 1).drop_last() =~= v@.take(i as int));
            assert(v@.take(i as int + 1).last() == v@[i as int]);
            lemma_split_lines_len(v@.take(i as int));
        }
        let ch = v[i];
        if ch == 10 {
            let length = new_line.len();
            ret.push((new_line, length as i32));
            new_line = Vec::new();
        } else {
            new_line.push(ch as char);
        }
        i = i + 1;
    }
    proof {
        assert(v@.take(i as int) =~= v@);
        lemma_split_lines_len(v@);
    }
    let length = new_line.len();
    ret.push((new_line, length as i32));
    ret
}

} // verus!
