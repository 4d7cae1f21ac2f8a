//! Square sample grids: their side, and the rows and columns cut out of them.
use vstd::prelude::*;
use vstd::arithmetic::div_mod::lemma_fundamental_div_mod_converse;

verus! {

/// `r` is the side of the smallest square grid that holds `count` samples.
pub open spec fn is_grid_side(count: nat, r: nat) -> bool {
    &&& r * r >= count
    &&& (r == 0 || (r - 1) * (r - 1) < count)
}

/// The side of the square grid that holds `count` samples row by row: the
/// ceiling of the square root of `count`.
pub fn grid_side(count: usize) -> (r: usize)
    ensures
        is_grid_side(count as nat, r as nat),
{
    let mut r: usize = 0;
    loop
        invariant
            r <= count,
            r == 0 || (r - 1) * (r - 1) < count,
        decreases count - r,
    {
        assert((r as int) * (r as int) <= (usize::MAX as int) * (usize::MAX as int)) by (nonlinear_arith)
            requires
                r <= usize::MAX,
        ;
        if (r as u128) * (r as u128) >= count as u128 {
            return r;
        }
        assert(r + 1 <= count) by (nonlinear_arith)
            requires
                r * r < count,
        ;
        r += 1;
    }
}

/// Row `s` of a grid of side `len` stored row by row: the samples from
/// `s·len` up to `(s+1)·len`, cut short where the data ends.
pub open spec fn grid_row<T>(data: Seq<T>, len: nat, s: nat) -> Seq<T> {
    let lo = if s * len <= data.len() { s * len } else { data.len() };
    let hi = if (s + 1) * len <= data.len() { (s + 1) * len } else { data.len() };
    data.subrange(lo as int, hi as int)
}

/// Column `s` of a grid of side `len` stored row by row: the samples at
/// `s`, `s + len`, `s + 2·len`, … for as long as the data lasts.
pub open spec fn is_grid_column<T>(data: Seq<T>, len: nat, s: nat, col: Seq<T>) -> bool {
    &&& forall|k: int| 0 <= k < col.len() ==> #[trigger] col[k] == data[s + k * len]
    &&& s + col.len() * len >= data.len()
    &&& (col.len() == 0 || s + (col.len() - 1) * len < data.len())
}

/// Row `s` of a grid of side `len`, stored row by row in `data`.
pub fn slice_row<T: Copy>(data: &Vec<T>, len: usize, s: usize) -> (r: Vec<T>)
    ensures
        r@ == grid_row(data@, len as nat, s as nat),
{
    let n = data.len();
    assert((s as int) * (len as int) <= (usize::MAX as int) * (usize::MAX as int)) by (nonlinear_arith)
        requires
            s <= usize::MAX,
            len <= usize::MAX,
    ;
    let lo_wide: u128 = (s as u128) * (len as u128);
    let hi_wide: u128 = lo_wide + len as u128;
    let lo: usize = if lo_wide <= n as u128 { lo_wide as usize } else { n };
    let hi: usize = if hi_wide <= n as u128 { hi_wide as usize } else { n };
    assert((s + 1) * len == s * len + len) by (nonlinear_arith);
    let mut out: Vec<T> = Vec::new();
    let mut i: usize = lo;
    while i < hi
        invariant
            lo <= i <= hi <= n == data@.len(),
            out@ == data@.subrange(lo as int, i as int),
        decreases hi - i,
    {
        out.push(data[i]);
        assert(out@ =~= data@.subrange(lo as int, i + 1));
        i += 1;
    }
    out
}

/// Column `s` of a grid of side `len`, stored row by row in `data`.
pub fn slice_column<T: Copy>(data: &Vec<T>, len: usize, s: usize) -> (r: Vec<T>)
    requires
        len > 0,
    ensures
        is_grid_column(data@, len as nat, s as nat, r@),
{
    let n = data.len();
    let mut out: Vec<T> = Vec::new();
    let mut i: usize = s;
    assert(s + 0 * len == s);
    while i < n
        invariant
            n == data@.len(),
            len > 0,
            i < n ==> i == s + out@.len() * len,
            i >= n ==> s + out@.len() * len >= n,
            out@.len() == 0 || s + (out@.len() - 1) * len < n,
            forall|k: int| 0 <= k < out@.len() ==> #[trigger] out@[k] == data@[s + k * len],
        decreases n - i,
    {
        out.push(data[i]);
        assert(s + out@.len() * len == i + len) by (nonlinear_arith)
            requires
                i == s + (out@.len() - 1) * len,
        ;
        if n - i > len {
            i = i + len;
        } else {
            i = n;
        }
    }
    out
}

/// The slice of a grid of side `len` shown in the slice modes: row `s` when
/// `view_x` holds, column `s` otherwise.
pub fn slice_of<T: Copy>(data: &Vec<T>, len: usize, s: usize, view_x: bool) -> (r: Vec<T>)
    requires
        len > 0,
    ensures
        view_x ==> r@ == grid_row(data@, len as nat, s as nat),
        !view_x ==> is_grid_column(data@, len as nat, s as nat, r@),
{
    if view_x {
        slice_row(data, len, s)
    } else {
        slice_column(data, len, s)
    }
}

} // verus!
