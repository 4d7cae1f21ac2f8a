//! Domain coloring: the sector table of the HSV to RGB conversion, and the
//! layout of the pixel buffer.
use vstd::prelude::*;

verus! {

/// One of the four levels a channel takes in the HSV to RGB conversion, for
/// value `v`, saturation `s` and fractional hue `f` within the sector.
#[derive(Clone, Copy, Debug, PartialEq, Eq, Structural)]
pub enum Tone {
    /// `v`
    Val,
    /// `v·(1 - s)`
    P,
    /// `v·(1 - s·f)`
    Q,
    /// `v·(1 - s·(1 - f))`
    T,
}

/// The tones of the red, green and blue channels in hue sector `i` (taken modulo 6).
pub open spec fn spec_sector_tones(i: nat) -> (Tone, Tone, Tone) {
    let k = i % 6;
    if k == 0 {
        (Tone::Val, Tone::T, Tone::P)
    } else if k == 1 {
        (Tone::Q, Tone::Val, Tone::P)
    } else if k == 2 {
        (Tone::P, Tone::Val, Tone::T)
    } else if k == 3 {
        (Tone::P, Tone::Q, Tone::Val)
    } else if k == 4 {
        (Tone::T, Tone::P, Tone::Val)
    } else {
        (Tone::Val, Tone::P, Tone::Q)
    }
}

/// The tones of the red, green and blue channels in hue sector `i`, where `i`
/// is the integer part of the hue on the scale `[0, 6)`, taken modulo 6.
pub fn sector_tones(i: usize) -> (r: (Tone, Tone, Tone))
    ensures
        r == spec_sector_tones(i as nat),
{
    match i % 6 {
        0 => (Tone::Val, Tone::T, Tone::P),
        1 => (Tone::Q, Tone::Val, Tone::P),
        2 => (Tone::P, Tone::Val, Tone::T),
        3 => (Tone::P, Tone::Q, Tone::Val),
        4 => (Tone::T, Tone::P, Tone::Val),
        _ => (Tone::Val, Tone::P, Tone::Q),
    }
}

/// The bytes of a square RGB image of side `len` whose first pixels, in row
/// order, have the colors `colors`; the remaining pixels are black.
pub fn pixel_buffer(colors: &Vec<[u8; 3]>, len: usize) -> (r: Vec<u8>)
    requires
        colors@.len() <= len * len,
        3 * len * len <= usize::MAX,
    ensures
        r@.len() == 3 * len * len,
        forall|i: int, c: int|
            0 <= i < colors@.len() && 0 <= c < 3 ==> r@[3 * i + c] == colors@[i]@[c],
        forall|j: int| 3 * colors@.len() <= j < r@.len() ==> r@[j] == 0,
{
    assert(len * len <= 3 * len * len && 3 * len * len == 3 * (len * len)) by (nonlinear_arith);
    let total: usize = 3 * (len * len);
    let mut out: Vec<u8> = Vec::new();
    let mut i: usize = 0;
    while i < colors.len()
        invariant
            i <= colors@.len() <= len * len,
            total == 3 * len * len,
            out@.len() == 3 * i,
            forall|k: int, c: int| 0 <= k < i && 0 <= c < 3 ==> out@[3 * k + c] == colors@[k]@[c],
        decreases colors@.len() - i,
    {
        let px = colors[i];
        out.push(px[0]);
        out.push(px[1]);
        out.push(px[2]);
        assert forall|k: int, c: int| 0 <= k < i + 1 && 0 <= c < 3 implies out@[3 * k + c]
            == colors@[k]@[c] by {
            if k == i {
                assert(3 * k + c == 3 * i + c);
            }
        }
        i += 1;
    }
    assert(3 * colors@.len() <= total);
    while out.len() < total
        invariant
            3 * colors@.len() <= out@.len() <= total,
            total == 3 * len * len,
            forall|k: int, c: int|
                0 <= k < colors@.len() && 0 <= c < 3 ==> out@[3 * k + c] == colors@[k]@[c],
            forall|j: int| 3 * colors@.len() <= j < out@.len() ==> out@[j] == 0,
        decreases total - out@.len(),
    {
        out.push(0);
    }
    out
}

} // verus!
