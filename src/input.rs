//! Discrete key presses of one frame, and their effect on the slice index.
use vstd::prelude::*;

verus! {

/// The keys of one frame that act on the discrete view state, each true when
/// its key was pressed during the frame.
#[derive(Clone, Copy, Debug, Default)]
pub struct KeyPresses {
    /// The shift modifier: bigger slice steps, and the mode cycle runs backward.
    pub shift: bool,
    /// Show or hide the grid lines.
    pub toggle_grid: bool,
    /// Show or hide the axes.
    pub toggle_axis: bool,
    /// Show or hide the coordinate readout.
    pub toggle_coord: bool,
    /// Turn axis scaling on or off.
    pub toggle_scale_axis: bool,
    /// Turn texture smoothing on or off.
    pub toggle_anti_alias: bool,
    /// Next slice.
    pub slice_up: bool,
    /// Previous slice.
    pub slice_down: bool,
    /// Slice along rows instead of columns, or back.
    pub toggle_view_x: bool,
    /// Join points by lines, or stop.
    pub toggle_lines: bool,
    /// Next channel filter.
    pub cycle_show: bool,
    /// Next display mode (previous one with shift).
    pub cycle_mode: bool,
}

/// How far one slice key moves: 4 with shift, else 1.
pub open spec fn slice_step(shift: bool) -> nat {
    if shift {
        4
    } else {
        1
    }
}

/// The slice index after the slice keys of `keys`: up first, saturating at
/// the largest `usize`, then down, saturating at 0.
pub open spec fn stepped_slice(slice: nat, keys: KeyPresses) -> nat {
    let c = slice_step(keys.shift);
    let up = if keys.slice_up {
        if slice + c <= usize::MAX {
            slice + c
        } else {
            usize::MAX as nat
        }
    } else {
        slice
    };
    if keys.slice_down {
        if up >= c {
            (up - c) as nat
        } else {
            0
        }
    } else {
        up
    }
}

/// The slice index after the slice keys of `keys`.
pub fn step_slice(slice: usize, keys: &KeyPresses) -> (r: usize)
    ensures
        r as nat == stepped_slice(slice as nat, *keys),
{
    let c: usize = if keys.shift {
        4
    } else {
        1
    };
    let mut s = slice;
    if keys.slice_up {
        s = s.saturating_add(c);
    }
    if keys.slice_down {
        s = s.saturating_sub(c);
    }
    s
}

} // verus!
