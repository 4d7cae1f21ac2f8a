//! Which drawing a dataset gets in each display mode.
use vstd::prelude::*;
use crate::mode::GraphMode;
use crate::sample::GraphType;

verus! {

/// How one dataset is drawn.
#[derive(Clone, Copy, Debug, PartialEq, Eq, Structural)]
pub enum Plan {
    /// Real and imaginary channels as two curves over the abscissa.
    Curves,
    /// The curve traced by `(re, im)` in the plane.
    ComplexPlane,
    /// The curve `(re, im, abscissa)` in space.
    DepthCurve,
    /// Real and imaginary channels as two wireframe surfaces over the grid.
    Surface,
    /// One row or column of the grid, drawn as `Curves`.
    SliceCurves,
    /// One row or column of the grid, drawn as `ComplexPlane`.
    SliceComplexPlane,
    /// One row or column of the grid, drawn as `DepthCurve`.
    SliceDepth,
    /// The domain-coloring texture over the grid's rectangle.
    Texture,
    /// Real and imaginary channels as two curves through the given positions in space.
    Cloud,
}

/// How a dataset of shape `d` is drawn in mode `mode`.
pub open spec fn spec_plan<F>(d: GraphType<F>, mode: GraphMode) -> Plan {
    match d {
        GraphType::Width(..) | GraphType::Coord(..) => match mode {
            GraphMode::Flatten => Plan::ComplexPlane,
            GraphMode::Depth => Plan::DepthCurve,
            _ => Plan::Curves,
        },
        GraphType::Width3D(..) => match mode {
            GraphMode::Normal | GraphMode::Flatten | GraphMode::Depth => Plan::Surface,
            GraphMode::Slice => Plan::SliceCurves,
            GraphMode::SliceFlatten => Plan::SliceComplexPlane,
            GraphMode::SliceDepth => Plan::SliceDepth,
            GraphMode::DomainColoring => Plan::Texture,
        },
        GraphType::Coord3D(..) => Plan::Cloud,
    }
}

/// How a dataset of shape `d` is drawn in mode `mode`.
pub fn plan<F>(d: &GraphType<F>, mode: GraphMode) -> (r: Plan)
    ensures
        r == spec_plan(*d, mode),
{
    match d {
        GraphType::Width(..) | GraphType::Coord(..) => match mode {
            GraphMode::Flatten => Plan::ComplexPlane,
            GraphMode::Depth => Plan::DepthCurve,
            _ => Plan::Curves,
        },
        GraphType::Width3D(..) => match mode {
            GraphMode::Normal | GraphMode::Flatten | GraphMode::Depth => Plan::Surface,
            GraphMode::Slice => Plan::SliceCurves,
            GraphMode::SliceFlatten => Plan::SliceComplexPlane,
            GraphMode::SliceDepth => Plan::SliceDepth,
            GraphMode::DomainColoring => Plan::Texture,
        },
        GraphType::Coord3D(..) => Plan::Cloud,
    }
}

/// What is drawn between two consecutive points in 3D.
#[derive(Clone, Copy, Debug, PartialEq, Eq, Structural)]
pub enum Segment {
    /// Both points are inside the view cube: the whole segment.
    Whole,
    /// Only the current point is inside: from the previous point clipped to
    /// the cube, to the current point.
    ClipPrevious,
    /// Only the previous point is inside: from the previous point to the
    /// current point clipped to the cube.
    ClipCurrent,
    /// Both points are outside: nothing, even where the segment crosses the cube.
    Skip,
}

/// What is drawn between a previous and a current point, given whether each
/// lies inside the view cube.
pub open spec fn spec_segment(prev_inside: bool, cur_inside: bool) -> Segment {
    if prev_inside && cur_inside {
        Segment::Whole
    } else if cur_inside {
        Segment::ClipPrevious
    } else if prev_inside {
        Segment::ClipCurrent
    } else {
        Segment::Skip
    }
}

/// What is drawn between a previous and a current point, given whether each
/// lies inside the view cube.
pub fn segment(prev_inside: bool, cur_inside: bool) -> (r: Segment)
    ensures
        r == spec_segment(prev_inside, cur_inside),
{
    match (prev_inside, cur_inside) {
        (true, true) => Segment::Whole,
        (false, true) => Segment::ClipPrevious,
        (true, false) => Segment::ClipCurrent,
        (false, false) => Segment::Skip,
    }
}

/// How a grid line of the 2D axis overlay is drawn.
#[derive(Clone, Copy, Debug, PartialEq, Eq, Structural)]
pub enum LineWeight {
    Hidden,
    Thin,
    Heavy,
}

/// How the grid line at integer coordinate `i` is drawn: every line shows
/// while grid lines are shown, the zero line also while the axes are shown;
/// the zero line is heavy and the others thin.
pub open spec fn spec_grid_line(i: int, lines_disabled: bool, axis_disabled: bool) -> LineWeight {
    if lines_disabled && (i != 0 || axis_disabled) {
        LineWeight::Hidden
    } else if i == 0 {
        LineWeight::Heavy
    } else {
        LineWeight::Thin
    }
}

/// How the grid line at integer coordinate `i` is drawn.
pub fn grid_line(i: isize, lines_disabled: bool, axis_disabled: bool) -> (r: LineWeight)
    ensures
        r == spec_grid_line(i as int, lines_disabled, axis_disabled),
{
    if !lines_disabled || (i == 0 && !axis_disabled) {
        if i == 0 {
            LineWeight::Heavy
        } else {
            LineWeight::Thin
        }
    } else {
        LineWeight::Hidden
    }
}

} // verus!
