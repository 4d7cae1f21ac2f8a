//! Display modes, the channel filter, and the mode cycle.
use vstd::prelude::*;

verus! {

/// How the datasets are interpreted when drawn.
#[derive(Clone, Copy, Debug, PartialEq, Eq, Structural)]
pub enum GraphMode {
    Normal,
    Slice,
    SliceFlatten,
    SliceDepth,
    DomainColoring,
    Flatten,
    Depth,
}

/// Which channels of a sample are drawn.
#[derive(Clone, Copy, Debug, PartialEq, Eq, Structural)]
pub enum Show {
    Real,
    Imag,
    Complex,
}

impl Show {
    pub open spec fn spec_real(self) -> bool {
        self is Real || self is Complex
    }

    pub open spec fn spec_imag(self) -> bool {
        self is Imag || self is Complex
    }

    /// Whether the real channel is drawn.
    pub fn shows_real(&self) -> (r: bool)
        ensures
            r == self.spec_real(),
    {
        matches!(self, Show::Complex | Show::Real)
    }

    /// Whether the imaginary channel is drawn.
    pub fn imag(&self) -> (r: bool)
        ensures
            r == self.spec_imag(),
    {
        matches!(self, Show::Complex | Show::Imag)
    }

    pub open spec fn spec_next(self) -> Show {
        match self {
            Show::Complex => Show::Real,
            Show::Real => Show::Imag,
            Show::Imag => Show::Complex,
        }
    }

    /// The filter that follows this one in the cycle `Complex → Real → Imag → Complex`.
    pub fn next(&self) -> (r: Show)
        ensures
            r == self.spec_next(),
    {
        match self {
            Show::Complex => Show::Real,
            Show::Real => Show::Imag,
            Show::Imag => Show::Complex,
        }
    }
}

/// A display mode together with whether the view is three-dimensional.
pub type ModeState = (GraphMode, bool);

impl GraphMode {
    /// One step forward in the mode cycle, with the dimensionality that step sets.
    pub open spec fn spec_forward(self, is_3d: bool) -> ModeState {
        match self {
            GraphMode::Normal => if is_3d {
                (GraphMode::Slice, false)
            } else {
                (GraphMode::Flatten, false)
            },
            GraphMode::Slice => (GraphMode::SliceFlatten, is_3d),
            GraphMode::SliceFlatten => (GraphMode::SliceDepth, true),
            GraphMode::SliceDepth => (GraphMode::DomainColoring, false),
            GraphMode::DomainColoring => (GraphMode::Normal, true),
            GraphMode::Flatten => (GraphMode::Depth, true),
            GraphMode::Depth => (GraphMode::Normal, false),
        }
    }

    /// One step backward in the mode cycle, with the dimensionality that step sets.
    pub open spec fn spec_backward(self, is_3d: bool) -> ModeState {
        match self {
            GraphMode::Normal => if is_3d {
                (GraphMode::DomainColoring, false)
            } else {
                (GraphMode::Depth, true)
            },
            GraphMode::Slice => (GraphMode::Normal, true),
            GraphMode::SliceFlatten => (GraphMode::Slice, is_3d),
            GraphMode::SliceDepth => (GraphMode::SliceFlatten, false),
            GraphMode::DomainColoring => (GraphMode::SliceDepth, true),
            GraphMode::Flatten => (GraphMode::Normal, is_3d),
            GraphMode::Depth => (GraphMode::Flatten, false),
        }
    }

    /// The pairs that the cycle passes through: every mode but `Normal` fixes
    /// whether the view is three-dimensional.
    pub open spec fn consistent_with(self, is_3d: bool) -> bool {
        match self {
            GraphMode::Normal => true,
            GraphMode::SliceDepth | GraphMode::Depth => is_3d,
            _ => !is_3d,
        }
    }

    /// Whether selecting this mode directly forces a two-dimensional view.
    pub open spec fn spec_forces_2d(self) -> bool {
        self is DomainColoring || self is Slice
    }

    /// The mode and dimensionality after one forward step of the cycle.
    pub fn forward(self, is_3d: bool) -> (r: ModeState)
        ensures
            r == self.spec_forward(is_3d),
    {
        match self {
            GraphMode::Normal => if is_3d {
                (GraphMode::Slice, false)
            } else {
                (GraphMode::Flatten, false)
            },
            GraphMode::Slice => (GraphMode::SliceFlatten, is_3d),
            GraphMode::SliceFlatten => (GraphMode::SliceDepth, true),
            GraphMode::SliceDepth => (GraphMode::DomainColoring, false),
            GraphMode::DomainColoring => (GraphMode::Normal, true),
            GraphMode::Flatten => (GraphMode::Depth, true),
            GraphMode::Depth => (GraphMode::Normal, false),
        }
    }

    /// The mode and dimensionality after one backward step of the cycle.
    pub fn backward(self, is_3d: bool) -> (r: ModeState)
        ensures
            r == self.spec_backward(is_3d),
    {
        match self {
            GraphMode::Normal => if is_3d {
                (GraphMode::DomainColoring, false)
            } else {
                (GraphMode::Depth, true)
            },
            GraphMode::Slice => (GraphMode::Normal, true),
            GraphMode::SliceFlatten => (GraphMode::Slice, is_3d),
            GraphMode::SliceDepth => (GraphMode::SliceFlatten, false),
            GraphMode::DomainColoring => (GraphMode::SliceDepth, true),
            GraphMode::Flatten => (GraphMode::Normal, is_3d),
            GraphMode::Depth => (GraphMode::Flatten, false),
        }
    }

    /// One step of the mode cycle: backward when `back` holds, else forward.
    pub open spec fn spec_cycle(self, is_3d: bool, back: bool) -> ModeState {
        if back {
            self.spec_backward(is_3d)
        } else {
            self.spec_forward(is_3d)
        }
    }

    /// The mode and dimensionality after one step of the cycle, backward when
    /// `back` holds.
    pub fn cycle(self, is_3d: bool, back: bool) -> (r: ModeState)
        ensures
            r == self.spec_cycle(is_3d, back),
    {
        if back {
            self.backward(is_3d)
        } else {
            self.forward(is_3d)
        }
    }

    /// Whether selecting this mode directly forces a two-dimensional view.
    pub fn forces_2d(self) -> (r: bool)
        ensures
            r == self.spec_forces_2d(),
    {
        matches!(self, GraphMode::DomainColoring | GraphMode::Slice)
    }
}

/// `n` forward steps of the mode cycle from `s`.
pub open spec fn forward_steps(s: ModeState, n: nat) -> ModeState
    decreases n,
{
    if n == 0 {
        s
    } else {
        let p = forward_steps(s, (n - 1) as nat);
        p.0.spec_forward(p.1)
    }
}

/// `n` backward steps of the mode cycle from `s`.
pub open spec fn backward_steps(s: ModeState, n: nat) -> ModeState
    decreases n,
{
    if n == 0 {
        s
    } else {
        let p = s.0.spec_backward(s.1);
        backward_steps(p, (n - 1) as nat)
    }
}

/// Every step of the cycle, either way, leads from a consistent pair to a consistent pair.
pub proof fn lemma_steps_keep_consistency(mode: GraphMode, is_3d: bool)
    requires
        mode.consistent_with(is_3d),
    ensures
        mode.spec_forward(is_3d).0.consistent_with(mode.spec_forward(is_3d).1),
        mode.spec_backward(is_3d).0.consistent_with(mode.spec_backward(is_3d).1),
{
}

/// On a consistent pair, a backward step undoes a forward step and a forward
/// step undoes a backward step.
pub proof fn lemma_step_inverse(mode: GraphMode, is_3d: bool)
    requires
        mode.consistent_with(is_3d),
    ensures
        ({
            let f = mode.spec_forward(is_3d);
            f.0.spec_backward(f.1) == (mode, is_3d)
        }),
        ({
            let b = mode.spec_backward(is_3d);
            b.0.spec_forward(b.1) == (mode, is_3d)
        }),
{
}

/// Any number of forward steps keeps a consistent pair consistent.
pub proof fn lemma_forward_steps_consistent(s: ModeState, n: nat)
    requires
        s.0.consistent_with(s.1),
    ensures
        forward_steps(s, n).0.consistent_with(forward_steps(s, n).1),
    decreases n,
{
    if n > 0 {
        lemma_forward_steps_consistent(s, (n - 1) as nat);
        let p = forward_steps(s, (n - 1) as nat);
        lemma_steps_keep_consistency(p.0, p.1);
    }
}

/// Cycling forward `n` times and then backward `n` times returns to the
/// starting mode and dimensionality, for every pair the cycle passes through.
pub proof fn lemma_cycle_round_trip(mode: GraphMode, is_3d: bool, n: nat)
    requires
        mode.consistent_with(is_3d),
    ensures
        backward_steps(forward_steps((mode, is_3d), n), n) == (mode, is_3d),
    decreases n,
{
    if n > 0 {
        let s = (mode, is_3d);
        let p = forward_steps(s, (n - 1) as nat);
        lemma_forward_steps_consistent(s, (n - 1) as nat);
        lemma_step_inverse(p.0, p.1);
        assert(forward_steps(s, n).0.spec_backward(forward_steps(s, n).1) == p);
        lemma_cycle_round_trip(mode, is_3d, (n - 1) as nat);
    }
}

} // verus!
