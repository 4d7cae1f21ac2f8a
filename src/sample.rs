//! Samples and datasets, generic over the scalar type that carries values.
use vstd::prelude::*;

verus! {

/// One evaluated function value: a real channel, an imaginary channel, or both.
#[derive(Clone, Copy, Debug)]
pub enum Complex<F> {
    Real(F),
    Imag(F),
    Complex(F, F),
}

impl<F: Copy> Complex<F> {
    pub open spec fn spec_options(self) -> (Option<F>, Option<F>) {
        match self {
            Complex::Real(y) => (Some(y), None),
            Complex::Imag(z) => (None, Some(z)),
            Complex::Complex(y, z) => (Some(y), Some(z)),
        }
    }

    /// The real and imaginary channels, each present or absent.
    pub fn to_options(self) -> (r: (Option<F>, Option<F>))
        ensures
            r == self.spec_options(),
    {
        match self {
            Complex::Real(y) => (Some(y), None),
            Complex::Imag(z) => (None, Some(z)),
            Complex::Complex(y, z) => (Some(y), Some(z)),
        }
    }

    /// The sample with the given channels; `None` when neither is present.
    pub fn from(y: Option<F>, z: Option<F>) -> (r: Option<Self>)
        ensures
            r is None <==> (y is None && z is None),
            r matches Some(c) ==> c.spec_options() == (y, z),
    {
        match (y, z) {
            (Some(y), Some(z)) => Some(Complex::Complex(y, z)),
            (Some(y), None) => Some(Complex::Real(y)),
            (None, Some(z)) => Some(Complex::Imag(z)),
            (None, None) => None,
        }
    }
}

/// A dataset in one of four shapes.
///
/// `Width` samples a range `[start, end]` uniformly; `Coord` gives each sample
/// its abscissa; `Width3D` is a square row-major grid over
/// `[start_x, end_x] × [start_y, end_y]` (fields in the order start_x, start_y,
/// end_x, end_y); `Coord3D` gives each sample its position in the plane.
#[derive(Clone, Debug)]
pub enum GraphType<F> {
    Width(Vec<Complex<F>>, F, F),
    Coord(Vec<(F, Complex<F>)>),
    Width3D(Vec<Complex<F>>, F, F, F, F),
    Coord3D(Vec<(F, F, Complex<F>)>),
}

impl<F> GraphType<F> {
    /// Whether the dataset is a function of two variables.
    pub open spec fn spec_is_3d(self) -> bool {
        self is Width3D || self is Coord3D
    }

    /// Whether the dataset is a function of two variables.
    pub fn has_two_variables(&self) -> (r: bool)
        ensures
            r == self.spec_is_3d(),
    {
        matches!(self, GraphType::Width3D(..) | GraphType::Coord3D(..))
    }
}

/// Whether some dataset of the list is a function of two variables.
pub open spec fn spec_is_3d<F>(data: Seq<GraphType<F>>) -> bool {
    exists|i: int| 0 <= i < data.len() && (#[trigger] data[i]).spec_is_3d()
}

/// Whether a plot of these datasets starts out three-dimensional: true when
/// some dataset is a function of two variables.
pub fn is_3d<F>(data: &[GraphType<F>]) -> (r: bool)
    ensures
        r == spec_is_3d(data@),
{
    let mut i: usize = 0;
    while i < data.len()
        invariant
            i <= data@.len(),
            forall|j: int| 0 <= j < i ==> !(#[trigger] data@[j]).spec_is_3d(),
        decreases data@.len() - i,
    {
        if data[i].has_two_variables() {
            return true;
        }
        i += 1;
    }
    false
}

} // verus!
