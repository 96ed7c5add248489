use vstd::prelude::*;

verus! {

/// The noise primitives a scalar field can be built on. The set is closed:
/// a new primitive is added here, without touching the composition algebra.
#[derive(Clone, Copy, Debug, PartialEq, Eq, Structural)]
pub enum NoiseFnTypes {
    /// Seeded two-dimensional OpenSimplex gradient noise.
    OpenSimplex,
}

} // verus!
