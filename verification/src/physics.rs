//! Microphysics bundles: an equation of state, an opacity law and a nuclear energy
//! generation rate, kept together to close the stellar structure equations.

use vstd::prelude::*;

verus! {

/// A bundle of microphysics implementations (equation of state, opacity, and energy
/// generation) used to close the stellar structure equations.
pub struct Microphysics<E, O, N> {
    eos: E,
    opacity: O,
    nuclear: N,
}

impl<E, O, N> View for Microphysics<E, O, N> {
    type V = (E, O, N);

    /// The three laws of the bundle, in the order equation of state, opacity, rate.
    closed spec fn view(&self) -> (E, O, N) {
        (self.eos, self.opacity, self.nuclear)
    }
}

impl<E, O, N> Microphysics<E, O, N> {
    /// Bundles an equation of state, opacity law, and energy generation rate together.
    pub fn new(eos: E, opacity: O, nuclear: N) -> (bundle: Self)
        ensures
            bundle@ == (eos, opacity, nuclear),
    {
        Microphysics { eos, opacity, nuclear }
    }

    /// The equation of state of this bundle.
    pub fn eos(&self) -> (eos: &E)
        ensures
            *eos == self@.0,
    {
        &self.eos
    }

    /// The opacity law of this bundle.
    pub fn opacity(&self) -> (opacity: &O)
        ensures
            *opacity == self@.1,
    {
        &self.opacity
    }

    /// The nuclear energy generation rate of this bundle.
    pub fn nuclear(&self) -> (nuclear: &N)
        ensures
            *nuclear == self@.2,
    {
        &self.nuclear
    }
}

/// An equation of state accounting for hydrogen ionization via the Saha equation.
///
/// Uses the standard dilute-gas Saha equation (no pressure-ionization or degeneracy
/// corrections). For simplicity, helium and metals are treated as fully ionized.
pub struct SahaEos;

/// Kramers' opacity law, appropriate for bound-free and free-free absorption in
/// moderately high temperature stellar interiors.
pub struct KramersOpacity;

/// The proton-proton chain, the dominant hydrogen-burning process in stars near or
/// below the Sun's mass.
pub struct PpChain;

} // verus!
