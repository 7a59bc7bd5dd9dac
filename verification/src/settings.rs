use vstd::prelude::*;

verus! {

/// The aperture shape that a kernel imitates.
#[derive(Clone, Copy, Debug, PartialEq, Eq, Structural)]
pub enum FilterType {
    /// A perfectly round highlight. The configured curvature is set aside and
    /// the blades blend into one another as smoothly as they can.
    Disc,
    /// A polygonal highlight with one straight edge per blade, rounded by the
    /// configured curvature.
    Blade,
}

impl FilterType {
    /// Whether the configured curvature shapes the silhouette.
    pub open spec fn spec_uses_curvature(self) -> bool {
        self is Blade
    }

    /// Tells whether the configured curvature shapes the silhouette. Only a
    /// bladed filter reads it; a disc is always shaded at full curvature,
    /// whatever was configured.
    #[verifier::when_used_as_spec(spec_uses_curvature)]
    pub fn uses_curvature(self) -> (used: bool)
        ensures
            used == (self is Blade),
    {
        match self {
            FilterType::Disc => false,
            FilterType::Blade => true,
        }
    }
}

} // verus!
