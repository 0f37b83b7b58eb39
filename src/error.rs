use vstd::prelude::*;

verus! {

/// Why a patch could not be built.
#[derive(Debug, Clone, Copy, PartialEq, Eq, Structural)]
pub enum SurfaceError {
    /// The control grid or the resolution describes a degenerate patch.
    InvalidGeometry,
    /// The renderer refused to take the tessellated mesh.
    RegistrationFailed,
}

} // verus!
