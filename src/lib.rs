//! Surface generation and per-frame state for a Bezier patch that follows a
//! simulated rigid body.
//!
//! `tessellation` turns a control-point grid and a sampling resolution into the
//! integer structure of a triangle mesh: which lattice parameter each vertex is
//! sampled at and which vertices each triangle joins. `proxy` holds the state
//! machine that decides, frame by frame, what the render node receives.
pub mod error;
pub mod proxy;
pub mod tessellation;

pub use error::SurfaceError;
pub use proxy::{Activity, BezierSurface, FrameAction, Shade, Tint};
pub use tessellation::{
    tessellate, LatticePoint, MAX_VERTICES, PatchMesh, TessellationResolution, Triangle,
};
