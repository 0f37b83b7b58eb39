use vstd::prelude::*;

use crate::error::SurfaceError;

verus! {

/// Whether the simulated body is awake in the current frame.
#[derive(Debug, Clone, Copy, PartialEq, Eq, Structural)]
pub enum Activity {
    Active,
    Dormant,
}

impl Activity {
    /// The activity that a body's awake flag stands for.
    pub fn of(is_active: bool) -> (r: Self)
        ensures
            r == (if is_active { Activity::Active } else { Activity::Dormant }),
    {
        if is_active {
            Activity::Active
        } else {
            Activity::Dormant
        }
    }
}

/// Which of its two colors the surface currently shows.
#[derive(Debug, Clone, Copy, PartialEq, Eq, Structural)]
pub enum Tint {
    /// The color the surface was created with.
    Base,
    /// Full-intensity red, shown while the surface is selected.
    Highlight,
}

/// How brightly the current tint is drawn.
#[derive(Debug, Clone, Copy, PartialEq, Eq, Structural)]
pub enum Shade {
    /// Every channel as it is.
    Full,
    /// Every channel scaled to a quarter: the body is asleep.
    Dimmed,
}

/// What the render node receives in one frame.
#[derive(Debug, Clone, Copy, PartialEq, Eq, Structural)]
pub struct FrameAction {
    /// Whether the node's transform is set to the body's transform composed
    /// with the surface's offset. When false the node keeps its last pose.
    pub write_transform: bool,
    /// The color written to the node, before shading.
    pub tint: Tint,
    /// The intensity at which `tint` is written.
    pub shade: Shade,
}

/// The action of one frame: an awake body moves the node and shows the tint at
/// full intensity; a sleeping one leaves the pose alone and dims the tint.
pub open spec fn frame_action(tint: Tint, activity: Activity) -> FrameAction {
    match activity {
        Activity::Active => FrameAction { write_transform: true, tint, shade: Shade::Full },
        Activity::Dormant => FrameAction { write_transform: false, tint, shade: Shade::Dimmed },
    }
}

/// The tint after `select`.
pub open spec fn after_select(tint: Tint) -> Tint {
    Tint::Highlight
}

/// The tint after `unselect`.
pub open spec fn after_unselect(tint: Tint) -> Tint {
    Tint::Base
}

/// A Bezier patch drawn by the render node `N`, following the rigid body
/// observed through `B`, placed at the offset `D` from the body's frame.
pub struct BezierSurface<N, B, D> {
    tint: Tint,
    delta: D,
    gfx: N,
    body: B,
}

impl<N, B, D> BezierSurface<N, B, D> {
    /// The tint that the next frame will show.
    pub closed spec fn current_tint(&self) -> Tint {
        self.tint
    }

    /// The offset from the body's frame.
    pub closed spec fn spec_offset(&self) -> D {
        self.delta
    }

    /// The render node.
    pub closed spec fn spec_object(&self) -> N {
        self.gfx
    }

    /// The observed body.
    pub closed spec fn spec_body(&self) -> B {
        self.body
    }

    /// `self` and `other` draw on one node, follow one body and use one offset.
    pub open spec fn same_links(&self, other: &Self) -> bool {
        &&& self.spec_offset() == other.spec_offset()
        &&& self.spec_object() == other.spec_object()
        &&& self.spec_body() == other.spec_body()
    }

    /// Builds the surface from the node that the renderer made for its mesh,
    /// or fails when the renderer refused the mesh (`node` is `None`).
    /// The surface starts in its base color.
    pub fn new(body: B, delta: D, node: Option<N>) -> (r: Result<Self, SurfaceError>)
        ensures
            match r {
                Ok(s) => {
                    &&& node == Some(s.spec_object())
                    &&& s.spec_body() == body
                    &&& s.spec_offset() == delta
                    &&& s.current_tint() == Tint::Base
                },
                Err(e) => node.is_none() && e == SurfaceError::RegistrationFailed,
            },
    {
        match node {
            Some(gfx) => Ok(BezierSurface { tint: Tint::Base, delta, gfx, body }),
            None => Err(SurfaceError::RegistrationFailed),
        }
    }

    /// Shows the highlight from the next frame on.
    pub fn select(&mut self)
        ensures
            final(self).current_tint() == after_select(old(self).current_tint()),
            final(self).same_links(old(self)),
    {
        self.tint = Tint::Highlight;
    }

    /// Goes back to the base color from the next frame on.
    pub fn unselect(&mut self)
        ensures
            final(self).current_tint() == after_unselect(old(self).current_tint()),
            final(self).same_links(old(self)),
    {
        self.tint = Tint::Base;
    }

    /// What the render node receives this frame, given the body's activity.
    pub fn update(&self, activity: Activity) -> (r: FrameAction)
        ensures
            r == frame_action(self.current_tint(), activity),
    {
        match activity {
            Activity::Active => FrameAction { write_transform: true, tint: self.tint, shade: Shade::Full },
            Activity::Dormant => FrameAction { write_transform: false, tint: self.tint, shade: Shade::Dimmed },
        }
    }

    /// The render node, for picking and camera framing.
    pub fn object(&self) -> (r: &N)
        ensures
            *r == self.spec_object(),
    {
        &self.gfx
    }

    /// The render node, to draw this frame's action on.
    pub fn object_mut(&mut self) -> (r: &mut N)
        ensures
            *r == old(self).spec_object(),
            final(self).spec_object() == *final(r),
            final(self).current_tint() == old(self).current_tint(),
            final(self).spec_body() == old(self).spec_body(),
            final(self).spec_offset() == old(self).spec_offset(),
    {
        &mut self.gfx
    }

    /// The observed body.
    pub fn body(&self) -> (r: &B)
        ensures
            *r == self.spec_body(),
    {
        &self.body
    }

    /// The offset from the body's frame.
    pub fn offset(&self) -> (r: &D)
        ensures
            *r == self.spec_offset(),
    {
        &self.delta
    }
}

/// Selecting the surface and updating it while the body is awake writes the
/// pose and full-intensity red; unselecting it and updating again brings back
/// the base color, still at full intensity.
pub proof fn lemma_select_then_unselect(tint: Tint)
    ensures
        frame_action(after_select(tint), Activity::Active) == (FrameAction {
            write_transform: true,
            tint: Tint::Highlight,
            shade: Shade::Full,
        }),
        frame_action(after_unselect(after_select(tint)), Activity::Active) == (FrameAction {
            write_transform: true,
            tint: Tint::Base,
            shade: Shade::Full,
        }),
{
}

/// While the body sleeps, every update leaves the pose where it was and dims
/// the current tint; the update does not change the surface, so the next one
/// dims the same tint again rather than dimming further.
pub proof fn lemma_dormant_updates<N, B, D>(s: BezierSurface<N, B, D>)
    ensures
        frame_action(s.current_tint(), Activity::Dormant) == (FrameAction {
            write_transform: false,
            tint: s.current_tint(),
            shade: Shade::Dimmed,
        }),
{
}

} // verus!
