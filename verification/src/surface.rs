//! The native surface: which steps create it inside the host window, which
//! keep it in step with the window, and which take it away. The steps are
//! carried out by the host on its UI thread; the order is decided here.

use vstd::prelude::*;
use crate::backend::SurfaceKind;

verus! {

/// The addresses of the two native objects that a surface consists of. Either
/// can be bound to the engine as its window token.
#[derive(Clone, Copy, Debug, PartialEq, Eq, Structural)]
pub struct SurfaceHandles {
    /// The address of the compositing layer.
    pub layer: usize,
    /// The address of the container view that hosts the layer.
    pub view: usize,
}

impl SurfaceHandles {
    /// The address of the object of the given kind.
    pub open spec fn spec_address(self, kind: SurfaceKind) -> usize {
        match kind {
            SurfaceKind::Layer => self.layer,
            SurfaceKind::View => self.view,
        }
    }

    /// The address of the object of the given kind.
    pub fn address(self, kind: SurfaceKind) -> (address: usize)
        ensures
            address == self.spec_address(kind),
    {
        match kind {
            SurfaceKind::Layer => self.layer,
            SurfaceKind::View => self.view,
        }
    }

    /// The window token for the given kind: the object's address as the
    /// signed 64-bit integer with the same bits.
    pub fn token(self, kind: SurfaceKind) -> (token: i64)
        ensures
            token == self.spec_address(kind) as i64,
    {
        #[verifier::truncate]
        (self.address(kind) as i64)
    }
}

/// One step on the native surface.
#[derive(Clone, Copy, Debug, PartialEq, Eq, Structural)]
pub enum SurfaceOp {
    /// Make the window's content view layer-backed and let what is in it
    /// show what lies beneath.
    PrepareParent,
    /// Allocate the container view.
    CreateContainer,
    /// Create the compositing layer and let the container host it.
    AttachLayer,
    /// Insert the container into the content view below everything else, so
    /// that the host's own views stay on top and keep their input.
    InsertAtBottom,
    /// Let the container, and its layer, resize with the content view.
    TrackParent,
    /// Give the container the content view's bounds.
    MatchParentBounds,
    /// Give the layer the content view's bounds and paint it black until the
    /// engine draws.
    PaintBlack,
    /// Give the layer the content view's bounds and the window's scale.
    ResizeLayer,
    /// Give the layer's drawable the bounds times the scale, where the layer
    /// has a drawable size.
    ResizeDrawable,
    /// Mark the layer as in need of display.
    RedrawLayer,
    /// Mark the container as in need of layout and display.
    RelayoutView,
    /// Lay the container out now.
    LayoutNow,
    /// Remove the container from the content view.
    Detach,
}

/// The resizing mask of a view that follows its parent's width.
pub const WIDTH_SIZABLE: usize = 2;

/// The resizing mask of a view that follows its parent's height.
pub const HEIGHT_SIZABLE: usize = 16;

/// The resizing mask that [`SurfaceOp::TrackParent`] sets: the surface
/// follows its parent in both directions.
pub const TRACK_PARENT_MASK: usize = 18;

/// The tracking mask is the width mask joined with the height mask.
pub proof fn lemma_tracking_mask()
    ensures
        TRACK_PARENT_MASK == WIDTH_SIZABLE | HEIGHT_SIZABLE,
{
    assert(18usize == 2usize | 16usize) by (bit_vector);
}

/// The steps that create the surface, in order.
pub open spec fn spec_provision_plan() -> Seq<SurfaceOp> {
    seq![
        SurfaceOp::PrepareParent,
        SurfaceOp::CreateContainer,
        SurfaceOp::AttachLayer,
        SurfaceOp::InsertAtBottom,
        SurfaceOp::TrackParent,
        SurfaceOp::MatchParentBounds,
        SurfaceOp::PaintBlack,
    ]
}

/// The steps that bring the surface of a session in step with the window.
/// The container is resized the same way for both kinds; what follows
/// depends on what the engine draws into. Without a session there is
/// nothing to do.
pub open spec fn spec_resize_plan(kind: Option<SurfaceKind>) -> Seq<SurfaceOp> {
    match kind {
        None => seq![],
        Some(SurfaceKind::Layer) => seq![
            SurfaceOp::TrackParent,
            SurfaceOp::MatchParentBounds,
            SurfaceOp::ResizeLayer,
            SurfaceOp::ResizeDrawable,
            SurfaceOp::RedrawLayer,
            SurfaceOp::LayoutNow,
        ],
        Some(SurfaceKind::View) => seq![
            SurfaceOp::TrackParent,
            SurfaceOp::MatchParentBounds,
            SurfaceOp::RelayoutView,
            SurfaceOp::LayoutNow,
        ],
    }
}

/// The steps that take the surface away.
pub open spec fn spec_removal_plan() -> Seq<SurfaceOp> {
    seq![SurfaceOp::Detach]
}

/// The steps that create the surface, in order.
pub fn provision_plan() -> (plan: Vec<SurfaceOp>)
    ensures
        plan@ == spec_provision_plan(),
{
    let mut plan: Vec<SurfaceOp> = Vec::new();
    plan.push(SurfaceOp::PrepareParent);
    plan.push(SurfaceOp::CreateContainer);
    plan.push(SurfaceOp::AttachLayer);
    plan.push(SurfaceOp::InsertAtBottom);
    plan.push(SurfaceOp::TrackParent);
    plan.push(SurfaceOp::MatchParentBounds);
    plan.push(SurfaceOp::PaintBlack);
    assert(plan@ =~= spec_provision_plan());
    plan
}

/// The steps that bring the surface in step with the window, for the kind
/// that the session is bound to, or for no session.
pub fn resize_plan(kind: Option<SurfaceKind>) -> (plan: Vec<SurfaceOp>)
    ensures
        plan@ == spec_resize_plan(kind),
{
    let mut plan: Vec<SurfaceOp> = Vec::new();
    match kind {
        None => {},
        Some(SurfaceKind::Layer) => {
            plan.push(SurfaceOp::TrackParent);
            plan.push(SurfaceOp::MatchParentBounds);
            plan.push(SurfaceOp::ResizeLayer);
            plan.push(SurfaceOp::ResizeDrawable);
            plan.push(SurfaceOp::RedrawLayer);
            plan.push(SurfaceOp::LayoutNow);
        },
        Some(SurfaceKind::View) => {
            plan.push(SurfaceOp::TrackParent);
            plan.push(SurfaceOp::MatchParentBounds);
            plan.push(SurfaceOp::RelayoutView);
            plan.push(SurfaceOp::LayoutNow);
        },
    }
    assert(plan@ =~= spec_resize_plan(kind));
    plan
}

/// The steps that take the surface away.
pub fn removal_plan() -> (plan: Vec<SurfaceOp>)
    ensures
        plan@ == spec_removal_plan(),
{
    let mut plan: Vec<SurfaceOp> = Vec::new();
    plan.push(SurfaceOp::Detach);
    assert(plan@ =~= spec_removal_plan());
    plan
}

} // verus!
