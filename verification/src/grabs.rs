//! What the grabs of a seat have in common.

use crate::geometry::Point;
use vstd::prelude::*;

verus! {

/// The layer a window is managed in.
#[derive(Debug, Clone, Copy, PartialEq, Eq, Structural)]
pub enum ManagedLayer {
    Tiling,
    Floating,
    Sticky,
}

/// What releases a pointer grab.
#[derive(Debug, Clone, Copy, PartialEq, Eq, Structural)]
pub enum ReleaseMode {
    /// The last pressed button goes up.
    NoMouseButtons,
    /// A button goes down.
    Click,
}

#[derive(Debug, Clone, Copy, PartialEq, Eq, Structural)]
pub enum ButtonState {
    Released,
    Pressed,
}

/// What started a grab, and where.
#[derive(Debug, Clone, Copy, PartialEq, Eq, Structural)]
pub enum GrabStartData {
    Pointer { location: Point },
    Touch { slot: Option<u32>, location: Point },
}

impl GrabStartData {
    /// Where the grab started.
    pub open spec fn origin(self) -> Point {
        match self {
            GrabStartData::Pointer { location } => location,
            GrabStartData::Touch { location, .. } => location,
        }
    }

    /// `slot` is the touch point that started the grab.
    pub open spec fn started_by(self, slot: Option<u32>) -> bool {
        self matches GrabStartData::Touch { slot: own, .. } && own == slot
    }

    /// Where the grab started.
    pub fn location(&self) -> (r: Point)
        ensures
            r == self.origin(),
    {
        match self {
            GrabStartData::Pointer { location } => *location,
            GrabStartData::Touch { location, .. } => *location,
        }
    }

    /// Whether a touch started the grab.
    pub fn is_touch(&self) -> (r: bool)
        ensures
            r == (self is Touch),
    {
        match self {
            GrabStartData::Touch { .. } => true,
            GrabStartData::Pointer { .. } => false,
        }
    }

    /// Whether an event on the touch point `slot` concerns the grab.
    pub fn concerns(&self, slot: Option<u32>) -> (r: bool)
        ensures
            r == self.started_by(slot),
    {
        match self {
            GrabStartData::Touch { slot: own, .. } => match (*own, slot) {
                (Some(a), Some(b)) => a == b,
                (None, None) => true,
                _ => false,
            },
            GrabStartData::Pointer { .. } => false,
        }
    }
}

/// A grab starts where the event that started it was, and only the touch point that started a
/// grab concerns it.
pub proof fn law_grabs_belong_to_what_started_them(
    slot: Option<u32>,
    other: Option<u32>,
    location: Point,
)
    ensures
        (GrabStartData::Pointer { location }).origin() == location,
        (GrabStartData::Touch { slot, location }).origin() == location,
        !(GrabStartData::Pointer { location }).started_by(slot),
        (GrabStartData::Touch { slot, location }).started_by(slot),
        other != slot ==> !(GrabStartData::Touch { slot, location }).started_by(other),
{
}

} // verus!
