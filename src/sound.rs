//! Notifications for the audio collaborator.
use vstd::prelude::*;

use crate::geometry::Point;

verus! {

/// A sound to play. Positions are relative to the listener; directions are
/// angles in milliradians.
#[derive(Debug, Clone, Copy, PartialEq, Eq, Structural)]
pub enum SoundEvent {
    ButtonClick,
    RockDestroyed { relative_pos: Point },
    Collected,
    NextStage,
    CannonFire { direction: i64 },
    ShieldTransmute { relative_pos: Point },
    RockCollision,
}

} // verus!
