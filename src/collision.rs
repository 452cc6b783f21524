//! Turns overlap notifications between tagged bodies into domain events:
//! pickups, rocks hit by projectiles, and shield contacts, and decides what a
//! shield contact does.
use vstd::prelude::*;

use crate::geometry::Point;
use crate::inventory::{CollectionEvent, Reagent};
use crate::sound::SoundEvent;

verus! {

/// What a collectible carries.
#[derive(Debug, Clone, Copy, PartialEq, Eq, Structural)]
pub enum Collectible {
    CollectibleReagent { reagent: Reagent, amount: i64 },
    Other,
}

/// The tag of a body that the physics collaborator reports on.
#[derive(Debug, Clone, Copy, PartialEq, Eq, Structural)]
pub enum BodyKind {
    Player,
    Collectible(Collectible),
    Rock,
    Slug,
    Shield,
    Other,
}

/// A body taking part in an overlap: its handle, tag and position.
#[derive(Debug, Clone, Copy, PartialEq, Eq, Structural)]
pub struct Body {
    pub entity: u64,
    pub kind: BodyKind,
    pub position: Point,
}

/// The player touched a collectible: it is removed, and its reagent, if it
/// carries one, is collected.
#[derive(Debug, Clone, Copy, PartialEq, Eq, Structural)]
pub struct Pickup {
    pub collected: Option<CollectionEvent>,
    pub despawn: u64,
}

/// A rock to destroy, and where it was.
#[derive(Debug, Clone, Copy, PartialEq, Eq, Structural)]
pub struct RockDestroyed {
    pub entity: u64,
    pub position: Point,
}

/// Something the shield touched.
#[derive(Debug, Clone, Copy, PartialEq, Eq, Structural)]
pub enum ShieldCollision {
    Rock { entity: u64, position: Point },
    Collectible { entity: u64, position: Point, reagent: Reagent, amount: i64 },
}

/// What follows from a shield contact.
#[derive(Debug, Clone, Copy, PartialEq, Eq, Structural)]
pub enum ShieldEffect {
    /// The rock is destroyed.
    DestroyRock(RockDestroyed),
    /// Exotic matter turns into strange matter: the collectible is replaced by
    /// one holding the same amount of strange matter at the same place.
    Transmute { despawn: u64, position: Point, amount: i64, sound: Option<SoundEvent> },
    /// The collectible is removed.
    Despawn(u64),
    /// Nothing happens.
    Nothing,
}

pub open spec fn pickup_of(collector: Body, other: Body) -> Option<Pickup> {
    match other.kind {
        BodyKind::Collectible(c) => Some(
            Pickup {
                collected: match c {
                    Collectible::CollectibleReagent { reagent, amount } => Some(
                        CollectionEvent { reagent, amount },
                    ),
                    Collectible::Other => None,
                },
                despawn: other.entity,
            },
        ),
        _ => None,
    }
}

/// The pickup, if any, of an overlap between `a` and `b`. The first body is
/// looked at first: when it is the player only the second can be picked up.
pub open spec fn player_pickup_spec(a: Body, b: Body) -> Option<Pickup> {
    if a.kind == BodyKind::Player {
        pickup_of(a, b)
    } else if b.kind == BodyKind::Player {
        pickup_of(b, a)
    } else {
        None
    }
}

pub open spec fn projectile_hit_spec(a: Body, b: Body) -> Option<RockDestroyed> {
    if a.kind == BodyKind::Rock && b.kind == BodyKind::Slug {
        Some(RockDestroyed { entity: a.entity, position: a.position })
    } else if b.kind == BodyKind::Rock && a.kind == BodyKind::Slug {
        Some(RockDestroyed { entity: b.entity, position: b.position })
    } else {
        None
    }
}

pub open spec fn shield_touch(other: Body) -> Option<ShieldCollision> {
    match other.kind {
        BodyKind::Collectible(Collectible::CollectibleReagent { reagent, amount }) => Some(
            ShieldCollision::Collectible {
                entity: other.entity,
                position: other.position,
                reagent,
                amount,
            },
        ),
        BodyKind::Rock => Some(ShieldCollision::Rock { entity: other.entity, position: other.position }),
        _ => None,
    }
}

/// The shield contact, if any, of an overlap between `a` and `b`; as for
/// pickups, the first body is looked at first.
pub open spec fn shield_contact_spec(a: Body, b: Body) -> Option<ShieldCollision> {
    if a.kind == BodyKind::Shield {
        shield_touch(b)
    } else if b.kind == BodyKind::Shield {
        shield_touch(a)
    } else {
        None
    }
}

pub open spec fn relative(p: Point, origin: Point) -> Point {
    Point { x: (p.x - origin.x) as i64, y: (p.y - origin.y) as i64 }
}

pub open spec fn shield_effect_spec(ev: ShieldCollision, player: Option<Point>) -> ShieldEffect {
    match ev {
        ShieldCollision::Rock { entity, position } => ShieldEffect::DestroyRock(
            RockDestroyed { entity, position },
        ),
        ShieldCollision::Collectible { entity, position, reagent, amount } => match reagent {
            Reagent::Exotic => ShieldEffect::Transmute {
                despawn: entity,
                position,
                amount,
                sound: match player {
                    Some(p) => Some(SoundEvent::ShieldTransmute { relative_pos: relative(position, p) }),
                    None => None,
                },
            },
            Reagent::Strange => ShieldEffect::Nothing,
            _ => ShieldEffect::Despawn(entity),
        },
    }
}

fn pickup(other: &Body) -> (r: Option<Pickup>)
    ensures
        forall|collector: Body| r == pickup_of(collector, *other),
{
    match other.kind {
        BodyKind::Collectible(c) => {
            let collected = match c {
                Collectible::CollectibleReagent { reagent, amount } => Some(
                    CollectionEvent { reagent, amount },
                ),
                Collectible::Other => None,
            };
            Some(Pickup { collected, despawn: other.entity })
        },
        _ => None,
    }
}

/// What the player picks up in an overlap between `a` and `b`, if anything.
pub fn player_pickup(a: &Body, b: &Body) -> (r: Option<Pickup>)
    ensures
        r == player_pickup_spec(*a, *b),
{
    if a.kind == BodyKind::Player {
        pickup(b)
    } else if b.kind == BodyKind::Player {
        pickup(a)
    } else {
        None
    }
}

/// The rock destroyed in an overlap between a rock and a projectile, if any.
pub fn projectile_hit(a: &Body, b: &Body) -> (r: Option<RockDestroyed>)
    ensures
        r == projectile_hit_spec(*a, *b),
{
    if a.kind == BodyKind::Rock && b.kind == BodyKind::Slug {
        Some(RockDestroyed { entity: a.entity, position: a.position })
    } else if b.kind == BodyKind::Rock && a.kind == BodyKind::Slug {
        Some(RockDestroyed { entity: b.entity, position: b.position })
    } else {
        None
    }
}

fn touch(other: &Body) -> (r: Option<ShieldCollision>)
    ensures
        r == shield_touch(*other),
{
    match other.kind {
        BodyKind::Collectible(Collectible::CollectibleReagent { reagent, amount }) => Some(
            ShieldCollision::Collectible {
                entity: other.entity,
                position: other.position,
                reagent,
                amount,
            },
        ),
        BodyKind::Rock => Some(ShieldCollision::Rock { entity: other.entity, position: other.position }),
        _ => None,
    }
}

/// What the shield touched in an overlap between `a` and `b`, if anything.
pub fn shield_contact(a: &Body, b: &Body) -> (r: Option<ShieldCollision>)
    ensures
        r == shield_contact_spec(*a, *b),
{
    if a.kind == BodyKind::Shield {
        touch(b)
    } else if b.kind == BodyKind::Shield {
        touch(a)
    } else {
        None
    }
}

/// What a shield contact does: rocks are destroyed, exotic matter turns into
/// strange matter (with a sound placed relative to the player, when there is
/// one), strange matter is left alone and any other collectible is removed.
pub fn shield_effect(ev: &ShieldCollision, player: Option<Point>) -> (r: ShieldEffect)
    requires
        player matches Some(p) ==> match *ev {
            ShieldCollision::Collectible { position, .. } => {
                &&& i64::MIN <= position.x - p.x <= i64::MAX
                &&& i64::MIN <= position.y - p.y <= i64::MAX
            },
            _ => true,
        },
    ensures
        r == shield_effect_spec(*ev, player),
{
    match *ev {
        ShieldCollision::Rock { entity, position } => ShieldEffect::DestroyRock(
            RockDestroyed { entity, position },
        ),
        ShieldCollision::Collectible { entity, position, reagent, amount } => match reagent {
            Reagent::Exotic => {
                let sound = match player {
                    Some(p) => Some(
                        SoundEvent::ShieldTransmute {
                            relative_pos: Point { x: position.x - p.x, y: position.y - p.y },
                        },
                    ),
                    None => None,
                };
                ShieldEffect::Transmute { despawn: entity, position, amount, sound }
            },
            Reagent::Strange => ShieldEffect::Nothing,
            _ => ShieldEffect::Despawn(entity),
        },
    }
}

/// Whether the shield is switched on.
#[derive(Debug, Clone, Copy, PartialEq, Eq, Structural, Default)]
pub struct ShieldEmitter {
    pub enabled: bool,
}

/// What to do with the player's shield this step.
#[derive(Debug, Clone, Copy, PartialEq, Eq, Structural)]
pub enum ShieldAction {
    Raise,
    Lower,
    Keep,
}

pub open spec fn shield_action_spec(emitter: ShieldEmitter, held: bool, raised: bool) -> ShieldAction {
    if held {
        if emitter.enabled && !raised {
            ShieldAction::Raise
        } else {
            ShieldAction::Keep
        }
    } else if raised {
        ShieldAction::Lower
    } else {
        ShieldAction::Keep
    }
}

impl ShieldEmitter {
    /// While the button is held an enabled emitter raises a shield if none is
    /// up; once it is released any shield is lowered.
    pub fn action(&self, held: bool, raised: bool) -> (r: ShieldAction)
        ensures
            r == shield_action_spec(*self, held, raised),
    {
        if held {
            if self.enabled && !raised {
                ShieldAction::Raise
            } else {
                ShieldAction::Keep
            }
        } else if raised {
            ShieldAction::Lower
        } else {
            ShieldAction::Keep
        }
    }
}

} // verus!
