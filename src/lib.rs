//! Resource and progression simulation for a top-down space survival game:
//! reagent inventories, rate-limited reactions, heat, a capped population of
//! spawned objects, and the forward-only sequence of gameplay stages.
//!
//! Quantities are integers: reagent and heat amounts in micro-units (a
//! millionth of a unit), times in milliseconds, rates in micro-units per
//! millisecond, fractions in thousandths, and planar distances in
//! milli-units.
pub mod timer;
pub mod geometry;
pub mod sound;
pub mod inventory;
pub mod heat;
pub mod reaction;
pub mod random;
pub mod population;
pub mod weapon;
pub mod collision;
pub mod progression;
pub mod menu;
pub mod markup;
