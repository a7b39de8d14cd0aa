//! Deterministic core of a multiplayer space-combat game: cooldown-gated
//! firing with stable prespawn hashes shared by client and server,
//! tick-windowed projectile lifetimes, collision classification, and
//! collision-to-damage resolution. Everything engine-bound (rendering,
//! physics stepping, replication plumbing) stays outside; this crate works
//! on plain ticks, entity ids and component values.

use vstd::prelude::*;

pub mod bots;
pub mod combat;
pub mod ship;

verus! {

/// Stable object id mixed into the prespawn hash of the left projectile of
/// a volley, so that client and server derive the same identity for it.
pub const LEFT_PROJECTILE_ID: u64 = 23895723;

/// Stable object id mixed into the prespawn hash of the right projectile of
/// a volley.
pub const RIGHT_PROJECTILE_ID: u64 = 105715186;

} // verus!
