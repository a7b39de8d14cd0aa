//! Server-side bot population: the tick-cadence gate that decides when the
//! server may spawn another bot ship.

use vstd::prelude::*;

verus! {

/// Bots are only considered for spawning on ticks that are a multiple of
/// this interval.
pub const BOT_SPAWN_TICK_INTERVAL: u16 = 7;

/// The cap on live bots; spawning is disabled entirely while it is zero.
pub const MAX_BOTS: usize = 0;

/// The hit points a freshly spawned bot ship starts with.
pub const BOT_MAX_HEALTH: u16 = 6;

/// Whether the server should spawn a bot this tick: only on the spawn
/// cadence, and only while the live bot count is below the cap.
pub fn should_spawn_bot(current_tick: u16, bot_count: usize) -> (r: bool)
    ensures
        r <==> (current_tick % BOT_SPAWN_TICK_INTERVAL == 0 && bot_count < MAX_BOTS),
{
    if current_tick % BOT_SPAWN_TICK_INTERVAL != 0 {
        return false;
    }
    bot_count < MAX_BOTS
}

} // verus!
