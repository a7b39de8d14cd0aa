//! Ship weaponry: the despawn window that bounds a projectile's lifetime in
//! ticks (with wraparound of the 16-bit tick counter), and cooldown-gated
//! firing that assigns each spawned projectile a stable prespawn hash.

use vstd::prelude::*;

verus! {

/// Bounds the lifetime of an entity to a window of ticks starting at the
/// tick it was created on. Tick counters are 16 bits wide and wrap.
#[derive(Clone, Copy, Debug, PartialEq, Eq, Structural)]
pub struct DespawnAfter {
    pub created_at_tick: u16,
    pub lifetime_ticks: u16,
    pub is_server_controlled: bool,
}

/// The tick at which the despawn window closes: creation tick plus lifetime,
/// wrapping around the 16-bit tick counter.
pub open spec fn spec_despawn_at_tick(created_at_tick: u16, lifetime_ticks: u16) -> u16 {
    vstd::wrapping::u16_specs::wrapping_add(created_at_tick, lifetime_ticks)
}

/// Whether an entity created at `created_at_tick` with the given lifetime is
/// due for despawn at `current_tick`. When the window end does not wrap, the
/// entity despawns once the current tick reaches the window end. When it
/// does wrap, it also despawns on any tick below the creation tick.
pub open spec fn spec_should_despawn(d: DespawnAfter, current_tick: u16) -> bool {
    let despawn_at = spec_despawn_at_tick(d.created_at_tick, d.lifetime_ticks);
    if d.created_at_tick <= despawn_at {
        current_tick >= despawn_at
    } else {
        current_tick >= despawn_at || current_tick < d.created_at_tick
    }
}

impl DespawnAfter {
    /// Decide whether the entity's lifetime window has closed at
    /// `current_tick`. When creation tick plus lifetime stays within the
    /// 16-bit range this is exactly "the current tick has reached the end of
    /// the window".
    pub fn should_despawn(&self, current_tick: u16) -> (r: bool)
        ensures
            r == spec_should_despawn(*self, current_tick),
            self.created_at_tick + self.lifetime_ticks <= u16::MAX ==> (r <==> current_tick
                >= self.created_at_tick + self.lifetime_ticks),
    {
        let despawn_at_tick = self.created_at_tick.wrapping_add(self.lifetime_ticks);

        if self.created_at_tick <= despawn_at_tick {
            current_tick >= despawn_at_tick
        } else {
            current_tick >= despawn_at_tick || current_tick < self.created_at_tick
        }
    }
}

/// A lifetime window whose end wraps past the top of the 16-bit tick range
/// is empty: every tick, the creation tick included, despawns the entity.
/// An entity meant to survive must be created while creation tick plus
/// lifetime still fits the tick width.
pub proof fn lemma_wrapped_window_is_empty(d: DespawnAfter, current_tick: u16)
    requires
        d.created_at_tick + d.lifetime_ticks > u16::MAX,
    ensures
        spec_should_despawn(d, current_tick),
{
}

/// What to do with an entity whose lifetime window is checked this tick.
#[derive(Clone, Copy, Debug, PartialEq, Eq, Structural)]
pub enum DespawnDecision {
    /// The window is still open.
    Keep,
    /// The window has closed and this peer despawns the entity itself.
    Despawn,
    /// The window has closed, but a client leaves a server-controlled
    /// entity for the server to despawn.
    LeaveToServer,
}

/// Decide, for one entity, what the lifetime sweep does at `current_tick`.
pub fn despawn_decision(d: &DespawnAfter, current_tick: u16, is_client: bool) -> (r:
    DespawnDecision)
    ensures
        r is Keep <==> !spec_should_despawn(*d, current_tick),
        r is LeaveToServer <==> (spec_should_despawn(*d, current_tick) && is_client
            && d.is_server_controlled),
        r is Despawn <==> (spec_should_despawn(*d, current_tick) && !(is_client
            && d.is_server_controlled)),
{
    if d.should_despawn(current_tick) {
        if is_client && d.is_server_controlled {
            DespawnDecision::LeaveToServer
        } else {
            DespawnDecision::Despawn
        }
    } else {
        DespawnDecision::Keep
    }
}

/// A ship's weapon: it may fire again only once the cooldown has elapsed
/// since the tick it last fired on.
#[derive(Clone, Copy, Debug, PartialEq, Eq, Structural)]
pub struct ShipWeapon {
    pub cooldown_ticks: u16,
    pub last_fired_tick: u16,
}

/// The cooldown a simulated ship's weapon is armed with.
pub const SHIP_WEAPON_COOLDOWN_TICKS: u16 = 20;

/// How many ticks a fired projectile lives before it despawns.
pub const PROJECTILE_LIFETIME_TICKS: u16 = 60;

impl Default for ShipWeapon {
    /// A fresh weapon: the standard cooldown, never fired.
    fn default() -> (r: Self)
        ensures
            r == (ShipWeapon {
                cooldown_ticks: SHIP_WEAPON_COOLDOWN_TICKS,
                last_fired_tick: 0,
            }),
    {
        ShipWeapon { cooldown_ticks: SHIP_WEAPON_COOLDOWN_TICKS, last_fired_tick: 0 }
    }
}

/// Who pulled the trigger. The identity that is mixed into the prespawn
/// hash: a player's client id bits, a bot's id, or zero for a simulated
/// ship that is neither.
#[derive(Clone, Copy, Debug, PartialEq, Eq, Structural)]
pub enum Shooter {
    Player(u64),
    Bot(u64),
    Unknown,
}

impl Shooter {
    /// The id bits this shooter contributes to the prespawn hash.
    pub open spec fn spec_id(self) -> u64 {
        match self {
            Shooter::Player(bits) => bits,
            Shooter::Bot(id) => id,
            Shooter::Unknown => 0,
        }
    }

    pub fn id(&self) -> (r: u64)
        ensures
            r == self.spec_id(),
    {
        match self {
            Shooter::Player(bits) => *bits,
            Shooter::Bot(id) => *id,
            Shooter::Unknown => 0,
        }
    }
}

/// The seahash digest of a tick, an object id and a client id, in that
/// order. seahash is deterministic and unseeded, so client and server
/// computing this over the same values derive the same digest; that is what
/// lets a predicted projectile be matched with the server's replica.
pub uninterp spec fn spawn_digest(tick: u16, object_id: u64, client_id: u64) -> u64;

/// Relies on seahash::SeaHasher: built by `new` with fixed seeds, fed
/// little-endian bytes by the integer `Hash` impls, and finished into a
/// value that is a function of those bytes alone.
#[verifier::external_body]
fn compute_hash(object_id: u64, client_id: u64, tick: u16) -> (r: u64)
    ensures
        r == spawn_digest(tick, object_id, client_id),
{
    let mut hasher = seahash::SeaHasher::new();

    std::hash::Hash::hash(&tick, &mut hasher);
    std::hash::Hash::hash(&object_id, &mut hasher);
    std::hash::Hash::hash(&client_id, &mut hasher);

    std::hash::Hasher::finish(&hasher)
}

/// Everything deterministic about one volley of two projectiles: the
/// prespawn hash of each, and the lifetime window both are created with.
#[derive(Clone, Copy, Debug, PartialEq, Eq, Structural)]
pub struct VolleyPlan {
    pub left_hash: u64,
    pub right_hash: u64,
    pub despawn_after: DespawnAfter,
}

/// The volley fired at `tick` by `shooter`: a function of the tick and the
/// shooter's id alone, which is what makes a client's predicted projectiles
/// and the server's replicas carry the same identities.
pub open spec fn spec_volley_plan(tick: u16, shooter: Shooter) -> VolleyPlan {
    VolleyPlan {
        left_hash: spawn_digest(tick, crate::LEFT_PROJECTILE_ID, shooter.spec_id()),
        right_hash: spawn_digest(tick, crate::RIGHT_PROJECTILE_ID, shooter.spec_id()),
        despawn_after: DespawnAfter {
            created_at_tick: tick,
            lifetime_ticks: PROJECTILE_LIFETIME_TICKS,
            is_server_controlled: false,
        },
    }
}

/// Whether a weapon may fire at `tick`: the trigger is held and the
/// cooldown since the last shot has elapsed.
pub open spec fn spec_can_fire(w: ShipWeapon, tick: u16, fire_pressed: bool) -> bool {
    fire_pressed && tick > w.last_fired_tick + w.cooldown_ticks
}

/// Gate one fire attempt and, when it passes, plan the volley. On success
/// the weapon records the tick it fired on, and the plan carries the
/// prespawn hash of each projectile — the left and right object ids mixed
/// with the shooter's id and the tick — plus the lifetime window both are
/// created with. On failure the weapon is untouched.
pub fn fire_volley(weapon: &mut ShipWeapon, tick: u16, fire_pressed: bool, shooter: &Shooter) -> (r:
    Option<VolleyPlan>)
    requires
        old(weapon).last_fired_tick + old(weapon).cooldown_ticks <= u16::MAX,
    ensures
        r is Some <==> spec_can_fire(*old(weapon), tick, fire_pressed),
        r matches Some(plan) ==> {
            &&& *final(weapon) == (ShipWeapon {
                cooldown_ticks: old(weapon).cooldown_ticks,
                last_fired_tick: tick,
            })
            &&& plan == spec_volley_plan(tick, *shooter)
        },
        r is None ==> *final(weapon) == *old(weapon),
{
    if !(fire_pressed && tick > weapon.last_fired_tick + weapon.cooldown_ticks) {
        return None;
    }

    weapon.last_fired_tick = tick;

    let shooter_id = shooter.id();
    let left_hash = compute_hash(crate::LEFT_PROJECTILE_ID, shooter_id, tick);
    let right_hash = compute_hash(crate::RIGHT_PROJECTILE_ID, shooter_id, tick);

    Some(VolleyPlan {
        left_hash,
        right_hash,
        despawn_after: DespawnAfter {
            created_at_tick: tick,
            lifetime_ticks: PROJECTILE_LIFETIME_TICKS,
            is_server_controlled: false,
        },
    })
}

/// A weapon that has just fired at tick `t` cannot fire again on any tick
/// up to and including `t` plus its cooldown, whatever the trigger does.
pub proof fn lemma_cooldown_blocks_refire(w: ShipWeapon, t: u16, t2: u16, fire_pressed: bool)
    requires
        w.last_fired_tick == t,
        t2 <= t + w.cooldown_ticks,
    ensures
        !spec_can_fire(w, t2, fire_pressed),
{
}

/// Two peers that agree on the tick and on the shooter's id plan the same
/// volley, hashes and lifetime window alike, whatever else differs between
/// them. This is what reconciles a client's predicted projectiles with the
/// server's replicas.
pub proof fn lemma_prespawn_reconciliation(tick: u16, s1: Shooter, s2: Shooter)
    requires
        s1.spec_id() == s2.spec_id(),
    ensures
        spec_volley_plan(tick, s1) == spec_volley_plan(tick, s2),
{
}

} // verus!
