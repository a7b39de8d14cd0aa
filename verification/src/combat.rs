//! Collision-to-damage resolution: picking the projectile and its target
//! out of a contact pair, the penetration gate, and what a hit does to a
//! ship's health on the client and on the server.

use vstd::prelude::*;

verus! {

/// A projectile component: the entity that fired it, so that it never
/// damages its own shooter.
#[derive(Clone, Copy, Debug, PartialEq, Eq, Structural)]
pub struct Projectile {
    pub owner: u64,
}

/// A ship's hit points.
#[derive(Clone, Copy, Debug, PartialEq, Eq, Structural)]
pub struct Health {
    pub current: u16,
    pub max: u16,
}

/// What a projectile hit does to a ship.
#[derive(Clone, Copy, Debug, PartialEq, Eq, Structural)]
pub enum ShipFate {
    /// The hit consumed the last hit point: the ship despawns, exactly once,
    /// even if several projectiles connect on the same tick.
    Destroyed,
    /// The ship survives with one hit point fewer.
    Damaged,
}

/// The fate a hit deals to a ship with the given health.
pub open spec fn spec_hit_fate(h: Health) -> ShipFate {
    if h.current == 1 {
        ShipFate::Destroyed
    } else {
        ShipFate::Damaged
    }
}

impl Health {
    /// Health at its cap, as a freshly spawned ship starts out.
    pub fn full(max: u16) -> (h: Health)
        ensures
            h == (Health { current: max, max }),
    {
        Health { current: max, max }
    }

    /// Apply one projectile hit. A ship on its last hit point is destroyed
    /// and its health left as is (the despawn must happen exactly once);
    /// otherwise one hit point is deducted.
    pub fn apply_projectile_hit(&mut self) -> (fate: ShipFate)
        requires
            old(self).current >= 1,
        ensures
            fate == spec_hit_fate(*old(self)),
            fate is Destroyed ==> *final(self) == *old(self),
            fate is Damaged ==> *final(self) == (Health {
                current: (old(self).current - 1) as u16,
                max: old(self).max,
            }),
    {
        if self.current == 1 {
            ShipFate::Destroyed
        } else {
            self.current = self.current - 1;
            ShipFate::Damaged
        }
    }
}

/// One contact manifold of a collision, reduced to what damage resolution
/// reads from it: for each contact point, whether it penetrates.
#[derive(Clone, Debug)]
pub struct ContactManifold {
    pub points_penetrating: Vec<bool>,
}

/// A manifold counts as penetrating when any of its contact points does.
pub open spec fn spec_manifold_penetrating(m: ContactManifold) -> bool {
    exists|j: int| 0 <= j < m.points_penetrating@.len() && m.points_penetrating@[j]
}

/// A contact pair from the physics step: the two collider entities, the
/// body entity each collider hangs off (a collider may sit on a child of
/// its rigid body, or on none), and the contact manifolds.
#[derive(Clone, Debug)]
pub struct ContactPair {
    pub collider1: u64,
    pub collider2: u64,
    pub body1: Option<u64>,
    pub body2: Option<u64>,
    pub manifolds: Vec<ContactManifold>,
}

/// A pair counts as penetrating when some manifold does.
pub open spec fn spec_pair_penetrating(p: ContactPair) -> bool {
    exists|i: int|
        0 <= i < p.manifolds@.len() && spec_manifold_penetrating(p.manifolds@[i])
}

fn manifold_penetrating(m: &ContactManifold) -> (r: bool)
    ensures
        r == spec_manifold_penetrating(*m),
{
    let mut j: usize = 0;
    while j < m.points_penetrating.len()
        invariant
            j <= m.points_penetrating@.len(),
            forall|k: int| 0 <= k < j ==> !m.points_penetrating@[k],
        decreases m.points_penetrating@.len() - j,
    {
        if m.points_penetrating[j] {
            return true;
        }
        j = j + 1;
    }
    false
}

/// Whether any contact point of any manifold of the pair penetrates.
pub fn pair_penetrating(p: &ContactPair) -> (r: bool)
    ensures
        r == spec_pair_penetrating(*p),
{
    let mut i: usize = 0;
    while i < p.manifolds.len()
        invariant
            i <= p.manifolds@.len(),
            forall|k: int| 0 <= k < i ==> !spec_manifold_penetrating(p.manifolds@[k]),
        decreases p.manifolds@.len() - i,
    {
        if manifold_penetrating(&p.manifolds[i]) {
            return true;
        }
        i = i + 1;
    }
    false
}

/// A contact pair recognised as a projectile striking something: the
/// projectile entity, the body entity it struck, and the projectile's
/// owner.
#[derive(Clone, Copy, Debug, PartialEq, Eq, Structural)]
pub struct ProjectileContact {
    pub projectile_entity: u64,
    pub target: u64,
    pub owner: u64,
}

/// Which side of a contact pair is the projectile. `projectile1` and
/// `projectile2` are the projectile components of the two collider
/// entities, where they have one. The first collider is preferred; either
/// way the struck side must have a body entity, else the contact is
/// dropped.
pub open spec fn spec_identify_projectile_contact(
    pair: ContactPair,
    projectile1: Option<Projectile>,
    projectile2: Option<Projectile>,
) -> Option<ProjectileContact> {
    match projectile1 {
        Option::Some(p) => match pair.body2 {
            Option::Some(target) => Option::Some(ProjectileContact {
                projectile_entity: pair.collider1,
                target,
                owner: p.owner,
            }),
            Option::None => Option::None,
        },
        Option::None => match projectile2 {
            Option::Some(p) => match pair.body1 {
                Option::Some(target) => Option::Some(ProjectileContact {
                    projectile_entity: pair.collider2,
                    target,
                    owner: p.owner,
                }),
                Option::None => Option::None,
            },
            Option::None => Option::None,
        },
    }
}

/// Pick the projectile and its target out of a contact pair, if the pair
/// involves a projectile at all.
pub fn identify_projectile_contact(
    pair: &ContactPair,
    projectile1: Option<Projectile>,
    projectile2: Option<Projectile>,
) -> (r: Option<ProjectileContact>)
    ensures
        r == spec_identify_projectile_contact(*pair, projectile1, projectile2),
{
    if let Option::Some(p) = projectile1 {
        match pair.body2 {
            Option::Some(target) => Option::Some(ProjectileContact {
                projectile_entity: pair.collider1,
                target,
                owner: p.owner,
            }),
            Option::None => Option::None,
        }
    } else if let Option::Some(p) = projectile2 {
        match pair.body1 {
            Option::Some(target) => Option::Some(ProjectileContact {
                projectile_entity: pair.collider2,
                target,
                owner: p.owner,
            }),
            Option::None => Option::None,
        }
    } else {
        Option::None
    }
}

/// What a projectile contact comes to, on this peer.
#[derive(Clone, Copy, Debug, PartialEq, Eq, Structural)]
pub enum ContactOutcome {
    /// Self-hit, or no penetrating contact point: nothing happens.
    Ignored,
    /// A client saw its projectile strike a ship: it only disables the
    /// projectile's collider and leaves despawn and damage to the server.
    ClientShipHit,
    /// The server saw a projectile strike a ship: it despawns the
    /// projectile, deals the fate to the ship, and broadcasts the hit.
    ServerShipHit { fate: ShipFate },
    /// A client saw its projectile strike something other than a ship: it
    /// disables and hides the projectile and plays the impact effect.
    ClientObstacleHit,
    /// The server saw a projectile strike something other than a ship: it
    /// disables and hides the projectile, leaving the despawn to the
    /// lifetime window so clients still get to play the impact effect.
    ServerObstacleHit,
}

/// The outcome of one identified projectile contact, given the target's
/// health where the target is a ship.
pub open spec fn spec_resolve_projectile_contact(
    contact: ProjectileContact,
    pair: ContactPair,
    target_health: Option<Health>,
    is_client: bool,
) -> ContactOutcome {
    if contact.owner == contact.target {
        ContactOutcome::Ignored
    } else if !spec_pair_penetrating(pair) {
        ContactOutcome::Ignored
    } else {
        match target_health {
            Option::Some(h) => if is_client {
                ContactOutcome::ClientShipHit
            } else {
                ContactOutcome::ServerShipHit { fate: spec_hit_fate(h) }
            },
            Option::None => if is_client {
                ContactOutcome::ClientObstacleHit
            } else {
                ContactOutcome::ServerObstacleHit
            },
        }
    }
}

/// Resolve one identified projectile contact. A projectile never harms its
/// own shooter, and only a contact with a penetrating point counts; the
/// rest depends on whether the target is a ship (its health is then given)
/// and on which peer this is.
pub fn resolve_projectile_contact(
    contact: &ProjectileContact,
    pair: &ContactPair,
    target_health: Option<Health>,
    is_client: bool,
) -> (r: ContactOutcome)
    ensures
        r == spec_resolve_projectile_contact(*contact, *pair, target_health, is_client),
{
    if contact.owner == contact.target {
        return ContactOutcome::Ignored;
    }

    if pair.manifolds.len() == 0 {
        return ContactOutcome::Ignored;
    }

    if !pair_penetrating(pair) {
        return ContactOutcome::Ignored;
    }

    match target_health {
        Option::Some(h) => if is_client {
            ContactOutcome::ClientShipHit
        } else {
            ContactOutcome::ServerShipHit { fate: if h.current == 1 {
                ShipFate::Destroyed
            } else {
                ShipFate::Damaged
            } }
        },
        Option::None => if is_client {
            ContactOutcome::ClientObstacleHit
        } else {
            ContactOutcome::ServerObstacleHit
        },
    }
}

/// One contact pair taken end to end: which side is the projectile, and
/// what the contact comes to. `health1` and `health2` are the ship healths
/// of the entities `body1` and `body2` point at, where they are ships; the
/// one belonging to the struck side is the one that counts.
pub open spec fn spec_process_contact_pair(
    pair: ContactPair,
    projectile1: Option<Projectile>,
    projectile2: Option<Projectile>,
    health1: Option<Health>,
    health2: Option<Health>,
    is_client: bool,
) -> Option<(ProjectileContact, ContactOutcome)> {
    match spec_identify_projectile_contact(pair, projectile1, projectile2) {
        Option::Some(contact) => {
            let target_health = if projectile1 is Some {
                health2
            } else {
                health1
            };
            Option::Some(
                (contact, spec_resolve_projectile_contact(contact, pair, target_health, is_client)),
            )
        },
        Option::None => Option::None,
    }
}

/// Take one contact pair of the physics step end to end: identify the
/// projectile and its target, then resolve what the contact does on this
/// peer. Returns nothing when the pair involves no projectile or the struck
/// side has no body.
pub fn process_contact_pair(
    pair: &ContactPair,
    projectile1: Option<Projectile>,
    projectile2: Option<Projectile>,
    health1: Option<Health>,
    health2: Option<Health>,
    is_client: bool,
) -> (r: Option<(ProjectileContact, ContactOutcome)>)
    ensures
        r == spec_process_contact_pair(*pair, projectile1, projectile2, health1, health2, is_client),
{
    let contact = match identify_projectile_contact(pair, projectile1, projectile2) {
        Option::Some(c) => c,
        Option::None => {
            return Option::None;
        },
    };

    let target_health = if projectile1.is_some() {
        health2
    } else {
        health1
    };

    let outcome = resolve_projectile_contact(&contact, pair, target_health, is_client);
    Option::Some((contact, outcome))
}

/// From a contact pair between bodies, the ship and the thing it touched:
/// the first body where it is a ship, else the second; dropped when the
/// touched side has no body or neither body is a ship.
pub open spec fn spec_classify_ship_contact(
    body1: Option<u64>,
    body2: Option<u64>,
    body1_is_ship: bool,
    body2_is_ship: bool,
) -> Option<(u64, u64)> {
    match body1 {
        Option::Some(e1) => if body1_is_ship {
            match body2 {
                Option::Some(e2) => Option::Some((e1, e2)),
                Option::None => Option::None,
            }
        } else {
            match body2 {
                Option::Some(e2) => if body2_is_ship {
                    Option::Some((e2, e1))
                } else {
                    Option::None
                },
                Option::None => Option::None,
            }
        },
        Option::None => Option::None,
    }
}

/// Pick the ship and the other body out of a ship contact pair, if one of
/// the bodies is a ship at all.
pub fn classify_ship_contact(
    body1: Option<u64>,
    body2: Option<u64>,
    body1_is_ship: bool,
    body2_is_ship: bool,
) -> (r: Option<(u64, u64)>)
    ensures
        r == spec_classify_ship_contact(body1, body2, body1_is_ship, body2_is_ship),
{
    match body1 {
        Option::Some(e1) => if body1_is_ship {
            match body2 {
                Option::Some(e2) => Option::Some((e1, e2)),
                Option::None => Option::None,
            }
        } else {
            match body2 {
                Option::Some(e2) => if body2_is_ship {
                    Option::Some((e2, e1))
                } else {
                    Option::None
                },
                Option::None => Option::None,
            }
        },
        Option::None => Option::None,
    }
}

} // verus!
