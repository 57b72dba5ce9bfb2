//! Per-ship managers and the waypoint searches they run: find the first
//! waypoint of a wanted kind, or the first carrying a wanted trait, in a
//! system's waypoint list.
use vstd::prelude::*;

verus! {

/// The kind of a waypoint.
#[derive(Clone, Copy, Debug, PartialEq, Eq, Structural)]
pub enum WaypointType {
    Planet,
    GasGiant,
    Moon,
    OrbitalStation,
    JumpGate,
    AsteroidField,
    Nebula,
    DebrisField,
    GravityWell,
}

/// The waypoint traits the workers act on.
#[derive(Clone, Copy, Debug, PartialEq, Eq, Structural)]
pub enum WaypointTraitSymbol {
    Shipyard,
    Marketplace,
    Uncharted,
}

/// One trait attached to a waypoint.
#[derive(Clone, Copy, Debug, PartialEq, Eq, Structural)]
pub struct WaypointTrait {
    pub symbol: WaypointTraitSymbol,
}

/// What the managers read of a waypoint: its symbol, its kind, and its
/// traits.
#[derive(Debug, PartialEq)]
pub struct Waypoint {
    pub symbol: String,
    pub waypoint_type: WaypointType,
    pub traits: Vec<WaypointTrait>,
}

/// The waypoint carries the given trait.
pub open spec fn waypoint_has_trait(w: Waypoint, t: WaypointTraitSymbol) -> bool {
    exists|k: int| 0 <= k < w.traits@.len() && w.traits@[k].symbol == t
}

/// Index of the first waypoint of the given kind, from `k` on.
pub open spec fn spec_first_of_type(ws: Seq<Waypoint>, t: WaypointType, k: int) -> Option<int>
    decreases ws.len() - k,
{
    if !(0 <= k < ws.len()) {
        None
    } else if ws[k].waypoint_type == t {
        Some(k)
    } else {
        spec_first_of_type(ws, t, k + 1)
    }
}

/// Index of the first waypoint carrying the given trait, from `k` on.
pub open spec fn spec_first_with_trait(
    ws: Seq<Waypoint>,
    t: WaypointTraitSymbol,
    k: int,
) -> Option<int>
    decreases ws.len() - k,
{
    if !(0 <= k < ws.len()) {
        None
    } else if waypoint_has_trait(ws[k], t) {
        Some(k)
    } else {
        spec_first_with_trait(ws, t, k + 1)
    }
}

/// Hands out one manager per worker; the managers share the governed
/// request capability by reference, so the budget stays global.
#[derive(Clone)]
pub struct ManagerFactory {}

impl ManagerFactory {
    pub fn new() -> (r: ManagerFactory) {
        ManagerFactory {}
    }

    /// A manager labelled with the worker's identity.
    pub fn get(&self, log_context: &str) -> (r: Manager)
        ensures
            r.log_context@ == log_context@,
    {
        Manager::new(log_context)
    }
}

/// One worker's manager: it owns nothing beyond its log label; the
/// underlying client and limiter are shared by reference and live for the
/// process.
pub struct Manager {
    pub log_context: String,
}

impl Manager {
    fn new(log_context: &str) -> (r: Manager)
        ensures
            r.log_context@ == log_context@,
    {
        Manager { log_context: log_context.to_owned() }
    }

    /// The first waypoint of the wanted kind, if the system has one.
    pub fn find_waypoint_for_type<'a>(
        &self,
        waypoints: &'a Vec<Waypoint>,
        waypoint_type: WaypointType,
    ) -> (r: Option<&'a Waypoint>)
        ensures
            match spec_first_of_type(waypoints@, waypoint_type, 0) {
                Some(i) => r matches Some(w) && *w == waypoints@[i],
                None => r is None,
            },
    {
        let mut k: usize = 0;
        while k < waypoints.len()
            invariant
                0 <= k <= waypoints@.len(),
                spec_first_of_type(waypoints@, waypoint_type, 0) == spec_first_of_type(
                    waypoints@,
                    waypoint_type,
                    k as int,
                ),
            decreases waypoints@.len() - k,
        {
            if waypoints[k].waypoint_type == waypoint_type {
                return Some(&waypoints[k]);
            }
            k = k + 1;
        }
        None
    }

    /// The first waypoint carrying the wanted trait, if the system has one.
    pub fn find_waypoint_for_trait<'a>(
        &self,
        waypoints: &'a Vec<Waypoint>,
        waypoint_trait: WaypointTraitSymbol,
    ) -> (r: Option<&'a Waypoint>)
        ensures
            match spec_first_with_trait(waypoints@, waypoint_trait, 0) {
                Some(i) => r matches Some(w) && *w == waypoints@[i],
                None => r is None,
            },
    {
        let mut k: usize = 0;
        while k < waypoints.len()
            invariant
                0 <= k <= waypoints@.len(),
                spec_first_with_trait(waypoints@, waypoint_trait, 0) == spec_first_with_trait(
                    waypoints@,
                    waypoint_trait,
                    k as int,
                ),
            decreases waypoints@.len() - k,
        {
            if has_trait(&waypoints[k], waypoint_trait) {
                return Some(&waypoints[k]);
            }
            k = k + 1;
        }
        None
    }
}

/// Whether the waypoint carries the given trait.
fn has_trait(w: &Waypoint, t: WaypointTraitSymbol) -> (r: bool)
    ensures
        r == waypoint_has_trait(*w, t),
{
    let mut k: usize = 0;
    while k < w.traits.len()
        invariant
            0 <= k <= w.traits@.len(),
            forall|j: int| 0 <= j < k ==> w.traits@[j].symbol != t,
        decreases w.traits@.len() - k,
    {
        if w.traits[k].symbol == t {
            proof {
                assert(waypoint_has_trait(*w, t)) by {
                    assert(w.traits@[k as int].symbol == t);
                }
            }
            return true;
        }
        k = k + 1;
    }
    false
}

} // verus!
