//! Plain data records describing API resources that the workers read.
use vstd::prelude::*;

verus! {

/// Payments attached to a contract.
#[derive(Clone, Copy, Debug, PartialEq, Eq, Structural)]
pub struct ContractPayment {
    /// Credits received up front for accepting the contract.
    pub on_accepted: i32,
    /// Credits received when the contract is fulfilled.
    pub on_fulfilled: i32,
}

impl ContractPayment {
    pub fn new(on_accepted: i32, on_fulfilled: i32) -> (r: ContractPayment)
        ensures
            r.on_accepted == on_accepted,
            r.on_fulfilled == on_fulfilled,
    {
        ContractPayment { on_accepted, on_fulfilled }
    }
}

/// Global game statistics reported by the status endpoint.
#[derive(Clone, Copy, Debug, PartialEq, Eq, Structural)]
pub struct GetStatus200ResponseStats {
    /// Number of registered agents in the game.
    pub agents: i32,
    /// Total number of ships in the game.
    pub ships: i32,
    /// Total number of systems in the game.
    pub systems: i32,
    /// Total number of waypoints in the game.
    pub waypoints: i32,
}

impl GetStatus200ResponseStats {
    pub fn new(agents: i32, ships: i32, systems: i32, waypoints: i32) -> (r:
        GetStatus200ResponseStats)
        ensures
            r.agents == agents,
            r.ships == ships,
            r.systems == systems,
            r.waypoints == waypoints,
    {
        GetStatus200ResponseStats { agents, ships, systems, waypoints }
    }
}

/// What a ship scan reports of the ship's registration.
#[derive(Debug, PartialEq)]
pub struct ShipRegistration {
    pub name: String,
    pub faction_symbol: String,
    pub role: String,
}

/// One leg of a ship's route: when it departs and when it arrives, both
/// RFC 3339 instants.
#[derive(Debug, PartialEq)]
pub struct ShipNavRoute {
    pub departure_time: String,
    pub arrival: String,
}

/// What the workers read of a ship's navigation state.
#[derive(Debug, PartialEq)]
pub struct ShipNav {
    pub system_symbol: String,
    pub waypoint_symbol: String,
    pub route: ShipNavRoute,
}

/// What a ship scan reports of the ship's engine.
#[derive(Debug, PartialEq)]
pub struct ScannedShipEngine {
    pub symbol: String,
}

/// A ship as a scanner detects it.
#[derive(Debug, PartialEq)]
pub struct ScannedShip {
    /// The globally unique identifier of the ship.
    pub symbol: String,
    pub registration: ShipRegistration,
    pub nav: ShipNav,
    pub engine: ScannedShipEngine,
}

impl ScannedShip {
    pub fn new(
        symbol: String,
        registration: ShipRegistration,
        nav: ShipNav,
        engine: ScannedShipEngine,
    ) -> (r: ScannedShip)
        ensures
            r.symbol == symbol,
            r.registration == registration,
            r.nav == nav,
            r.engine == engine,
    {
        ScannedShip { symbol, registration, nav, engine }
    }
}

} // verus!
