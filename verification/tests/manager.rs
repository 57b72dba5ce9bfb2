use spacetrader::manager::{
    ManagerFactory, Waypoint, WaypointTrait, WaypointTraitSymbol, WaypointType,
};
use spacetrader::models::{
    ContractPayment, GetStatus200ResponseStats, ScannedShip, ScannedShipEngine, ShipNav,
    ShipNavRoute, ShipRegistration,
};
use spacetrader::setup::Setup;

fn sample_waypoints() -> Vec<Waypoint> {
    vec![
        Waypoint {
            symbol: "X1-A".to_owned(),
            waypoint_type: WaypointType::Planet,
            traits: vec![WaypointTrait { symbol: WaypointTraitSymbol::Marketplace }],
        },
        Waypoint {
            symbol: "X1-B".to_owned(),
            waypoint_type: WaypointType::AsteroidField,
            traits: vec![],
        },
        Waypoint {
            symbol: "X1-C".to_owned(),
            waypoint_type: WaypointType::OrbitalStation,
            traits: vec![
                WaypointTrait { symbol: WaypointTraitSymbol::Marketplace },
                WaypointTrait { symbol: WaypointTraitSymbol::Shipyard },
            ],
        },
        Waypoint {
            symbol: "X1-D".to_owned(),
            waypoint_type: WaypointType::AsteroidField,
            traits: vec![],
        },
    ]
}

#[test]
fn finds_first_waypoint_of_type() {
    let manager = ManagerFactory::new().get("TEST");
    let waypoints = sample_waypoints();
    let found = manager
        .find_waypoint_for_type(&waypoints, WaypointType::AsteroidField)
        .unwrap();
    assert_eq!(found.symbol, "X1-B".to_owned());
    assert!(manager
        .find_waypoint_for_type(&waypoints, WaypointType::JumpGate)
        .is_none());
}

#[test]
fn finds_first_waypoint_with_trait() {
    let manager = ManagerFactory::new().get("TEST");
    let waypoints = sample_waypoints();
    let found = manager
        .find_waypoint_for_trait(&waypoints, WaypointTraitSymbol::Shipyard)
        .unwrap();
    assert_eq!(found.symbol, "X1-C".to_owned());
    let market = manager
        .find_waypoint_for_trait(&waypoints, WaypointTraitSymbol::Marketplace)
        .unwrap();
    assert_eq!(market.symbol, "X1-A".to_owned());
    assert!(manager
        .find_waypoint_for_trait(&waypoints, WaypointTraitSymbol::Uncharted)
        .is_none());
}

#[test]
fn manager_keeps_its_log_label() {
    let manager = ManagerFactory::new().get("MXZ-7");
    assert_eq!(manager.log_context, "MXZ-7".to_owned());
}

#[test]
fn setup_waits_for_the_slowest_ship() {
    assert_eq!(Setup::max_wait(&vec![120, 45, 300, 7]), Some(300));
    assert_eq!(Setup::max_wait(&vec![9]), Some(9));
    assert_eq!(Setup::max_wait(&vec![]), None);
}

#[test]
fn contract_payment_holds_both_amounts() {
    let p = ContractPayment::new(5000, 25000);
    assert_eq!(p.on_accepted, 5000);
    assert_eq!(p.on_fulfilled, 25000);
}

#[test]
fn status_stats_hold_all_counts() {
    let s = GetStatus200ResponseStats::new(10, 20, 30, 40);
    assert_eq!(s.agents, 10);
    assert_eq!(s.ships, 20);
    assert_eq!(s.systems, 30);
    assert_eq!(s.waypoints, 40);
}

#[test]
fn scanned_ship_keeps_its_parts() {
    let ship = ScannedShip::new(
        "MXZ-2".to_owned(),
        ShipRegistration {
            name: "MXZ-2".to_owned(),
            faction_symbol: "COSMIC".to_owned(),
            role: "EXCAVATOR".to_owned(),
        },
        ShipNav {
            system_symbol: "X1-ZA40".to_owned(),
            waypoint_symbol: "X1-ZA40-15970B".to_owned(),
            route: ShipNavRoute {
                departure_time: "2023-01-01T00:00:00Z".to_owned(),
                arrival: "2023-01-01T00:01:40Z".to_owned(),
            },
        },
        ScannedShipEngine { symbol: "ENGINE_IMPULSE_DRIVE_I".to_owned() },
    );
    assert_eq!(ship.symbol, "MXZ-2".to_owned());
    assert_eq!(ship.registration.role, "EXCAVATOR".to_owned());
    assert_eq!(ship.nav.system_symbol, "X1-ZA40".to_owned());
    assert_eq!(ship.engine.symbol, "ENGINE_IMPULSE_DRIVE_I".to_owned());
}
