use spacetrader::client::CooldownOutcome;
use spacetrader::ship::{
    CargoItem, ExtractAction, ExtractOutcome, ExtractResult, SellLineResult, SellResponse, Ship,
};

#[test]
fn three_cooldowns_then_exhaustion() {
    // The loop sleeps exactly three times, one time-unit each, then returns
    // terminal success without another request.
    let script = vec![
        ExtractOutcome::Failed(CooldownOutcome::Cooldown { remaining_seconds: 1 }),
        ExtractOutcome::Failed(CooldownOutcome::Cooldown { remaining_seconds: 1 }),
        ExtractOutcome::Failed(CooldownOutcome::Cooldown { remaining_seconds: 1 }),
        ExtractOutcome::Failed(CooldownOutcome::ResourceExhausted),
        ExtractOutcome::Failed(CooldownOutcome::Cooldown { remaining_seconds: 9 }),
    ];
    let run = Ship::extract_till_full(&script);
    assert_eq!(run.sleeps, vec![1, 1, 1]);
    assert_eq!(run.requests, 4);
    assert_eq!(run.result, ExtractResult::Exhausted);
}

#[test]
fn successful_extraction_sleeps_the_server_cooldown() {
    let script = vec![
        ExtractOutcome::Extracted { units: 10, capacity: 60, cooldown_seconds: 70 },
        ExtractOutcome::Extracted { units: 20, capacity: 60, cooldown_seconds: 80 },
        ExtractOutcome::Extracted { units: 58, capacity: 60, cooldown_seconds: 70 },
    ];
    let run = Ship::extract_till_full(&script);
    // The third response leaves less than the safety margin free, so the
    // loop stops there.
    assert_eq!(run.sleeps, vec![70, 80]);
    assert_eq!(run.requests, 3);
    assert_eq!(run.result, ExtractResult::Exhausted);
}

#[test]
fn fatal_outcome_escalates() {
    let script = vec![
        ExtractOutcome::Failed(CooldownOutcome::Cooldown { remaining_seconds: 2 }),
        ExtractOutcome::Failed(CooldownOutcome::Fatal { body: "boom".to_owned() }),
    ];
    let run = Ship::extract_till_full(&script);
    assert_eq!(run.sleeps, vec![2]);
    assert_eq!(run.requests, 2);
    assert_eq!(run.result, ExtractResult::Fatal { body: "boom".to_owned() });
}

#[test]
fn script_can_run_out_while_attempting() {
    let script = vec![ExtractOutcome::Failed(CooldownOutcome::Cooldown { remaining_seconds: 4 })];
    let run = Ship::extract_till_full(&script);
    assert_eq!(run.sleeps, vec![4]);
    assert_eq!(run.requests, 1);
    assert_eq!(run.result, ExtractResult::Attempting);
}

#[test]
fn extract_step_margin() {
    let act = Ship::extract_step(&ExtractOutcome::Extracted {
        units: 98,
        capacity: 100,
        cooldown_seconds: 5,
    });
    assert_eq!(act, ExtractAction::Complete);
    let act = Ship::extract_step(&ExtractOutcome::Extracted {
        units: 97,
        capacity: 100,
        cooldown_seconds: 5,
    });
    assert_eq!(act, ExtractAction::SleepThenRetry { seconds: 5 });
}

#[test]
fn is_cargo_full_compares_units_to_capacity() {
    assert!(Ship::is_cargo_full(30, 30));
    assert!(!Ship::is_cargo_full(29, 30));
}

fn inventory3() -> Vec<CargoItem> {
    vec![
        CargoItem { symbol: "IRON_ORE".to_owned(), units: 7 },
        CargoItem { symbol: "ANTIMATTER".to_owned(), units: 1 },
        CargoItem { symbol: "COPPER_ORE".to_owned(), units: 4 },
    ]
}

#[test]
fn not_sellable_line_is_isolated() {
    // A "not sellable" failure on one cargo line must still attempt the
    // remaining lines.
    let not_sellable = "{\"error\":{\"message\":\"Market sell failed.\",\"code\":4602,\"data\":{\"waypointSymbol\":\"X1-ZA40-15970B\",\"tradeSymbol\":\"ANTIMATTER\"}}}";
    let responses = vec![
        SellResponse::Sold { units: 7, total_price: 140 },
        SellResponse::Rejected { body: not_sellable.to_owned() },
        SellResponse::Sold { units: 4, total_price: 60 },
    ];
    let lines = Ship::sell_all(&inventory3(), &responses);
    assert_eq!(lines.len(), 3);
    assert_eq!(lines[0], SellLineResult::Sold { units: 7, total_price: 140 });
    assert_eq!(
        lines[1],
        SellLineResult::SkippedNotSellable { trade_symbol: "ANTIMATTER".to_owned() }
    );
    assert_eq!(lines[2], SellLineResult::Sold { units: 4, total_price: 60 });
}

#[test]
fn units_not_held_line_is_isolated() {
    let not_held = "{\"error\":{\"message\":\"Failed t COPPER_ORE.\",\"code\":4219,\"data\":{\"shipSymbol\":\"MXZ-3\",\"tradeSymbol\":\"COPPER_ORE\",\"cargoUnits\":0,\"unitsToRemove\":7}}}";
    let responses = vec![
        SellResponse::Rejected { body: not_held.to_owned() },
        SellResponse::Sold { units: 1, total_price: 9 },
        SellResponse::Sold { units: 4, total_price: 60 },
    ];
    let lines = Ship::sell_all(&inventory3(), &responses);
    assert_eq!(lines.len(), 3);
    assert_eq!(
        lines[0],
        SellLineResult::SkippedNotHeld {
            trade_symbol: "COPPER_ORE".to_owned(),
            cargo_units: 0,
            units_to_remove: 7,
        }
    );
}

#[test]
fn unrecognized_sell_error_stops_the_operation() {
    let responses = vec![
        SellResponse::Sold { units: 7, total_price: 140 },
        SellResponse::Rejected { body: "{\"error\":broken".to_owned() },
        SellResponse::Sold { units: 4, total_price: 60 },
    ];
    let lines = Ship::sell_all(&inventory3(), &responses);
    assert_eq!(lines.len(), 2);
    assert_eq!(lines[0], SellLineResult::Sold { units: 7, total_price: 140 });
    assert_eq!(lines[1], SellLineResult::Fatal { body: "{\"error\":broken".to_owned() });
}
