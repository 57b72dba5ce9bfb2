use spacetrader::client::{
    classify_extract, decode_extract_error, decode_sell_error, travel_eta, CooldownOutcome,
    ExtractResourceError, SellCargoError, ERROR_CODE_CARGO_FULL, ERROR_CODE_COOLDOWN,
};

#[test]
fn deserialise_sell_cargo_error_not_sellable() {
    let str = "{\"error\":{\"message\":\"Market sell failed. Trade good ANTIMATTER is not available at X1-ZA40-15970B.\",\"code\":4602,\"data\":{\"waypointSymbol\":\"X1-ZA40-15970B\",\"tradeSymbol\":\"ANTIMATTER\"}}}";

    let err = decode_sell_error(str).unwrap();

    match err.error.data {
        SellCargoError::NotFoundError(_) => panic!(),
        SellCargoError::NotSellableError(e) => {
            assert_eq!(e.waypoint_symbol, "X1-ZA40-15970B".to_owned())
        }
    }
}

#[test]
fn deserialise_sell_cargo_error() {
    let str = "{\"error\":{\"message\":\"Failed t COPPER_ORE.\",\"code\":4219,\"data\":{\"shipSymbol\":\"MXZ-3\",\"tradeSymbol\":\"COPPER_ORE\",\"cargoUnits\":0,\"unitsToRemove\":7}}}";

    let err = decode_sell_error(str).unwrap();

    match err.error.data {
        SellCargoError::NotFoundError(cargo) => {
            assert_eq!(cargo.cargo_units, 0)
        }
        SellCargoError::NotSellableError(_) => panic!(),
    }
}

#[test]
fn deserialise_cargo() {
    let str = "{\"error\":{\"message\":\"Failed of available space.\",\"code\":4228,\"data\":{\"shipSymbol\":\"MXZ-2\"}}}";

    let err = decode_extract_error(str).unwrap();

    match err.error.data {
        ExtractResourceError::Cargo { .. } => (),
        ExtractResourceError::Cooldown { .. } => panic!(),
    }
}

#[test]
fn deserialise_cooldown() {
    let str = "{\"error\":{\"message\":\"cooldown.\",\"code\":4000,\"data\":{\"cooldown\":{\"shipSymbol\":\"MXZ-2\", \"expiration\":\"bla\", \"remainingSeconds\": 5, \"totalSeconds\": 10}}}}";

    let err = decode_extract_error(str).unwrap();

    match err.error.data {
        ExtractResourceError::Cargo { .. } => panic!(),
        ExtractResourceError::Cooldown { cooldown, .. } => {
            assert_eq!(cooldown.remaining_seconds, 5);
        }
    }
}

#[test]
fn cooldown_body_classifies_as_cooldown() {
    let body = "{\"error\":{\"message\":\"...\",\"code\":4000,\"data\":{\"cooldown\":{\"shipSymbol\":\"MXZ-2\",\"expiration\":\"bla\",\"remainingSeconds\":5,\"totalSeconds\":10}}}}";
    assert_eq!(
        classify_extract(body),
        CooldownOutcome::Cooldown {
            remaining_seconds: 5
        }
    );
}

#[test]
fn exhaustion_body_classifies_as_resource_exhausted() {
    let body = "{\"error\":{\"message\":\"...\",\"code\":4228,\"data\":{\"shipSymbol\":\"MXZ-2\"}}}";
    assert_eq!(classify_extract(body), CooldownOutcome::ResourceExhausted);
}

#[test]
fn envelope_fields_are_read_in_any_order() {
    let body = "{\"error\":{\"data\":{\"shipSymbol\":\"MXZ-9\"},\"code\":4228,\"message\":\"full\"}}";
    let err = decode_extract_error(body).unwrap();
    assert_eq!(err.error.code, ERROR_CODE_CARGO_FULL);
    assert_eq!(err.error.message, "full".to_owned());
    match err.error.data {
        ExtractResourceError::Cargo(c) => assert_eq!(c.ship_symbol, "MXZ-9".to_owned()),
        ExtractResourceError::Cooldown { .. } => panic!(),
    }
}

#[test]
fn message_escapes_are_decoded() {
    let body =
        "{\"error\":{\"message\":\"a \\\"quoted\\\" name\\n\",\"code\":4228,\"data\":{\"shipSymbol\":\"S\"}}}";
    let err = decode_extract_error(body).unwrap();
    assert_eq!(err.error.message, "a \"quoted\" name\n".to_owned());
    assert_eq!(err.error.code, ERROR_CODE_CARGO_FULL);
}

#[test]
fn unknown_code_is_fatal() {
    let body = "{\"error\":{\"message\":\"weird\",\"code\":9999,\"data\":{}}}";
    assert!(decode_extract_error(body).is_none());
    assert!(decode_sell_error(body).is_none());
    assert_eq!(
        classify_extract(body),
        CooldownOutcome::Fatal {
            body: body.to_owned()
        }
    );
}

#[test]
fn malformed_body_is_fatal() {
    let body = "{\"error\":{\"message\":\"cut off\",\"code\":4000";
    assert!(decode_extract_error(body).is_none());
    assert_eq!(
        classify_extract(body),
        CooldownOutcome::Fatal {
            body: body.to_owned()
        }
    );
}

#[test]
fn trailing_garbage_is_fatal() {
    let body = "{\"error\":{\"message\":\"m\",\"code\":4228,\"data\":{\"shipSymbol\":\"S\"}}} x";
    assert!(decode_extract_error(body).is_none());
}

#[test]
fn cooldown_with_wrong_payload_shape_is_fatal() {
    // Right code, but the nested cooldown object is missing.
    let body = "{\"error\":{\"message\":\"m\",\"code\":4000,\"data\":{\"shipSymbol\":\"S\"}}}";
    assert!(decode_extract_error(body).is_none());
    assert_eq!(
        classify_extract(body),
        CooldownOutcome::Fatal {
            body: body.to_owned()
        }
    );
    let _ = ERROR_CODE_COOLDOWN;
}

#[test]
fn oversized_seconds_value_is_fatal() {
    // 2^64 does not fit a u64 field.
    let body = "{\"error\":{\"message\":\"m\",\"code\":4000,\"data\":{\"cooldown\":{\"shipSymbol\":\"S\",\"expiration\":\"e\",\"remainingSeconds\":18446744073709551616,\"totalSeconds\":10}}}}";
    assert!(decode_extract_error(body).is_none());
}

#[test]
fn largest_seconds_value_is_kept() {
    let body = "{\"error\":{\"message\":\"m\",\"code\":4000,\"data\":{\"cooldown\":{\"shipSymbol\":\"S\",\"expiration\":\"e\",\"remainingSeconds\":18446744073709551615,\"totalSeconds\":10}}}}";
    let err = decode_extract_error(body).unwrap();
    match err.error.data {
        ExtractResourceError::Cooldown { cooldown } => {
            assert_eq!(cooldown.remaining_seconds, u64::MAX)
        }
        ExtractResourceError::Cargo(_) => panic!(),
    }
}

#[test]
fn travel_eta_is_arrival_minus_departure() {
    let eta = travel_eta("2023-01-01T00:00:00Z", "2023-01-01T00:01:40Z");
    assert_eq!(eta, Some(100));
}

#[test]
fn travel_eta_crossing_offsets() {
    // 02:00 at +01:00 is 01:00 UTC; departure is 00:30 UTC.
    let eta = travel_eta("2023-06-01T00:30:00Z", "2023-06-01T02:00:00+01:00");
    assert_eq!(eta, Some(1800));
}

#[test]
fn travel_eta_floors_at_zero() {
    let eta = travel_eta("2023-01-01T00:01:40Z", "2023-01-01T00:00:00Z");
    assert_eq!(eta, Some(0));
}

#[test]
fn travel_eta_rejects_bad_timestamps() {
    assert_eq!(travel_eta("bla", "2023-01-01T00:00:00Z"), None);
    assert_eq!(travel_eta("2023-01-01T00:00:00Z", "bla"), None);
}
