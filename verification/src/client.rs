//! The domain error classifier: structured error bodies returned by the
//! game API are decoded against the wire shape
//! `{"error":{"message":…,"code":…,"data":…}}` and mapped, keyed on the
//! numeric `code`, onto a small closed set of semantic outcomes. A body
//! that does not parse is never guessed at: it is surfaced as a fatal
//! outcome carrying the raw text.
//!
//! The module also computes travel durations from the RFC 3339 instants
//! that navigation responses carry.
use crate::json::{
    document_ok, member_value, spec_document_ok, spec_member_value, spec_string_at, spec_u64_at,
    spec_ws_end, str_to_chars, string_at, u64_at, ws_end,
};
use vstd::prelude::*;

verus! {

/// Error code of an action refused because the ship's cooldown is still
/// running.
pub const ERROR_CODE_COOLDOWN: u64 = 4000;

/// Error code of an extraction refused because the cargo hold is full.
pub const ERROR_CODE_CARGO_FULL: u64 = 4228;

/// Error code of a sale refused because the ship does not hold the units
/// it tried to sell.
pub const ERROR_CODE_UNITS_NOT_HELD: u64 = 4219;

/// Error code of a sale refused because the good is not sellable at the
/// current waypoint.
pub const ERROR_CODE_NOT_SELLABLE: u64 = 4602;

/// Cooldown details nested under `data.cooldown` in a cooldown error body.
#[derive(Debug, PartialEq)]
pub struct CoolDownErrorInner {
    pub expiration: String,
    pub remaining_seconds: u64,
    pub ship_symbol: String,
    pub total_seconds: u64,
}

/// Mathematical image of [`CoolDownErrorInner`].
pub struct SpecCooldownInner {
    pub expiration: Seq<char>,
    pub remaining_seconds: u64,
    pub ship_symbol: Seq<char>,
    pub total_seconds: u64,
}

impl View for CoolDownErrorInner {
    type V = SpecCooldownInner;

    open spec fn view(&self) -> SpecCooldownInner {
        SpecCooldownInner {
            expiration: self.expiration@,
            remaining_seconds: self.remaining_seconds,
            ship_symbol: self.ship_symbol@,
            total_seconds: self.total_seconds,
        }
    }
}

/// Payload of a cargo-full error body.
#[derive(Debug, PartialEq)]
pub struct CargoErrorInner {
    pub ship_symbol: String,
}

/// Payload of an extraction error body, keyed on the error code.
#[derive(Debug, PartialEq)]
pub enum ExtractResourceError {
    Cooldown { cooldown: CoolDownErrorInner },
    Cargo(CargoErrorInner),
}

/// Mathematical image of [`ExtractResourceError`].
pub enum SpecExtractData {
    Cooldown(SpecCooldownInner),
    Cargo { ship_symbol: Seq<char> },
}

impl View for ExtractResourceError {
    type V = SpecExtractData;

    open spec fn view(&self) -> SpecExtractData {
        match self {
            ExtractResourceError::Cooldown { cooldown } => SpecExtractData::Cooldown(cooldown@),
            ExtractResourceError::Cargo(c) => SpecExtractData::Cargo {
                ship_symbol: c.ship_symbol@,
            },
        }
    }
}

/// Payload of a sale refused because the ship held fewer units than it
/// tried to sell.
#[derive(Debug, PartialEq)]
pub struct NotFoundErrorInner {
    pub ship_symbol: String,
    pub trade_symbol: String,
    pub cargo_units: u64,
    pub units_to_remove: u64,
}

/// Payload of a sale refused because the good cannot be sold at the
/// current waypoint.
#[derive(Debug, PartialEq)]
pub struct NotSellableErrorInner {
    pub trade_symbol: String,
    pub waypoint_symbol: String,
}

/// Payload of a sell error body, keyed on the error code.
#[derive(Debug, PartialEq)]
pub enum SellCargoError {
    NotFoundError(NotFoundErrorInner),
    NotSellableError(NotSellableErrorInner),
}

/// Mathematical image of [`SellCargoError`].
pub enum SpecSellData {
    NotFound {
        ship_symbol: Seq<char>,
        trade_symbol: Seq<char>,
        cargo_units: u64,
        units_to_remove: u64,
    },
    NotSellable { trade_symbol: Seq<char>, waypoint_symbol: Seq<char> },
}

impl View for SellCargoError {
    type V = SpecSellData;

    open spec fn view(&self) -> SpecSellData {
        match self {
            SellCargoError::NotFoundError(e) => SpecSellData::NotFound {
                ship_symbol: e.ship_symbol@,
                trade_symbol: e.trade_symbol@,
                cargo_units: e.cargo_units,
                units_to_remove: e.units_to_remove,
            },
            SellCargoError::NotSellableError(e) => SpecSellData::NotSellable {
                trade_symbol: e.trade_symbol@,
                waypoint_symbol: e.waypoint_symbol@,
            },
        }
    }
}

/// The fields of the error envelope: the server-assigned numeric code, a
/// human-readable message, and a code-dependent payload.
#[derive(Debug, PartialEq)]
pub struct GenericErrorInner<T> {
    pub code: u64,
    pub data: T,
    pub message: String,
}

/// The error envelope: one object under the key `error`.
#[derive(Debug, PartialEq)]
pub struct GenericError<T> {
    pub error: GenericErrorInner<T>,
}

/// Mathematical image of [`GenericError`].
pub struct SpecEnvelope<D> {
    pub code: u64,
    pub message: Seq<char>,
    pub data: D,
}

impl<T: View> View for GenericError<T> {
    type V = SpecEnvelope<T::V>;

    open spec fn view(&self) -> SpecEnvelope<T::V> {
        SpecEnvelope {
            code: self.error.code,
            message: self.error.message@,
            data: self.error.data@,
        }
    }
}

/// Position of the `error` object's first member in a body that is one
/// well-formed JSON object.
pub open spec fn spec_error_obj_pos(t: Seq<char>) -> Option<int> {
    let j = spec_ws_end(t, 0);
    if spec_document_ok(t) && t[j] == '{' {
        match spec_member_value(t, j + 1, "error"@) {
            None => None,
            Some(ep) => {
                if 0 <= ep < t.len() && t[ep] == '{' {
                    Some(ep + 1)
                } else {
                    None
                }
            },
        }
    } else {
        None
    }
}

/// The envelope's code, message and `data` position, when the body is a
/// well-formed envelope.
pub open spec fn spec_envelope_fields(t: Seq<char>) -> Option<(u64, Seq<char>, int)> {
    match spec_error_obj_pos(t) {
        None => None,
        Some(mp) => {
            let code = match spec_member_value(t, mp, "code"@) {
                None => None,
                Some(cp) => spec_u64_at(t, cp),
            };
            let message = match spec_member_value(t, mp, "message"@) {
                None => None,
                Some(sp) => match spec_string_at(t, sp) {
                    None => None,
                    Some(de) => Some(de.0),
                },
            };
            match (code, message, spec_member_value(t, mp, "data"@)) {
                (Some(c), Some(m), Some(dp)) => Some((c, m, dp)),
                _ => None,
            }
        },
    }
}

/// The string member `key` of the object starting at `dp`.
pub open spec fn spec_obj_string(t: Seq<char>, dp: int, key: Seq<char>) -> Option<Seq<char>> {
    if 0 <= dp < t.len() && t[dp] == '{' {
        match spec_member_value(t, dp + 1, key) {
            None => None,
            Some(p) => match spec_string_at(t, p) {
                None => None,
                Some(de) => Some(de.0),
            },
        }
    } else {
        None
    }
}

/// The unsigned integer member `key` of the object starting at `dp`.
pub open spec fn spec_obj_u64(t: Seq<char>, dp: int, key: Seq<char>) -> Option<u64> {
    if 0 <= dp < t.len() && t[dp] == '{' {
        match spec_member_value(t, dp + 1, key) {
            None => None,
            Some(p) => spec_u64_at(t, p),
        }
    } else {
        None
    }
}

/// The extraction-error envelope denoted by `t`, decoded keyed on the
/// error code: a cooldown error carries `data.cooldown`, a cargo-full
/// error carries `data.shipSymbol`; any other code is not an extraction
/// error.
pub open spec fn spec_decode_extract(t: Seq<char>) -> Option<SpecEnvelope<SpecExtractData>> {
    match spec_envelope_fields(t) {
        None => None,
        Some((code, message, dp)) => {
            if code == ERROR_CODE_COOLDOWN {
                if 0 <= dp < t.len() && t[dp] == '{' {
                    match spec_member_value(t, dp + 1, "cooldown"@) {
                        None => None,
                        Some(cp) => {
                            match (
                                spec_obj_string(t, cp, "expiration"@),
                                spec_obj_u64(t, cp, "remainingSeconds"@),
                                spec_obj_string(t, cp, "shipSymbol"@),
                                spec_obj_u64(t, cp, "totalSeconds"@),
                            ) {
                                (Some(exp), Some(rem), Some(ship), Some(total)) => Some(
                                    SpecEnvelope {
                                        code,
                                        message,
                                        data: SpecExtractData::Cooldown(
                                            SpecCooldownInner {
                                                expiration: exp,
                                                remaining_seconds: rem,
                                                ship_symbol: ship,
                                                total_seconds: total,
                                            },
                                        ),
                                    },
                                ),
                                _ => None,
                            }
                        },
                    }
                } else {
                    None
                }
            } else if code == ERROR_CODE_CARGO_FULL {
                match spec_obj_string(t, dp, "shipSymbol"@) {
                    None => None,
                    Some(ship) => Some(
                        SpecEnvelope {
                            code,
                            message,
                            data: SpecExtractData::Cargo { ship_symbol: ship },
                        },
                    ),
                }
            } else {
                None
            }
        },
    }
}

/// The sell-error envelope denoted by `t`, decoded keyed on the error
/// code.
pub open spec fn spec_decode_sell(t: Seq<char>) -> Option<SpecEnvelope<SpecSellData>> {
    match spec_envelope_fields(t) {
        None => None,
        Some((code, message, dp)) => {
            if code == ERROR_CODE_UNITS_NOT_HELD {
                match (
                    spec_obj_string(t, dp, "shipSymbol"@),
                    spec_obj_string(t, dp, "tradeSymbol"@),
                    spec_obj_u64(t, dp, "cargoUnits"@),
                    spec_obj_u64(t, dp, "unitsToRemove"@),
                ) {
                    (Some(ship), Some(trade), Some(units), Some(remove)) => Some(
                        SpecEnvelope {
                            code,
                            message,
                            data: SpecSellData::NotFound {
                                ship_symbol: ship,
                                trade_symbol: trade,
                                cargo_units: units,
                                units_to_remove: remove,
                            },
                        },
                    ),
                    _ => None,
                }
            } else if code == ERROR_CODE_NOT_SELLABLE {
                match (
                    spec_obj_string(t, dp, "tradeSymbol"@),
                    spec_obj_string(t, dp, "waypointSymbol"@),
                ) {
                    (Some(trade), Some(waypoint)) => Some(
                        SpecEnvelope {
                            code,
                            message,
                            data: SpecSellData::NotSellable {
                                trade_symbol: trade,
                                waypoint_symbol: waypoint,
                            },
                        },
                    ),
                    _ => None,
                }
            } else {
                None
            }
        },
    }
}

/// Position of the `error` object's first member, or `None` when the body
/// is not one well-formed JSON object with an object under `error`.
fn error_obj_pos(s: &str, v: &Vec<char>) -> (r: Option<usize>)
    requires
        v@ == s@,
    ensures
        match spec_error_obj_pos(v@) {
            Some(p) => r matches Some(rp) && rp == p,
            None => r is None,
        },
        r matches Some(p) ==> p <= v@.len(),
{
    if !document_ok(v) {
        return None;
    }
    let j = ws_end(v, 0);
    if !(j < v.len()) {
        return None;
    }
    if v[j] != '{' {
        return None;
    }
    let key = String::from_str("error");
    match member_value(s, v, j + 1, &key) {
        None => None,
        Some(ep) => {
            if ep < v.len() && v[ep] == '{' {
                Some(ep + 1)
            } else {
                None
            }
        },
    }
}

/// The envelope's code, message and `data` position.
fn envelope_fields(s: &str, v: &Vec<char>) -> (r: Option<(u64, String, usize)>)
    requires
        v@ == s@,
    ensures
        match spec_envelope_fields(v@) {
            Some(f) => r matches Some(rf) && rf.0 == f.0 && rf.1@ == f.1 && rf.2 == f.2,
            None => r is None,
        },
        r matches Some(rf) ==> rf.2 <= v@.len(),
{
    let mp = match error_obj_pos(s, v) {
        None => {
            return None;
        },
        Some(mp) => mp,
    };
    let code = match member_value(s, v, mp, &String::from_str("code")) {
        None => {
            return None;
        },
        Some(cp) => match u64_at(v, cp) {
            None => {
                return None;
            },
            Some(c) => c,
        },
    };
    let message = match member_value(s, v, mp, &String::from_str("message")) {
        None => {
            return None;
        },
        Some(sp) => match string_at(s, v, sp) {
            None => {
                return None;
            },
            Some(de) => de.0,
        },
    };
    match member_value(s, v, mp, &String::from_str("data")) {
        None => None,
        Some(dp) => Some((code, message, dp)),
    }
}

/// The string member `key` of the object starting at `dp`.
fn obj_string(s: &str, v: &Vec<char>, dp: usize, key: &str) -> (r: Option<String>)
    requires
        v@ == s@,
        dp <= v@.len(),
    ensures
        match spec_obj_string(v@, dp as int, key@) {
            Some(d) => r matches Some(rs) && rs@ == d,
            None => r is None,
        },
{
    if !(dp < v.len() && v[dp] == '{') {
        return None;
    }
    match member_value(s, v, dp + 1, &String::from_str(key)) {
        None => None,
        Some(p) => match string_at(s, v, p) {
            None => None,
            Some(de) => Some(de.0),
        },
    }
}

/// The unsigned integer member `key` of the object starting at `dp`.
fn obj_u64(s: &str, v: &Vec<char>, dp: usize, key: &str) -> (r: Option<u64>)
    requires
        v@ == s@,
        dp <= v@.len(),
    ensures
        r == spec_obj_u64(v@, dp as int, key@),
{
    if !(dp < v.len() && v[dp] == '{') {
        return None;
    }
    match member_value(s, v, dp + 1, &String::from_str(key)) {
        None => None,
        Some(p) => u64_at(v, p),
    }
}

/// Decode an extraction error body. Returns `None` exactly when the body
/// is not a well-formed envelope whose code is the cooldown or cargo-full
/// code with the matching payload shape.
pub fn decode_extract_error(body: &str) -> (r: Option<GenericError<ExtractResourceError>>)
    ensures
        (r is Some) == (spec_decode_extract(body@) is Some),
        r matches Some(g) ==> spec_decode_extract(body@) == Some(g@),
{
    let v = str_to_chars(body);
    let (code, message, dp) = match envelope_fields(body, &v) {
        None => {
            return None;
        },
        Some(f) => f,
    };
    if code == ERROR_CODE_COOLDOWN {
        if !(dp < v.len() && v[dp] == '{') {
            return None;
        }
        let cp = match member_value(body, &v, dp + 1, &String::from_str("cooldown")) {
            None => {
                return None;
            },
            Some(cp) => cp,
        };
        let expiration = match obj_string(body, &v, cp, "expiration") {
            None => {
                return None;
            },
            Some(x) => x,
        };
        let remaining_seconds = match obj_u64(body, &v, cp, "remainingSeconds") {
            None => {
                return None;
            },
            Some(x) => x,
        };
        let ship_symbol = match obj_string(body, &v, cp, "shipSymbol") {
            None => {
                return None;
            },
            Some(x) => x,
        };
        let total_seconds = match obj_u64(body, &v, cp, "totalSeconds") {
            None => {
                return None;
            },
            Some(x) => x,
        };
        Some(
            GenericError {
                error: GenericErrorInner {
                    code,
                    data: ExtractResourceError::Cooldown {
                        cooldown: CoolDownErrorInner {
                            expiration,
                            remaining_seconds,
                            ship_symbol,
                            total_seconds,
                        },
                    },
                    message,
                },
            },
        )
    } else if code == ERROR_CODE_CARGO_FULL {
        match obj_string(body, &v, dp, "shipSymbol") {
            None => None,
            Some(ship_symbol) => Some(
                GenericError {
                    error: GenericErrorInner {
                        code,
                        data: ExtractResourceError::Cargo(CargoErrorInner { ship_symbol }),
                        message,
                    },
                },
            ),
        }
    } else {
        None
    }
}

/// Decode a sell error body. Returns `None` exactly when the body is not
/// a well-formed envelope whose code is one of the two sell-error codes
/// with the matching payload shape.
pub fn decode_sell_error(body: &str) -> (r: Option<GenericError<SellCargoError>>)
    ensures
        (r is Some) == (spec_decode_sell(body@) is Some),
        r matches Some(g) ==> spec_decode_sell(body@) == Some(g@),
{
    let v = str_to_chars(body);
    let (code, message, dp) = match envelope_fields(body, &v) {
        None => {
            return None;
        },
        Some(f) => f,
    };
    if code == ERROR_CODE_UNITS_NOT_HELD {
        let ship_symbol = match obj_string(body, &v, dp, "shipSymbol") {
            None => {
                return None;
            },
            Some(x) => x,
        };
        let trade_symbol = match obj_string(body, &v, dp, "tradeSymbol") {
            None => {
                return None;
            },
            Some(x) => x,
        };
        let cargo_units = match obj_u64(body, &v, dp, "cargoUnits") {
            None => {
                return None;
            },
            Some(x) => x,
        };
        let units_to_remove = match obj_u64(body, &v, dp, "unitsToRemove") {
            None => {
                return None;
            },
            Some(x) => x,
        };
        Some(
            GenericError {
                error: GenericErrorInner {
                    code,
                    data: SellCargoError::NotFoundError(
                        NotFoundErrorInner {
                            ship_symbol,
                            trade_symbol,
                            cargo_units,
                            units_to_remove,
                        },
                    ),
                    message,
                },
            },
        )
    } else if code == ERROR_CODE_NOT_SELLABLE {
        let trade_symbol = match obj_string(body, &v, dp, "tradeSymbol") {
            None => {
                return None;
            },
            Some(x) => x,
        };
        let waypoint_symbol = match obj_string(body, &v, dp, "waypointSymbol") {
            None => {
                return None;
            },
            Some(x) => x,
        };
        Some(
            GenericError {
                error: GenericErrorInner {
                    code,
                    data: SellCargoError::NotSellableError(
                        NotSellableErrorInner { trade_symbol, waypoint_symbol },
                    ),
                    message,
                },
            },
        )
    } else {
        None
    }
}

/// The semantic outcome of a failed request, as the operation loops consume
/// it: a scheduled-retry signal, a terminal-success signal, or a fatal
/// error carrying the raw body for escalation.
#[derive(Debug, PartialEq)]
pub enum CooldownOutcome {
    Cooldown { remaining_seconds: u64 },
    ResourceExhausted,
    Fatal { body: String },
}

/// Mathematical image of [`CooldownOutcome`].
pub enum SpecCooldownOutcome {
    Cooldown { remaining_seconds: u64 },
    ResourceExhausted,
    Fatal { body: Seq<char> },
}

impl View for CooldownOutcome {
    type V = SpecCooldownOutcome;

    open spec fn view(&self) -> SpecCooldownOutcome {
        match self {
            CooldownOutcome::Cooldown { remaining_seconds } => SpecCooldownOutcome::Cooldown {
                remaining_seconds: *remaining_seconds,
            },
            CooldownOutcome::ResourceExhausted => SpecCooldownOutcome::ResourceExhausted,
            CooldownOutcome::Fatal { body } => SpecCooldownOutcome::Fatal { body: body@ },
        }
    }
}

/// Classification of a failed extraction response: a cooldown body becomes
/// a scheduled retry of the server-stated duration, a cargo-full body
/// becomes the terminal exhaustion signal, and anything else — any other
/// code, or a body that does not parse — is fatal and carries the raw
/// body.
pub open spec fn spec_classify_extract(t: Seq<char>) -> SpecCooldownOutcome {
    match spec_decode_extract(t) {
        Some(env) => match env.data {
            SpecExtractData::Cooldown(c) => SpecCooldownOutcome::Cooldown {
                remaining_seconds: c.remaining_seconds,
            },
            SpecExtractData::Cargo { .. } => SpecCooldownOutcome::ResourceExhausted,
        },
        None => SpecCooldownOutcome::Fatal { body: t },
    }
}

/// Map a failed extraction response body to its semantic outcome.
pub fn classify_extract(body: &str) -> (r: CooldownOutcome)
    ensures
        r@ == spec_classify_extract(body@),
{
    match decode_extract_error(body) {
        Some(g) => match g.error.data {
            ExtractResourceError::Cooldown { cooldown } => CooldownOutcome::Cooldown {
                remaining_seconds: cooldown.remaining_seconds,
            },
            ExtractResourceError::Cargo(_) => CooldownOutcome::ResourceExhausted,
        },
        None => CooldownOutcome::Fatal { body: body.to_owned() },
    }
}

/// The instant denoted by an RFC 3339 timestamp, in whole seconds since
/// the Unix epoch; `None` where the text is not such a timestamp. The
/// result depends on the text alone.
pub uninterp spec fn rfc3339_seconds_of(s: Seq<char>) -> Option<i64>;

/// Relies on `chrono::DateTime::parse_from_rfc3339` and
/// `chrono::DateTime::timestamp`: parses a fixed-offset RFC 3339 instant
/// and returns it as whole seconds since the Unix epoch, a function of the
/// text alone.
#[verifier::external_body]
fn parse_rfc3339_seconds(s: &str) -> (r: Option<i64>)
    ensures
        r == rfc3339_seconds_of(s@),
{
    match chrono::DateTime::parse_from_rfc3339(s) {
        Ok(d) => Some(d.timestamp()),
        Err(_) => None,
    }
}

/// Travel time in whole seconds between a departure instant and an arrival
/// instant, both RFC 3339 timestamps: their difference, floored at zero;
/// `None` where either does not parse.
pub open spec fn spec_travel_eta(departure: Seq<char>, arrival: Seq<char>) -> Option<u64> {
    match (rfc3339_seconds_of(departure), rfc3339_seconds_of(arrival)) {
        (Some(d), Some(a)) => if a >= d {
            Some((a - d) as u64)
        } else {
            Some(0u64)
        },
        _ => None,
    }
}

/// Seconds a ship will spend travelling: the arrival instant minus the
/// departure instant, floored at zero.
pub fn travel_eta(departure: &str, arrival: &str) -> (r: Option<u64>)
    ensures
        r == spec_travel_eta(departure@, arrival@),
{
    let d = match parse_rfc3339_seconds(departure) {
        None => {
            return None;
        },
        Some(d) => d,
    };
    let a = match parse_rfc3339_seconds(arrival) {
        None => {
            return None;
        },
        Some(a) => a,
    };
    let diff: i128 = a as i128 - d as i128;
    if diff >= 0 {
        Some(diff as u64)
    } else {
        Some(0)
    }
}

} // verus!
