//! The cooldown-aware operation loops that every long-running ship action
//! follows: issue a governed request, sleep exactly the server-stated
//! cooldown and retry, stop on exhaustion, escalate on a fatal error.
//!
//! The loops are state machines over scripted responses: the caller (or a
//! test's mock pipeline) performs the transport work and the sleeps and
//! hands the outcomes in; the functions here make every decision.
use crate::client::{
    decode_sell_error, spec_decode_sell, CoolDownErrorInner, CooldownOutcome, SellCargoError,
    SpecSellData,
};
use vstd::prelude::*;

verus! {

/// A ship may stop extracting when fewer than this many units of cargo
/// space are left: the safety margin under the hold's capacity.
pub const CARGO_FULL_MARGIN: u64 = 3;

/// A cooldown object as a successful or failed action reports it.
#[derive(Debug, PartialEq)]
pub struct CoolDownError {
    pub cooldown: CoolDownErrorInner,
}

/// What one extraction request came back as, after classification: the
/// yield and cargo state of a success, or the classified error outcome.
#[derive(Debug, PartialEq)]
pub enum ExtractOutcome {
    /// The extraction succeeded: the hold now carries `units` of
    /// `capacity`, and the server imposed a cooldown before the next try.
    Extracted { units: u64, capacity: u64, cooldown_seconds: u64 },
    /// The extraction failed and the body was classified.
    Failed(CooldownOutcome),
}

/// What the loop does after one outcome.
#[derive(Debug, PartialEq)]
pub enum ExtractAction {
    /// Sleep exactly the server-stated seconds, then attempt again.
    SleepThenRetry { seconds: u64 },
    /// Terminal success: the hold is full (or within the safety margin) or
    /// the server reported exhaustion.
    Complete,
    /// Terminal failure: escalate the raw body to the caller.
    Escalate { body: String },
}

/// Mathematical image of [`ExtractAction`].
pub enum SpecExtractAction {
    SleepThenRetry { seconds: u64 },
    Complete,
    Escalate { body: Seq<char> },
}

impl View for ExtractAction {
    type V = SpecExtractAction;

    open spec fn view(&self) -> SpecExtractAction {
        match self {
            ExtractAction::SleepThenRetry { seconds } => SpecExtractAction::SleepThenRetry {
                seconds: *seconds,
            },
            ExtractAction::Complete => SpecExtractAction::Complete,
            ExtractAction::Escalate { body } => SpecExtractAction::Escalate { body: body@ },
        }
    }
}

/// The transition of the operation loop: what one outcome leads to. A
/// success with the hold within [`CARGO_FULL_MARGIN`] of capacity is
/// terminal; any other success sleeps the server-stated cooldown; a
/// cooldown error sleeps the server-stated remainder; exhaustion is
/// terminal success; a fatal outcome escalates with the raw body.
pub open spec fn spec_extract_step(o: ExtractOutcome) -> SpecExtractAction {
    match o {
        ExtractOutcome::Extracted { units, capacity, cooldown_seconds } => {
            if capacity < units + CARGO_FULL_MARGIN {
                SpecExtractAction::Complete
            } else {
                SpecExtractAction::SleepThenRetry { seconds: cooldown_seconds }
            }
        },
        ExtractOutcome::Failed(c) => match c {
            CooldownOutcome::Cooldown { remaining_seconds } => SpecExtractAction::SleepThenRetry {
                seconds: remaining_seconds,
            },
            CooldownOutcome::ResourceExhausted => SpecExtractAction::Complete,
            CooldownOutcome::Fatal { body } => SpecExtractAction::Escalate { body: body@ },
        },
    }
}

/// How an extraction loop ends, named after the states of the operation
/// state machine.
#[derive(Debug, PartialEq)]
pub enum ExtractResult {
    /// Terminal success: nothing more to extract.
    Exhausted,
    /// Terminal failure, escalated to the caller with the raw body.
    Fatal { body: String },
    /// The response script ran out while the loop would have attempted
    /// again.
    Attempting,
}

/// Mathematical image of [`ExtractResult`].
pub enum SpecExtractResult {
    Exhausted,
    Fatal { body: Seq<char> },
    Attempting,
}

impl View for ExtractResult {
    type V = SpecExtractResult;

    open spec fn view(&self) -> SpecExtractResult {
        match self {
            ExtractResult::Exhausted => SpecExtractResult::Exhausted,
            ExtractResult::Fatal { body } => SpecExtractResult::Fatal { body: body@ },
            ExtractResult::Attempting => SpecExtractResult::Attempting,
        }
    }
}

/// One run of the extraction loop: how many requests it issued, the sleeps
/// it made (each the server-stated duration), and how it ended.
#[derive(Debug)]
pub struct ExtractRun {
    pub requests: usize,
    pub sleeps: Vec<u64>,
    pub result: ExtractResult,
}

/// Where the extraction loop driven by `script` settles, starting at
/// request `k`: requests consumed in all, sleeps made, and the final state.
pub open spec fn spec_extract_run(script: Seq<ExtractOutcome>, k: int) -> (
    int,
    Seq<u64>,
    SpecExtractResult,
)
    decreases script.len() - k,
{
    if !(0 <= k < script.len()) {
        (k, Seq::empty(), SpecExtractResult::Attempting)
    } else {
        match spec_extract_step(script[k]) {
            SpecExtractAction::Complete => (k + 1, Seq::empty(), SpecExtractResult::Exhausted),
            SpecExtractAction::Escalate { body } => (
                k + 1,
                Seq::empty(),
                SpecExtractResult::Fatal { body },
            ),
            SpecExtractAction::SleepThenRetry { seconds } => {
                let rest = spec_extract_run(script, k + 1);
                (rest.0, seq![seconds] + rest.1, rest.2)
            },
        }
    }
}

/// A cargo line the sell loop works through: a trade symbol and the units
/// held of it.
#[derive(Debug, PartialEq)]
pub struct CargoItem {
    pub symbol: String,
    pub units: u64,
}

/// What the pipeline returned for one cargo line.
#[derive(Debug, PartialEq)]
pub enum SellResponse {
    /// The sale went through: the transaction's units and total price.
    Sold { units: u64, total_price: u64 },
    /// The sale failed with a structured error body.
    Rejected { body: String },
}

/// What the sell loop records for one cargo line.
#[derive(Debug, PartialEq)]
pub enum SellLineResult {
    /// Sold as requested.
    Sold { units: u64, total_price: u64 },
    /// Skipped: the ship held fewer units than it tried to sell. Fatal for
    /// this line only.
    SkippedNotHeld { trade_symbol: String, cargo_units: u64, units_to_remove: u64 },
    /// Skipped: the good is not sellable at this market. Fatal for this
    /// line only.
    SkippedNotSellable { trade_symbol: String },
    /// The body was no recognized sell error: fatal for the whole
    /// operation, surfaced with the raw body.
    Fatal { body: String },
}

/// Whether `resp` ends the whole sell operation: a rejection whose body is
/// not a recognized sell error.
pub open spec fn spec_sell_hard_fatal(resp: SellResponse) -> bool {
    match resp {
        SellResponse::Sold { .. } => false,
        SellResponse::Rejected { body } => spec_decode_sell(body@) is None,
    }
}

/// How many cargo lines the sell loop attempts: all of them, unless a
/// hard-fatal rejection stops it just after the line that raised it.
pub open spec fn spec_sell_attempts(responses: Seq<SellResponse>, k: int) -> int
    decreases responses.len() - k,
{
    if !(0 <= k < responses.len()) {
        k
    } else if spec_sell_hard_fatal(responses[k]) {
        k + 1
    } else {
        spec_sell_attempts(responses, k + 1)
    }
}

/// The record the sell loop must keep for one line, given the pipeline's
/// response for it.
pub open spec fn spec_sell_line_ok(resp: SellResponse, line: SellLineResult) -> bool {
    match resp {
        SellResponse::Sold { units, total_price } => line == (SellLineResult::Sold {
            units,
            total_price,
        }),
        SellResponse::Rejected { body } => match spec_decode_sell(body@) {
            Some(env) => match env.data {
                SpecSellData::NotFound { trade_symbol, cargo_units, units_to_remove, .. } => {
                    &&& line matches SellLineResult::SkippedNotHeld {
                        trade_symbol: lt,
                        cargo_units: lc,
                        units_to_remove: lu,
                    }
                    &&& lt@ == trade_symbol
                    &&& lc == cargo_units
                    &&& lu == units_to_remove
                },
                SpecSellData::NotSellable { trade_symbol, .. } => {
                    &&& line matches SellLineResult::SkippedNotSellable { trade_symbol: lt }
                    &&& lt@ == trade_symbol
                },
            },
            None => line matches SellLineResult::Fatal { body: lb } && lb@ == body@,
        },
    }
}

/// A fleet unit's reusable operations, stateless in themselves: all state
/// lives with the server and the shared limiter.
pub struct Ship {}

impl Ship {
    /// The hold is full when it carries exactly its capacity.
    pub fn is_cargo_full(units: u64, capacity: u64) -> (r: bool)
        ensures
            r == (units == capacity),
    {
        units == capacity
    }

    /// The transition of the extraction loop for one classified outcome.
    pub fn extract_step(outcome: &ExtractOutcome) -> (r: ExtractAction)
        ensures
            r@ == spec_extract_step(*outcome),
    {
        match outcome {
            ExtractOutcome::Extracted { units, capacity, cooldown_seconds } => {
                if *capacity <= *units {
                    ExtractAction::Complete
                } else if *capacity - *units < CARGO_FULL_MARGIN {
                    ExtractAction::Complete
                } else {
                    ExtractAction::SleepThenRetry { seconds: *cooldown_seconds }
                }
            },
            ExtractOutcome::Failed(c) => match c {
                CooldownOutcome::Cooldown { remaining_seconds } => ExtractAction::SleepThenRetry {
                    seconds: *remaining_seconds,
                },
                CooldownOutcome::ResourceExhausted => ExtractAction::Complete,
                CooldownOutcome::Fatal { body } => ExtractAction::Escalate {
                    body: body.as_str().to_owned(),
                },
            },
        }
    }

    /// Run the extraction loop against a scripted pipeline: issue requests
    /// until one is terminal, sleeping exactly the server-stated duration
    /// after every non-terminal one. Re-entering the attempt state after
    /// any sleep is always safe: the server is the source of truth for
    /// cooldown and cargo state, and the loop holds no other state.
    pub fn extract_till_full(script: &Vec<ExtractOutcome>) -> (r: ExtractRun)
        ensures
            ({
                let run = spec_extract_run(script@, 0);
                &&& r.requests == run.0
                &&& r.sleeps@ == run.1
                &&& r.result@ == run.2
                &&& r.requests <= script@.len()
            }),
    {
        let ghost whole = spec_extract_run(script@, 0);
        let mut k: usize = 0;
        let mut sleeps: Vec<u64> = Vec::new();
        proof {
            assert(sleeps@ + spec_extract_run(script@, 0).1 =~= spec_extract_run(script@, 0).1);
        }
        while k < script.len()
            invariant
                whole == spec_extract_run(script@, 0),
                0 <= k <= script@.len(),
                whole.0 == spec_extract_run(script@, k as int).0,
                whole.1 == sleeps@ + spec_extract_run(script@, k as int).1,
                whole.2 == spec_extract_run(script@, k as int).2,
            decreases script@.len() - k,
        {
            let action = Ship::extract_step(&script[k]);
            match action {
                ExtractAction::Complete => {
                    proof {
                        assert(sleeps@ + Seq::<u64>::empty() =~= sleeps@);
                    }
                    return ExtractRun {
                        requests: k + 1,
                        sleeps,
                        result: ExtractResult::Exhausted,
                    };
                },
                ExtractAction::Escalate { body } => {
                    proof {
                        assert(sleeps@ + Seq::<u64>::empty() =~= sleeps@);
                    }
                    return ExtractRun {
                        requests: k + 1,
                        sleeps,
                        result: ExtractResult::Fatal { body },
                    };
                },
                ExtractAction::SleepThenRetry { seconds } => {
                    let ghost s0 = sleeps@;
                    sleeps.push(seconds);
                    proof {
                        let rest = spec_extract_run(script@, k as int + 1);
                        assert(s0 + (seq![seconds] + rest.1) =~= sleeps@ + rest.1);
                    }
                    k = k + 1;
                },
            }
        }
        proof {
            assert(sleeps@ + Seq::<u64>::empty() =~= sleeps@);
        }
        ExtractRun { requests: k, sleeps, result: ExtractResult::Attempting }
    }

    /// Sell every cargo line in turn: a per-line rejection that names a
    /// missing or unsellable good is recorded and the loop moves on to the
    /// next line; only a body that is no recognized sell error stops the
    /// operation, recorded as fatal. `responses[i]` is what the pipeline
    /// returned for `inventory[i]`.
    pub fn sell_all(inventory: &Vec<CargoItem>, responses: &Vec<SellResponse>) -> (r: Vec<
        SellLineResult,
    >)
        requires
            responses@.len() == inventory@.len(),
        ensures
            r@.len() == spec_sell_attempts(responses@, 0),
            r@.len() <= inventory@.len(),
            forall|i: int| 0 <= i < r@.len() ==> spec_sell_line_ok(responses@[i], r@[i]),
    {
        let mut lines: Vec<SellLineResult> = Vec::new();
        let mut k: usize = 0;
        while k < inventory.len()
            invariant
                responses@.len() == inventory@.len(),
                0 <= k <= inventory@.len(),
                lines@.len() == k,
                spec_sell_attempts(responses@, 0) == spec_sell_attempts(responses@, k as int),
                forall|i: int| 0 <= i < k ==> spec_sell_line_ok(responses@[i], lines@[i]),
                forall|i: int| 0 <= i < k ==> !spec_sell_hard_fatal(responses@[i]),
            decreases inventory@.len() - k,
        {
            match &responses[k] {
                SellResponse::Sold { units, total_price } => {
                    lines.push(SellLineResult::Sold {
                        units: *units,
                        total_price: *total_price,
                    });
                },
                SellResponse::Rejected { body } => {
                    match decode_sell_error(body.as_str()) {
                        Some(g) => match g.error.data {
                            SellCargoError::NotFoundError(e) => {
                                lines.push(SellLineResult::SkippedNotHeld {
                                    trade_symbol: e.trade_symbol,
                                    cargo_units: e.cargo_units,
                                    units_to_remove: e.units_to_remove,
                                });
                            },
                            SellCargoError::NotSellableError(e) => {
                                lines.push(SellLineResult::SkippedNotSellable {
                                    trade_symbol: e.trade_symbol,
                                });
                            },
                        },
                        None => {
                            lines.push(SellLineResult::Fatal { body: body.as_str().to_owned() });
                            return lines;
                        },
                    }
                },
            }
            k = k + 1;
        }
        lines
    }
}

/// Law: partial-failure isolation per cargo line. As long as no response
/// body is outside the recognized sell errors — in particular, when a line
/// fails only as "not sellable" or "not held" — the loop attempts every
/// cargo line.
pub proof fn lemma_sell_isolation(responses: Seq<SellResponse>)
    requires
        forall|i: int| 0 <= i < responses.len() ==> !spec_sell_hard_fatal(responses[i]),
    ensures
        spec_sell_attempts(responses, 0) == responses.len(),
{
    lemma_sell_attempts_from(responses, 0);
}

proof fn lemma_sell_attempts_from(responses: Seq<SellResponse>, k: int)
    requires
        0 <= k <= responses.len(),
        forall|i: int| 0 <= i < responses.len() ==> !spec_sell_hard_fatal(responses[i]),
    ensures
        spec_sell_attempts(responses, k) == responses.len(),
    decreases responses.len() - k,
{
    if k < responses.len() {
        lemma_sell_attempts_from(responses, k + 1);
    }
}

} // verus!
