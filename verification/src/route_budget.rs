//! Token budgets of a resolved route: context window, output reservation, input ceiling and
//! what compaction is triggered by.
use vstd::prelude::*;

use crate::harness::HarnessCompactionStrategy;
use crate::text::{parse_u32, parsed_u32, trim, trimmed};

verus! {

/// Largest number of concurrent sub-agents that any posture or configuration can ask for.
pub const MAX_SUBAGENTS: usize = 20;

/// Output tokens reserved for a turn on large windows, and the most that any route cap
/// reserves.
pub const TURN_MAX_OUTPUT_TOKENS: u32 = 262_144;

/// Most output tokens asked for in a request; fits providers with tight limits.
pub const API_MAX_OUTPUT_TOKENS: u32 = 65_536;

/// Context windows of at least this size reserve `TURN_MAX_OUTPUT_TOKENS`.
pub const INTERNAL_BUDGET_LARGE_WINDOW_THRESHOLD: u32 = 500_000;

/// Context window assumed for a model that the model table does not know.
pub const UNKNOWN_MODEL_WINDOW_TOKENS: u32 = 128_000;

/// Tokens kept free beside input and output.
pub const CONTEXT_HEADROOM_TOKENS: u64 = 1_024;

/// Percentage points by which `PrefixCache` compacts later.
pub const PREFIX_CACHE_PERCENT_DELTA: u8 = 8;

/// Percentage points by which `Aggressive` compacts earlier.
pub const AGGRESSIVE_PERCENT_DELTA: u8 = 12;

/// Upper clamp of a shifted compaction percentage.
pub const COMPACTION_PCT_CEILING: u8 = 95;

/// Lower clamp of a shifted compaction percentage.
pub const COMPACTION_PCT_FLOOR: u8 = 50;

/// What a compaction strategy does to the trigger percentage.
#[derive(Debug, Clone, Copy, PartialEq, Eq, Structural)]
pub enum PercentShift {
    /// The percentage stays as it is.
    Unchanged,
    /// The percentage grows by `by` points, within the band from `floor` to `ceiling`.
    Raise { by: u8, floor: u8, ceiling: u8 },
    /// The percentage shrinks by `by` points, within the band from `floor` to `ceiling`.
    Lower { by: u8, floor: u8, ceiling: u8 },
}

/// A percentage brought into a band.
pub open spec fn clamped_percent(percent: real, floor: u8, ceiling: u8) -> real {
    if percent < floor as real {
        floor as real
    } else if percent > ceiling as real {
        ceiling as real
    } else {
        percent
    }
}

impl PercentShift {
    /// The percentage that `base` is shifted to.
    pub open spec fn applied(self, base: real) -> real {
        match self {
            PercentShift::Unchanged => base,
            PercentShift::Raise { by, floor, ceiling } => clamped_percent(
                base + (by as real),
                floor,
                ceiling,
            ),
            PercentShift::Lower { by, floor, ceiling } => clamped_percent(
                base - (by as real),
                floor,
                ceiling,
            ),
        }
    }
}

/// The shift of a strategy.
pub open spec fn strategy_shift(strategy: HarnessCompactionStrategy) -> PercentShift {
    match strategy {
        HarnessCompactionStrategy::Default => PercentShift::Unchanged,
        HarnessCompactionStrategy::PrefixCache => PercentShift::Raise {
            by: PREFIX_CACHE_PERCENT_DELTA,
            floor: COMPACTION_PCT_FLOOR,
            ceiling: COMPACTION_PCT_CEILING,
        },
        HarnessCompactionStrategy::Aggressive => PercentShift::Lower {
            by: AGGRESSIVE_PERCENT_DELTA,
            floor: COMPACTION_PCT_FLOOR,
            ceiling: COMPACTION_PCT_CEILING,
        },
    }
}

/// How a harness compaction strategy shifts the compaction trigger percentage: `Default`
/// leaves it, `PrefixCache` compacts later, `Aggressive` compacts earlier. A shifted
/// percentage is clamped to a safe band.
#[must_use]
pub fn percent_shift_for_strategy(strategy: HarnessCompactionStrategy) -> (shift: PercentShift)
    ensures
        shift == strategy_shift(strategy),
{
    match strategy {
        HarnessCompactionStrategy::Default => PercentShift::Unchanged,
        HarnessCompactionStrategy::PrefixCache => PercentShift::Raise {
            by: PREFIX_CACHE_PERCENT_DELTA,
            floor: COMPACTION_PCT_FLOOR,
            ceiling: COMPACTION_PCT_CEILING,
        },
        HarnessCompactionStrategy::Aggressive => PercentShift::Lower {
            by: AGGRESSIVE_PERCENT_DELTA,
            floor: COMPACTION_PCT_FLOOR,
            ceiling: COMPACTION_PCT_CEILING,
        },
    }
}

/// Law: the default strategy leaves every percentage as it is.
pub proof fn law_default_strategy_is_identity(base: real)
    ensures
        strategy_shift(HarnessCompactionStrategy::Default).applied(base) == base,
{
}

/// Law: every strategy other than the default one leads into the safe band, from whatever
/// percentage.
pub proof fn law_shifted_percent_is_in_the_band(strategy: HarnessCompactionStrategy, base: real)
    requires
        strategy != HarnessCompactionStrategy::Default,
    ensures
        COMPACTION_PCT_FLOOR as real <= strategy_shift(strategy).applied(base)
            <= COMPACTION_PCT_CEILING as real,
{
}

/// Law: below the upper clamp, the prefix-cache strategy compacts later.
pub proof fn law_prefix_cache_is_later(base: real)
    ensures
        base < 95 as real ==> strategy_shift(HarnessCompactionStrategy::PrefixCache).applied(base)
            > base,
{
}

/// Law: above the lower clamp, the aggressive strategy compacts earlier.
pub proof fn law_aggressive_is_earlier(base: real)
    ensures
        base > 50 as real ==> strategy_shift(HarnessCompactionStrategy::Aggressive).applied(base)
            < base,
{
}

/// `n` brought into the range from 1 to `MAX_SUBAGENTS`.
pub open spec fn clamped_subagents(n: usize) -> usize {
    if n < 1 {
        1
    } else if n > MAX_SUBAGENTS {
        MAX_SUBAGENTS
    } else {
        n
    }
}

/// The sub-agent concurrency cap of a posture: its own cap where it has one, else the
/// configured default, brought into the range.
pub open spec fn subagent_cap(posture_cap: usize, config_default: usize) -> usize {
    clamped_subagents(
        if posture_cap > 0 {
            posture_cap
        } else {
            config_default
        },
    )
}

/// The sub-agent concurrency cap that a posture leads to.
///
/// A posture cap of 0 keeps the configured default; any other one replaces it. Both are
/// clamped, so that a posture never raises the cap above `MAX_SUBAGENTS`.
#[must_use]
pub fn max_subagents_for_posture(posture_cap: usize, config_default: usize) -> (cap: usize)
    ensures
        cap == subagent_cap(posture_cap, config_default),
        1 <= cap <= MAX_SUBAGENTS,
{
    let wanted: usize = if posture_cap > 0 {
        posture_cap
    } else {
        config_default
    };
    if wanted < 1 {
        1
    } else if wanted > MAX_SUBAGENTS {
        MAX_SUBAGENTS
    } else {
        wanted
    }
}

/// Token limits that an offering reports for a route.
#[derive(Debug, Clone, Copy, PartialEq, Eq, Structural)]
pub struct RouteLimits {
    /// Size of the context window.
    pub context_tokens: Option<u64>,
    /// Most output tokens.
    pub output_tokens: Option<u64>,
    /// Whether the offering reports some other limit.
    pub other_limit_known: bool,
}

impl Default for RouteLimits {
    fn default() -> (limits: Self)
        ensures
            limits == (RouteLimits {
                context_tokens: None,
                output_tokens: None,
                other_limit_known: false,
            }),
    {
        RouteLimits { context_tokens: None, output_tokens: None, other_limit_known: false }
    }
}

impl RouteLimits {
    /// Whether any limit is known.
    pub open spec fn known(self) -> bool {
        self.context_tokens is Some || self.output_tokens is Some || self.other_limit_known
    }

    /// Whether any limit is known.
    pub fn has_known_limit(&self) -> (known: bool)
        ensures
            known == self.known(),
    {
        self.context_tokens.is_some() || self.output_tokens.is_some() || self.other_limit_known
    }
}

/// Keeps only route limits that came from a concrete offering.
#[must_use]
pub fn known_route_limits(limits: RouteLimits) -> (kept: Option<RouteLimits>)
    ensures
        kept == (if limits.known() {
            Some(limits)
        } else {
            None
        }),
{
    if limits.has_known_limit() {
        Some(limits)
    } else {
        None
    }
}

/// What the host's tables and environment say of a provider and a model.
#[derive(Debug, Clone)]
pub struct ModelFacts {
    /// Context window in the provider capability table.
    pub capability_window: u32,
    /// Context window in the model table, where the model is known.
    pub model_window: Option<u32>,
    /// Whether the model table turns auto-compaction on.
    pub auto_compact_default: bool,
    /// The output-token override of the environment, as it is written there.
    pub output_override: Option<String>,
}

/// Limits that the host is configured with.
#[derive(Debug, Clone, Copy, PartialEq, Eq, Structural)]
pub struct BudgetDefaults {
    /// Compaction threshold where no window is known.
    pub compaction_token_threshold: usize,
    /// Largest context window on which auto-compaction is on by default.
    pub auto_compact_max_window: u32,
}

/// A reported limit that counts: positive and below `2^32`.
pub open spec fn usable_limit(tokens: Option<u64>) -> Option<u32> {
    match tokens {
        Some(t) => if 0 < t <= u32::MAX {
            Some(t as u32)
        } else {
            None
        },
        None => None,
    }
}

fn usable(tokens: Option<u64>) -> (limit: Option<u32>)
    ensures
        limit == usable_limit(tokens),
{
    match tokens {
        Some(t) => if 0 < t && t <= 0xffff_ffff {
            Some(t as u32)
        } else {
            None
        },
        None => None,
    }
}

/// The context window that the route itself reports.
pub open spec fn reported_window(route_limits: Option<RouteLimits>) -> Option<u32> {
    match route_limits {
        Some(limits) => usable_limit(limits.context_tokens),
        None => None,
    }
}

/// The output cap that the route itself reports.
pub open spec fn reported_output_cap(route_limits: Option<RouteLimits>) -> Option<u32> {
    match route_limits {
        Some(limits) => usable_limit(limits.output_tokens),
        None => None,
    }
}

/// The context window of a route: the reported one, else that of the capability table.
pub open spec fn window_tokens(capability_window: u32, route_limits: Option<RouteLimits>) -> u32 {
    match reported_window(route_limits) {
        Some(window) => window,
        None => capability_window,
    }
}

/// Context window for a resolved route. Facts of the offering win when known; otherwise the
/// provider capability table decides.
#[must_use]
pub fn route_context_window_tokens(
    capability_window: u32,
    route_limits: Option<RouteLimits>,
) -> (window: u32)
    ensures
        window == window_tokens(capability_window, route_limits),
{
    let reported: Option<u32> = match route_limits {
        Some(limits) => usable(limits.context_tokens),
        None => None,
    };
    match reported {
        Some(window) => window,
        None => capability_window,
    }
}

/// Output cap of the offering, when the resolved route reports one.
#[must_use]
pub fn route_output_limit_tokens(route_limits: Option<RouteLimits>) -> (cap: Option<u32>)
    ensures
        cap == reported_output_cap(route_limits),
{
    match route_limits {
        Some(limits) => usable(limits.output_tokens),
        None => None,
    }
}

/// A context window with what is put into it and what is reserved for output.
#[derive(Debug, Clone, Copy, PartialEq, Eq, Structural)]
pub struct ContextBudget {
    pub window_tokens: u64,
    pub input_tokens: u64,
    pub output_tokens: u64,
}

impl ContextBudget {
    /// Room that input may occupy: the window less the reserved output and the headroom.
    pub open spec fn ceiling(self) -> int {
        let room = self.window_tokens - self.output_tokens - CONTEXT_HEADROOM_TOKENS;
        if room < 0 {
            0
        } else {
            room
        }
    }

    /// A budget for a window, the input so far and the reserved output.
    pub fn new(window_tokens: u64, input_tokens: u64, output_tokens: u64) -> (budget: Self)
        ensures
            budget == (ContextBudget { window_tokens, input_tokens, output_tokens }),
    {
        ContextBudget { window_tokens, input_tokens, output_tokens }
    }

    /// Room that input may occupy.
    pub fn input_ceiling(&self) -> (ceiling: u64)
        ensures
            ceiling == self.ceiling(),
    {
        self.window_tokens.saturating_sub(self.output_tokens).saturating_sub(
            CONTEXT_HEADROOM_TOKENS,
        )
    }
}

/// The budget of a request on a route: its window, the input, and the configured output.
pub open spec fn request_budget(
    capability_window: u32,
    route_limits: Option<RouteLimits>,
    input_tokens: usize,
    configured_output_cap: u32,
) -> ContextBudget {
    ContextBudget {
        window_tokens: window_tokens(capability_window, route_limits) as u64,
        input_tokens: input_tokens as u64,
        output_tokens: configured_output_cap as u64,
    }
}

/// The budget of a request on a route.
#[must_use]
pub fn route_context_budget(
    capability_window: u32,
    route_limits: Option<RouteLimits>,
    input_tokens: usize,
    configured_output_cap: u32,
) -> (budget: Option<ContextBudget>)
    ensures
        budget == Some(
            request_budget(capability_window, route_limits, input_tokens, configured_output_cap),
        ),
{
    let window: u32 = route_context_window_tokens(capability_window, route_limits);
    Some(
        ContextBudget::new(window as u64, input_tokens as u64, configured_output_cap as u64),
    )
}

/// The output-token override that the environment asks for: a positive decimal number, with
/// white space around it allowed.
pub open spec fn override_tokens(raw: Option<Seq<char>>) -> Option<u32> {
    match raw {
        Some(text) => match parsed_u32(trimmed(text)) {
            Some(n) => if n > 0 {
                Some(n)
            } else {
                None
            },
            None => None,
        },
        None => None,
    }
}

/// The view of an optional text.
pub open spec fn opt_text(text: Option<String>) -> Option<Seq<char>> {
    match text {
        Some(t) => Some(t@),
        None => None,
    }
}

/// The output tokens asked for in a request.
pub open spec fn effective_output(raw: Option<Seq<char>>, model_window: Option<u32>) -> u32 {
    match override_tokens(raw) {
        Some(n) => n,
        None => {
            let window = match model_window {
                Some(w) => w,
                None => UNKNOWN_MODEL_WINDOW_TOKENS,
            };
            if window >= INTERNAL_BUDGET_LARGE_WINDOW_THRESHOLD || window / 2
                >= API_MAX_OUTPUT_TOKENS {
                API_MAX_OUTPUT_TOKENS
            } else {
                window / 2
            }
        },
    }
}

/// Output tokens to ask for in a request: the override, if the environment holds a positive
/// number; else `API_MAX_OUTPUT_TOKENS`, but on smaller windows half the window at most.
#[must_use]
pub fn effective_max_output_tokens(
    output_override: &Option<String>,
    model_window: Option<u32>,
) -> (tokens: u32)
    ensures
        tokens == effective_output(opt_text(*output_override), model_window),
{
    if let Some(raw) = output_override {
        if let Some(n) = parse_u32(trim(raw.as_str())) {
            if n > 0 {
                return n;
            }
        }
    }
    let window: u32 = match model_window {
        Some(w) => w,
        None => UNKNOWN_MODEL_WINDOW_TOKENS,
    };
    if window >= INTERNAL_BUDGET_LARGE_WINDOW_THRESHOLD {
        API_MAX_OUTPUT_TOKENS
    } else {
        let capped: u32 = window / 2;
        if capped < API_MAX_OUTPUT_TOKENS {
            capped
        } else {
            API_MAX_OUTPUT_TOKENS
        }
    }
}

/// The output tokens that a route's input budget reserves.
pub open spec fn output_reservation(
    facts: ModelFacts,
    window: u32,
    route_limits: Option<RouteLimits>,
) -> u32 {
    match reported_output_cap(route_limits) {
        Some(cap) => if cap < TURN_MAX_OUTPUT_TOKENS {
            cap
        } else {
            TURN_MAX_OUTPUT_TOKENS
        },
        None => if window >= INTERNAL_BUDGET_LARGE_WINDOW_THRESHOLD {
            TURN_MAX_OUTPUT_TOKENS
        } else {
            effective_output(opt_text(facts.output_override), facts.model_window)
        },
    }
}

/// Output tokens reserved when computing a route's input ceiling: a cap of the route wins,
/// up to `TURN_MAX_OUTPUT_TOKENS`; a large window reserves `TURN_MAX_OUTPUT_TOKENS`; a
/// smaller one what a request asks for.
#[must_use]
pub fn route_output_reservation_for_window(
    facts: &ModelFacts,
    window: u32,
    route_limits: Option<RouteLimits>,
) -> (reserved: u32)
    ensures
        reserved == output_reservation(*facts, window, route_limits),
{
    if let Some(cap) = route_output_limit_tokens(route_limits) {
        if cap < TURN_MAX_OUTPUT_TOKENS {
            return cap;
        }
        return TURN_MAX_OUTPUT_TOKENS;
    }
    if window >= INTERNAL_BUDGET_LARGE_WINDOW_THRESHOLD {
        TURN_MAX_OUTPUT_TOKENS
    } else {
        effective_max_output_tokens(&facts.output_override, facts.model_window)
    }
}

/// The budget that a compaction trigger is measured against: nothing put in yet, the output
/// reserved.
pub open spec fn reserved_budget(
    facts: ModelFacts,
    window: u32,
    route_limits: Option<RouteLimits>,
) -> ContextBudget {
    ContextBudget {
        window_tokens: window as u64,
        input_tokens: 0,
        output_tokens: output_reservation(facts, window, route_limits) as u64,
    }
}

/// The budget that a route's compaction trigger is measured for, where it has a window.
pub open spec fn budget_of_route(
    facts: ModelFacts,
    route_limits: Option<RouteLimits>,
) -> Option<ContextBudget> {
    let window = window_tokens(facts.capability_window, route_limits);
    if window == 0 {
        None
    } else {
        Some(reserved_budget(facts, window, route_limits))
    }
}

/// The budget that a model's compaction trigger is measured for, where the model is known.
pub open spec fn budget_of_model(facts: ModelFacts) -> Option<ContextBudget> {
    match facts.model_window {
        Some(window) => Some(reserved_budget(facts, window, None)),
        None => None,
    }
}

/// The budget whose input ceiling a route's compaction trigger is a percentage of; `None`
/// where the route has no window, and the default threshold applies.
#[must_use]
pub fn compaction_budget_for_route(
    facts: &ModelFacts,
    route_limits: Option<RouteLimits>,
) -> (budget: Option<ContextBudget>)
    ensures
        budget == budget_of_route(*facts, route_limits),
{
    let window: u32 = route_context_window_tokens(facts.capability_window, route_limits);
    if window == 0 {
        return None;
    }
    let reserved: u32 = route_output_reservation_for_window(facts, window, route_limits);
    Some(ContextBudget::new(window as u64, 0, reserved as u64))
}

/// As `compaction_budget_for_route`, for a model without a resolved route: `None` where the
/// model table does not know the model.
#[must_use]
pub fn compaction_budget_for_model(facts: &ModelFacts) -> (budget: Option<ContextBudget>)
    ensures
        budget == budget_of_model(*facts),
{
    match facts.model_window {
        Some(window) => {
            let reserved: u32 = route_output_reservation_for_window(facts, window, None);
            Some(ContextBudget::new(window as u64, 0, reserved as u64))
        },
        None => None,
    }
}

/// The compaction threshold for a trigger that was measured for a budget: the trigger, but
/// no more than the room that input may occupy. The default applies where there is no
/// budget, or where the number is too large for the machine.
pub open spec fn threshold(
    budget: Option<ContextBudget>,
    trigger: u64,
    default_threshold: usize,
) -> usize {
    match budget {
        Some(b) => {
            let anchored = if trigger <= b.ceiling() {
                trigger as int
            } else {
                b.ceiling()
            };
            if anchored <= usize::MAX {
                anchored as usize
            } else {
                default_threshold
            }
        },
        None => default_threshold,
    }
}

/// The compaction threshold, in input tokens, for a trigger that was measured for a budget.
#[must_use]
pub fn compaction_threshold_from_trigger(
    budget: Option<ContextBudget>,
    trigger: u64,
    defaults: &BudgetDefaults,
) -> (tokens: usize)
    ensures
        tokens == threshold(budget, trigger, defaults.compaction_token_threshold),
{
    match budget {
        Some(b) => {
            let ceiling: u64 = b.input_ceiling();
            let anchored: u64 = if trigger <= ceiling {
                trigger
            } else {
                ceiling
            };
            if anchored <= usize::MAX as u64 {
                anchored as usize
            } else {
                defaults.compaction_token_threshold
            }
        },
        None => defaults.compaction_token_threshold,
    }
}

/// Whether auto-compaction is on by default for a route.
pub open spec fn auto_compact(
    facts: ModelFacts,
    defaults: BudgetDefaults,
    route_limits: Option<RouteLimits>,
) -> bool {
    if route_limits is Some && route_limits->0.context_tokens is Some {
        window_tokens(facts.capability_window, route_limits) <= defaults.auto_compact_max_window
    } else {
        facts.auto_compact_default
    }
}

/// Whether auto-compaction is on by default: where the route reports a context limit, on
/// windows up to a limit; else as the model table says.
#[must_use]
pub fn auto_compact_default_for_route(
    facts: &ModelFacts,
    defaults: &BudgetDefaults,
    route_limits: Option<RouteLimits>,
) -> (on: bool)
    ensures
        on == auto_compact(*facts, *defaults, route_limits),
{
    let reports_window: bool = match route_limits {
        Some(limits) => limits.context_tokens.is_some(),
        None => false,
    };
    if reports_window {
        return route_context_window_tokens(facts.capability_window, route_limits)
            <= defaults.auto_compact_max_window;
    }
    facts.auto_compact_default
}

/// Law: no reservation exceeds `TURN_MAX_OUTPUT_TOKENS`, unless the environment overrides
/// it.
pub proof fn law_reservation_is_bounded(
    facts: ModelFacts,
    window: u32,
    route_limits: Option<RouteLimits>,
)
    requires
        override_tokens(opt_text(facts.output_override)) is None,
    ensures
        output_reservation(facts, window, route_limits) <= TURN_MAX_OUTPUT_TOKENS,
{
}

/// Law: without a cap of the route and without an override, the reservation leaves room
/// for input: on a window that the model table knows, at least 237,856 tokens of a large
/// one and half of a smaller one remain beside the output.
pub proof fn law_reservation_leaves_room(facts: ModelFacts, route_limits: Option<RouteLimits>)
    requires
        override_tokens(opt_text(facts.output_override)) is None,
        reported_output_cap(route_limits) is None,
        facts.model_window is Some,
    ensures
        ({
            let window = facts.model_window->0;
            let reserved = output_reservation(facts, window, route_limits);
            if window >= INTERNAL_BUDGET_LARGE_WINDOW_THRESHOLD {
                window - reserved >= 237_856
            } else {
                2 * reserved <= window
            }
        }),
{
}

/// Law: the input ceiling never exceeds the window less the reserved output, and is
/// positive exactly where the two leave more than the headroom.
pub proof fn law_ceiling_fits_the_window(
    facts: ModelFacts,
    window: u32,
    route_limits: Option<RouteLimits>,
)
    ensures
        ({
            let budget = reserved_budget(facts, window, route_limits);
            let reserved = output_reservation(facts, window, route_limits);
            &&& budget.ceiling() <= window
            &&& reserved <= window ==> budget.ceiling() <= window - reserved
            &&& budget.ceiling() > 0 <==> reserved + CONTEXT_HEADROOM_TOKENS < window
        }),
{
}

/// Law: whatever trigger was measured for a route's budget, the threshold never sits above
/// the room that input may occupy, and a trigger that keeps to that room is the threshold.
pub proof fn law_threshold_keeps_to_ceiling(
    facts: ModelFacts,
    window: u32,
    route_limits: Option<RouteLimits>,
    trigger: u64,
    default_threshold: usize,
)
    ensures
        ({
            let budget = reserved_budget(facts, window, route_limits);
            let tokens = threshold(Some(budget), trigger, default_threshold);
            &&& tokens <= budget.ceiling()
            &&& trigger <= budget.ceiling() ==> tokens == trigger
        }),
{
}

/// `trigger` is the compaction trigger at a percentage of a budget: that much of the input
/// ceiling, rounded to the nearest token, and up where two are as near.
pub open spec fn is_trigger_at(budget: ContextBudget, percent: real, trigger: int) -> bool {
    let exact = (budget.ceiling() as real) * percent;
    &&& (trigger as real) * (100 as real) <= exact + (50 as real)
    &&& exact + (50 as real) < ((trigger + 1) as real) * (100 as real)
}

/// Law: no trigger at 100 percent or less exceeds the input ceiling.
pub proof fn law_trigger_keeps_to_ceiling(budget: ContextBudget, percent: real, trigger: int)
    requires
        is_trigger_at(budget, percent, trigger),
        percent <= 100 as real,
    ensures
        trigger <= budget.ceiling(),
{
    let c = budget.ceiling() as real;
    assert(c * percent <= c * (100 as real)) by (nonlinear_arith)
        requires
            c >= 0 as real,
            percent <= 100 as real,
    ;
}

/// Law: a higher percentage never triggers earlier.
pub proof fn law_trigger_grows_with_percent(
    budget: ContextBudget,
    lower: real,
    higher: real,
    early: int,
    late: int,
)
    requires
        is_trigger_at(budget, lower, early),
        is_trigger_at(budget, higher, late),
        lower <= higher,
    ensures
        early <= late,
{
    let c = budget.ceiling() as real;
    assert(c * lower <= c * higher) by (nonlinear_arith)
        requires
            c >= 0 as real,
            lower <= higher,
    ;
}

/// Law: a higher percentage triggers later where it is higher by one token of the ceiling
/// at least.
pub proof fn law_trigger_grows_strictly(
    budget: ContextBudget,
    lower: real,
    higher: real,
    early: int,
    late: int,
)
    requires
        is_trigger_at(budget, lower, early),
        is_trigger_at(budget, higher, late),
        (budget.ceiling() as real) * (higher - lower) >= 100 as real,
    ensures
        early < late,
{
    let c = budget.ceiling() as real;
    assert(c * (higher - lower) == c * higher - c * lower) by (nonlinear_arith);
}

/// Law: between the clamps, the aggressive strategy never triggers later than the default
/// one, and the prefix-cache strategy never earlier; and they trigger at different tokens
/// where the shift is one token of the ceiling at least.
pub proof fn law_strategies_order_triggers(
    budget: ContextBudget,
    base: real,
    aggressive: int,
    default: int,
    prefix_cache: int,
)
    requires
        50 as real <= base <= 95 as real,
        is_trigger_at(
            budget,
            strategy_shift(HarnessCompactionStrategy::Aggressive).applied(base),
            aggressive,
        ),
        is_trigger_at(
            budget,
            strategy_shift(HarnessCompactionStrategy::Default).applied(base),
            default,
        ),
        is_trigger_at(
            budget,
            strategy_shift(HarnessCompactionStrategy::PrefixCache).applied(base),
            prefix_cache,
        ),
    ensures
        aggressive <= default <= prefix_cache,
        prefix_cache <= budget.ceiling(),
        (budget.ceiling() as real) * (base - strategy_shift(
            HarnessCompactionStrategy::Aggressive,
        ).applied(base)) >= 100 as real ==> aggressive < default,
        (budget.ceiling() as real) * (strategy_shift(
            HarnessCompactionStrategy::PrefixCache,
        ).applied(base) - base) >= 100 as real ==> default < prefix_cache,
{
    let lower = strategy_shift(HarnessCompactionStrategy::Aggressive).applied(base);
    let higher = strategy_shift(HarnessCompactionStrategy::PrefixCache).applied(base);
    law_trigger_grows_with_percent(budget, lower, base, aggressive, default);
    law_trigger_grows_with_percent(budget, base, higher, default, prefix_cache);
    law_trigger_keeps_to_ceiling(budget, higher, prefix_cache);
    if (budget.ceiling() as real) * (base - lower) >= 100 as real {
        law_trigger_grows_strictly(budget, lower, base, aggressive, default);
    }
    if (budget.ceiling() as real) * (higher - base) >= 100 as real {
        law_trigger_grows_strictly(budget, base, higher, default, prefix_cache);
    }
}

} // verus!
