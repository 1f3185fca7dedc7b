//! What the token budgets of a route amount to, in tokens.
use vstd::prelude::*;

use crate::harness::HarnessCompactionStrategy;
use crate::route_budget::{
    auto_compact, budget_of_model, budget_of_route, effective_output, opt_text, output_reservation,
    override_tokens, reported_output_cap, request_budget, reserved_budget, strategy_shift, subagent_cap, threshold,
    window_tokens, BudgetDefaults, ContextBudget, ModelFacts, RouteLimits,
};
use crate::text::{
    decimal, law_decimal_is_canonical, law_parse_reads_decimal, law_parse_refuses_what_is_no_number,
    law_trim_cuts_white_space_only, law_trim_undoes_padding, trimmed, white_space,
};

verus! {

/// Whether a number of tokens that an offering reports counts: it is positive, and below
/// `2^32`.
pub open spec fn counts(tokens: Option<u64>) -> bool {
    tokens is Some && 0 < tokens->0 < 0x1_0000_0000
}

/// Law: a context window that the route reports wins over the capability table, whatever the
/// table says; one that does not count leaves the table to decide.
pub proof fn law_reported_window_wins(capability_window: u32, limits: RouteLimits)
    ensures
        counts(limits.context_tokens) ==> window_tokens(capability_window, Some(limits))
            == limits.context_tokens->0,
        !counts(limits.context_tokens) ==> window_tokens(capability_window, Some(limits))
            == capability_window,
        window_tokens(capability_window, None) == capability_window,
{
}

/// Law: an output cap that the route reports is what is reserved, up to 262,144 tokens,
/// whatever the window and the environment are. So no more is reserved than the route can
/// put out.
pub proof fn law_reported_output_cap_wins(facts: ModelFacts, window: u32, limits: RouteLimits)
    requires
        counts(limits.output_tokens),
    ensures
        ({
            let cap = limits.output_tokens->0;
            let reserved = output_reservation(facts, window, Some(limits));
            &&& reserved <= cap
            &&& reserved <= 262_144
            &&& reserved == cap || reserved == 262_144
        }),
{
}

/// Law: without an output cap that counts, a window of 500,000 tokens and more reserves
/// 262,144, and a smaller one what a request asks for. The other limits do not matter.
pub proof fn law_window_decides_without_a_cap(
    facts: ModelFacts,
    window: u32,
    route_limits: Option<RouteLimits>,
)
    requires
        route_limits matches Some(limits) ==> !counts(limits.output_tokens),
    ensures
        window >= 500_000 ==> output_reservation(facts, window, route_limits) == 262_144,
        window < 500_000 ==> output_reservation(facts, window, route_limits) == effective_output(
            opt_text(facts.output_override),
            facts.model_window,
        ),
{
}

/// Law: without an override, a request asks for 65,536 tokens on windows of 500,000 and
/// more, and on smaller ones for half the window, up to 65,536. A model without a known
/// window counts as one of 128,000.
pub proof fn law_request_asks_for_half_a_small_window(model_window: Option<u32>)
    ensures
        ({
            let window = match model_window {
                Some(w) => w as int,
                None => 128_000,
            };
            let asked = effective_output(None, model_window) as int;
            &&& asked <= 65_536
            &&& window >= 131_072 ==> asked == 65_536
            &&& window < 131_072 ==> 2 * asked <= window < 2 * asked + 2
        }),
{
}

/// Law: a positive number in the environment is what a request asks for, whatever the
/// model, and with white space around it.
pub proof fn law_override_wins(
    before: Seq<char>,
    n: u32,
    after: Seq<char>,
    model_window: Option<u32>,
)
    requires
        n > 0,
        forall|i: int| 0 <= i < before.len() ==> white_space(#[trigger] before[i]),
        forall|i: int| 0 <= i < after.len() ==> white_space(#[trigger] after[i]),
    ensures
        effective_output(Some(before + decimal(n as nat) + after), model_window) == n,
{
    let digits = decimal(n as nat);
    law_decimal_is_canonical(n as nat);
    assert('0' <= digits[0] <= '9');
    assert('0' <= digits[digits.len() - 1] <= '9');
    law_trim_undoes_padding(before, digits, after);
    law_parse_reads_decimal(n);
}

/// Law: what is in the environment does not count where it is zero, or holds anything but
/// digits, plus signs and white space.
pub proof fn law_bad_override_is_ignored(raw: Seq<char>, model_window: Option<u32>, at: int)
    requires
        raw == seq!['0'] || (0 <= at < raw.len() && !('0' <= raw[at] <= '9') && raw[at] != '+'
            && !white_space(raw[at])),
    ensures
        effective_output(Some(raw), model_window) == effective_output(None, model_window),
{
    if raw == seq!['0'] {
        law_trim_undoes_padding(Seq::empty(), raw, Seq::empty());
        assert(Seq::<char>::empty() + raw + Seq::<char>::empty() =~= raw);
        assert(decimal(0) =~= seq!['0']);
        law_parse_reads_decimal(0);
        assert(override_tokens(Some(raw)) is None);
    } else {
        let (from, to) = law_trim_cuts_white_space_only(raw);
        assert(from <= at < to);
        let text = trimmed(raw);
        assert(text[at - from] == raw[at]);
        law_parse_refuses_what_is_no_number(text);
        assert(override_tokens(Some(raw)) is None);
    }
}

/// Law: input, reserved output and 1,024 tokens of headroom fill the window, and input has
/// no room where the other two do not leave any.
pub proof fn law_ceiling_is_what_is_left(budget: ContextBudget)
    ensures
        budget.window_tokens >= budget.output_tokens + 1_024 ==> budget.ceiling()
            + budget.output_tokens + 1_024 == budget.window_tokens,
        budget.window_tokens < budget.output_tokens + 1_024 ==> budget.ceiling() == 0,
{
}

/// Law: the budget of a request holds the window of its route, the input and the configured
/// output.
pub proof fn law_request_budget_holds_its_parts(
    capability_window: u32,
    route_limits: Option<RouteLimits>,
    input_tokens: usize,
    output_cap: u32,
)
    ensures
        ({
            let budget = request_budget(
                capability_window,
                route_limits,
                input_tokens,
                output_cap,
            );
            &&& budget.window_tokens == window_tokens(capability_window, route_limits)
            &&& budget.input_tokens == input_tokens
            &&& budget.output_tokens == output_cap
        }),
{
}

/// Law: a compaction trigger is measured for a window that nothing has been put into, with
/// the output reserved. It is the route's window for a route, and that of the model table for
/// a model; and there is no budget exactly where there is no window.
pub proof fn law_compaction_budgets_reserve_the_output(
    facts: ModelFacts,
    route_limits: Option<RouteLimits>,
)
    ensures
        ({
            let window = window_tokens(facts.capability_window, route_limits);
            &&& budget_of_route(facts, route_limits) is None <==> window == 0
            &&& budget_of_route(facts, route_limits) matches Some(budget) ==> {
                &&& budget.window_tokens == window
                &&& budget.input_tokens == 0
                &&& budget.output_tokens == output_reservation(facts, window, route_limits)
            }
        }),
        budget_of_model(facts) is None <==> facts.model_window is None,
        budget_of_model(facts) matches Some(budget) ==> {
            &&& budget.window_tokens == facts.model_window->0
            &&& budget.input_tokens == 0
            &&& budget.output_tokens == output_reservation(facts, facts.model_window->0, None)
        },
{
}

/// Law: a route that reports both of its limits is budgeted by them alone, whatever the
/// tables and the environment say.
pub proof fn law_reported_limits_decide_the_budget(
    facts: ModelFacts,
    other: ModelFacts,
    limits: RouteLimits,
)
    requires
        counts(limits.context_tokens),
        counts(limits.output_tokens),
    ensures
        budget_of_route(facts, Some(limits)) == budget_of_route(other, Some(limits)),
        budget_of_route(facts, Some(limits)) matches Some(budget) && budget.window_tokens
            == limits.context_tokens->0 && budget.output_tokens <= limits.output_tokens->0,
{
}

/// Law: a threshold is the trigger or the room for input, whichever is less; without a
/// budget it is the default.
pub proof fn law_threshold_is_the_lesser(
    facts: ModelFacts,
    window: u32,
    route_limits: Option<RouteLimits>,
    trigger: u64,
    default_threshold: usize,
)
    ensures
        ({
            let budget = reserved_budget(facts, window, route_limits);
            let tokens = threshold(Some(budget), trigger, default_threshold);
            &&& tokens <= trigger
            &&& tokens <= budget.ceiling()
            &&& tokens == trigger || tokens == budget.ceiling()
        }),
        threshold(None, trigger, default_threshold) == default_threshold,
{
}

/// Law: a route that reports a context limit compacts automatically by default exactly up to
/// the configured window; any other route as the model table says.
pub proof fn law_auto_compaction_goes_by_the_window(
    facts: ModelFacts,
    defaults: BudgetDefaults,
    route_limits: Option<RouteLimits>,
)
    ensures
        (route_limits matches Some(limits) && limits.context_tokens is Some) ==> (auto_compact(
            facts,
            defaults,
            route_limits,
        ) <==> window_tokens(facts.capability_window, route_limits)
            <= defaults.auto_compact_max_window),
        !(route_limits matches Some(limits) && limits.context_tokens is Some) ==> auto_compact(
            facts,
            defaults,
            route_limits,
        ) == facts.auto_compact_default,
{
}

/// Law: limits are known exactly where the offering reports any.
pub proof fn law_limits_are_known_where_reported(limits: RouteLimits)
    ensures
        !limits.known() <==> (limits.context_tokens is None && limits.output_tokens is None
            && !limits.other_limit_known),
{
}

/// Law: a posture's cap replaces the configured default, and 0 keeps it; what is then asked
/// for is what is had, between 1 and 20.
pub proof fn law_posture_cap_replaces_the_default(posture_cap: usize, config_default: usize)
    ensures
        1 <= subagent_cap(posture_cap, config_default) <= 20,
        1 <= posture_cap <= 20 ==> subagent_cap(posture_cap, config_default) == posture_cap,
        posture_cap > 20 ==> subagent_cap(posture_cap, config_default) == 20,
        posture_cap == 0 && 1 <= config_default <= 20 ==> subagent_cap(posture_cap, config_default)
            == config_default,
        posture_cap == 0 && config_default > 20 ==> subagent_cap(posture_cap, config_default)
            == 20,
        posture_cap == 0 && config_default == 0 ==> subagent_cap(posture_cap, config_default) == 1,
{
}

/// Law: the prefix-cache strategy compacts 8 points later and the aggressive one 12 points
/// earlier, wherever that stays between 50 and 95 percent; what goes beyond is brought back
/// to the nearer end.
pub proof fn law_strategies_shift_by_points(base: real)
    ensures
        ({
            let later = strategy_shift(HarnessCompactionStrategy::PrefixCache).applied(base);
            let earlier = strategy_shift(HarnessCompactionStrategy::Aggressive).applied(base);
            &&& 42 as real <= base <= 87 as real ==> later - base == 8 as real
            &&& base > 87 as real ==> later == 95 as real
            &&& base < 42 as real ==> later == 50 as real
            &&& 62 as real <= base <= 107 as real ==> base - earlier == 12 as real
            &&& base > 107 as real ==> earlier == 95 as real
            &&& base < 62 as real ==> earlier == 50 as real
            &&& strategy_shift(HarnessCompactionStrategy::Default).applied(base) == base
        }),
{
}

/// Law: the output cap of a route is the one that it reports, where that counts.
pub proof fn law_output_cap_is_the_reported_one(route_limits: Option<RouteLimits>)
    ensures
        (route_limits matches Some(limits) && counts(limits.output_tokens)) ==> (
        reported_output_cap(route_limits) matches Some(cap) && cap
            == route_limits->0.output_tokens->0),
        !(route_limits matches Some(limits) && counts(limits.output_tokens))
            ==> reported_output_cap(route_limits) is None,
{
}

/// Law: whatever the budget is, a threshold that the machine can hold is the lesser one of
/// the trigger and the room for input.
pub proof fn law_threshold_is_the_lesser_for_every_budget(
    budget: ContextBudget,
    trigger: u64,
    default_threshold: usize,
)
    requires
        trigger <= usize::MAX || budget.ceiling() <= usize::MAX,
    ensures
        ({
            let tokens = threshold(Some(budget), trigger, default_threshold);
            &&& tokens <= trigger
            &&& tokens <= budget.ceiling()
            &&& tokens == trigger || tokens == budget.ceiling()
        }),
{
}

} // verus!
