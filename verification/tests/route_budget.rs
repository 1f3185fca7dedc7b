use codewhale::harness::HarnessCompactionStrategy;
use codewhale::route_budget::{
    auto_compact_default_for_route, compaction_budget_for_model, compaction_budget_for_route,
    compaction_threshold_from_trigger, effective_max_output_tokens, known_route_limits,
    max_subagents_for_posture, percent_shift_for_strategy, route_context_budget,
    route_context_window_tokens, route_output_limit_tokens, route_output_reservation_for_window,
    BudgetDefaults, ContextBudget, ModelFacts, PercentShift, RouteLimits, API_MAX_OUTPUT_TOKENS,
    COMPACTION_PCT_CEILING, COMPACTION_PCT_FLOOR, MAX_SUBAGENTS, TURN_MAX_OUTPUT_TOKENS,
};

const DEFAULTS: BudgetDefaults = BudgetDefaults {
    compaction_token_threshold: 50_000,
    auto_compact_max_window: 256_000,
};

fn facts(capability_window: u32, model_window: Option<u32>) -> ModelFacts {
    ModelFacts {
        capability_window,
        model_window,
        auto_compact_default: true,
        output_override: None,
    }
}

/// What the model table says of the models that the tests name.
fn model_window(model: &str) -> Option<u32> {
    match model {
        "deepseek-v4-pro" => Some(1_000_000),
        "trinity-large-thinking" => Some(262_144),
        "deepseek-v3.2-128k" => Some(128_000),
        _ => None,
    }
}

fn ceiling(window: u32, reservation: u32) -> u64 {
    u64::from(window)
        .saturating_sub(u64::from(reservation))
        .saturating_sub(1_024)
}

fn trigger(budget: &ContextBudget, percent: f64) -> u64 {
    (budget.input_ceiling() as f64 * (percent / 100.0) + 0.5) as u64
}

fn threshold_at(budget: Option<ContextBudget>, percent: f64) -> usize {
    let measured = budget.map_or(0, |b| trigger(&b, percent));
    compaction_threshold_from_trigger(budget, measured, &DEFAULTS)
}

fn threshold_pct_for_strategy(strategy: HarnessCompactionStrategy, base: f64) -> f64 {
    match percent_shift_for_strategy(strategy) {
        PercentShift::Unchanged => base,
        PercentShift::Raise { by, floor, ceiling } => (base + f64::from(by))
            .min(f64::from(ceiling))
            .max(f64::from(floor)),
        PercentShift::Lower { by, floor, ceiling } => (base - f64::from(by))
            .max(f64::from(floor))
            .min(f64::from(ceiling)),
    }
}

#[test]
fn shifted_percent_is_clamped_to_the_band() {
    for (strategy, base, expected) in [
        (HarnessCompactionStrategy::PrefixCache, 10.0, 50.0),
        (HarnessCompactionStrategy::PrefixCache, 80.0, 88.0),
        (HarnessCompactionStrategy::PrefixCache, 90.0, 95.0),
        (HarnessCompactionStrategy::Aggressive, 120.0, 95.0),
        (HarnessCompactionStrategy::Aggressive, 80.0, 68.0),
        (HarnessCompactionStrategy::Aggressive, 55.0, 50.0),
        (HarnessCompactionStrategy::Default, 120.0, 120.0),
    ] {
        assert_eq!(threshold_pct_for_strategy(strategy, base), expected);
    }
}

#[test]
fn threshold_is_anchored_to_the_ceiling() {
    let budget = ContextBudget::new(10_000, 0, 2_000);
    assert_eq!(budget.input_ceiling(), 6_976);
    for (trigger, expected) in [(0, 0), (6_976, 6_976), (6_977, 6_976), (u64::MAX, 6_976)] {
        assert_eq!(
            compaction_threshold_from_trigger(Some(budget), trigger, &DEFAULTS),
            expected
        );
    }
}

#[test]
fn route_trigger_anchors_to_input_ceiling_on_v4() {
    let f = facts(1_000_000, model_window("deepseek-v4-pro"));
    let window = route_context_window_tokens(f.capability_window, None);
    assert_eq!(window, 1_000_000);
    let reservation = route_output_reservation_for_window(&f, window, None);
    assert_eq!(reservation, TURN_MAX_OUTPUT_TOKENS);

    let expected_ceiling = ceiling(window, reservation);
    let trigger = threshold_at(compaction_budget_for_route(&f, None), 80.0);
    assert_eq!(trigger as u64, (expected_ceiling as f64 * 0.8 + 0.5) as u64);
    assert!(trigger < 800_000);
    assert!(trigger as u64 <= expected_ceiling);
}

#[test]
fn route_trigger_does_not_exceed_ceiling_on_tight_window() {
    let f = facts(64_000, model_window("custom-local-256k"));
    let limits = RouteLimits {
        context_tokens: Some(262_144),
        output_tokens: Some(120_000),
        ..Default::default()
    };
    let window = route_context_window_tokens(f.capability_window, Some(limits));
    assert_eq!(window, 262_144);
    let reservation = route_output_reservation_for_window(&f, window, Some(limits));
    assert_eq!(reservation, 120_000);

    let expected_ceiling = ceiling(window, reservation);
    let trigger = threshold_at(compaction_budget_for_route(&f, Some(limits)), 80.0);
    let old_window_relative = (f64::from(window) * 0.8) as usize;
    assert!(trigger as u64 <= expected_ceiling);
    assert!(trigger < old_window_relative);
}

#[test]
fn model_trigger_never_exceeds_ceiling() {
    for model in [
        "deepseek-v4-pro",
        "trinity-large-thinking",
        "deepseek-v3.2-128k",
        "unknown-model",
    ] {
        let f = facts(0, model_window(model));
        let trigger = threshold_at(compaction_budget_for_model(&f), 80.0);
        let Some(window) = model_window(model) else {
            continue;
        };
        let reservation = route_output_reservation_for_window(&f, window, None);
        assert!(trigger as u64 <= ceiling(window, reservation));
        assert!(trigger > 0);
    }
}

#[test]
fn unknown_window_uses_default_threshold() {
    let f = facts(0, model_window("totally-unknown-xyz"));
    let trigger = threshold_at(compaction_budget_for_model(&f), 80.0);
    assert!(trigger > 0);
    assert_eq!(trigger, DEFAULTS.compaction_token_threshold);
}

#[test]
fn threshold_pct_for_strategy_default_is_identity() {
    assert_eq!(
        threshold_pct_for_strategy(HarnessCompactionStrategy::Default, 80.0),
        80.0
    );
}

#[test]
fn threshold_pct_for_strategy_prefix_cache_is_later() {
    let adjusted = threshold_pct_for_strategy(HarnessCompactionStrategy::PrefixCache, 80.0);
    assert!(adjusted > 80.0);
    assert!(adjusted <= f64::from(COMPACTION_PCT_CEILING));
    assert_eq!(adjusted, 88.0);
    assert_eq!(
        threshold_pct_for_strategy(HarnessCompactionStrategy::PrefixCache, 90.0),
        95.0
    );
}

#[test]
fn threshold_pct_for_strategy_aggressive_is_earlier() {
    let adjusted = threshold_pct_for_strategy(HarnessCompactionStrategy::Aggressive, 80.0);
    assert!(adjusted < 80.0);
    assert!(adjusted >= f64::from(COMPACTION_PCT_FLOOR));
    assert_eq!(adjusted, 68.0);
    assert_eq!(
        threshold_pct_for_strategy(HarnessCompactionStrategy::Aggressive, 55.0),
        50.0
    );
}

#[test]
fn default_strategy_compact_threshold_matches_legacy_percent() {
    let f = facts(1_000_000, model_window("deepseek-v4-pro"));
    let base = 80.0;
    let legacy = threshold_at(compaction_budget_for_route(&f, None), base);
    let adjusted = threshold_at(
        compaction_budget_for_route(&f, None),
        threshold_pct_for_strategy(HarnessCompactionStrategy::Default, base),
    );
    assert_eq!(legacy, adjusted);
}

#[test]
fn headless_model_trigger_respects_compaction_strategy() {
    let f = facts(0, model_window("deepseek-v4-pro"));
    let base = 80.0;
    let default_trigger = threshold_at(
        compaction_budget_for_model(&f),
        threshold_pct_for_strategy(HarnessCompactionStrategy::Default, base),
    );
    let aggressive_trigger = threshold_at(
        compaction_budget_for_model(&f),
        threshold_pct_for_strategy(HarnessCompactionStrategy::Aggressive, base),
    );
    assert!(aggressive_trigger < default_trigger);
}

#[test]
fn max_subagents_for_posture_zero_is_identity() {
    assert_eq!(max_subagents_for_posture(0, 20), 20);
    assert_eq!(max_subagents_for_posture(0, 8), 8);
}

#[test]
fn max_subagents_for_posture_overrides_default() {
    assert_eq!(max_subagents_for_posture(10, 20), 10);
}

#[test]
fn max_subagents_for_posture_cannot_exceed_ceiling() {
    assert_eq!(max_subagents_for_posture(999, 20), MAX_SUBAGENTS);
}

#[test]
fn max_subagents_for_posture_clamps_config_default() {
    assert_eq!(
        max_subagents_for_posture(0, 0),
        1,
        "zero config default still clamps to the floor"
    );
    assert_eq!(max_subagents_for_posture(0, 999), MAX_SUBAGENTS);
}

#[test]
fn unusable_route_limits_fall_back() {
    for tokens in [None, Some(0), Some(u64::from(u32::MAX) + 1)] {
        let limits = RouteLimits {
            context_tokens: tokens,
            output_tokens: tokens,
            other_limit_known: false,
        };
        assert_eq!(route_context_window_tokens(77, Some(limits)), 77);
        assert_eq!(route_output_limit_tokens(Some(limits)), None);
    }
    assert_eq!(route_output_limit_tokens(None), None);
    let limits = RouteLimits {
        output_tokens: Some(u64::from(u32::MAX)),
        ..Default::default()
    };
    assert_eq!(route_output_limit_tokens(Some(limits)), Some(u32::MAX));
    assert_eq!(
        route_output_reservation_for_window(&facts(0, None), 100, Some(limits)),
        TURN_MAX_OUTPUT_TOKENS
    );
}

#[test]
fn limits_without_any_known_value_are_dropped() {
    assert_eq!(known_route_limits(RouteLimits::default()), None);
    let other = RouteLimits {
        other_limit_known: true,
        ..Default::default()
    };
    assert_eq!(known_route_limits(other), Some(other));
    let context = RouteLimits {
        context_tokens: Some(5),
        ..Default::default()
    };
    assert_eq!(known_route_limits(context), Some(context));
}

#[test]
fn effective_output_follows_override_and_window() {
    let with = |raw: &str| Some(raw.to_string());
    assert_eq!(effective_max_output_tokens(&with(" 4096\n"), None), 4096);
    assert_eq!(effective_max_output_tokens(&with("+7"), Some(10)), 7);
    for ignored in ["", "0", "-1", "4k", "99999999999", "+"] {
        assert_eq!(
            effective_max_output_tokens(&with(ignored), Some(1_000_000)),
            API_MAX_OUTPUT_TOKENS
        );
    }
    assert_eq!(effective_max_output_tokens(&None, None), 64_000);
    assert_eq!(effective_max_output_tokens(&None, Some(100_000)), 50_000);
    assert_eq!(effective_max_output_tokens(&None, Some(400_000)), 65_536);
    assert_eq!(effective_max_output_tokens(&None, Some(500_000)), 65_536);
}

#[test]
fn reservation_leaves_room_for_input() {
    let small = facts(200_000, Some(200_000));
    let budget = compaction_budget_for_route(&small, None).unwrap();
    assert_eq!(budget.output_tokens, 65_536);
    assert_eq!(budget.input_ceiling(), 200_000 - 65_536 - 1_024);
    let tiny = facts(1_000, Some(1_000));
    assert_eq!(
        compaction_budget_for_route(&tiny, None).unwrap().input_ceiling(),
        0
    );
    assert_eq!(compaction_budget_for_route(&facts(0, None), None), None);
}

#[test]
fn request_budget_holds_its_parts() {
    let budget = route_context_budget(128_000, None, 1_234, 9_000).unwrap();
    assert_eq!(budget, ContextBudget::new(128_000, 1_234, 9_000));
    assert_eq!(budget.input_ceiling(), 128_000 - 9_000 - 1_024);
}

#[test]
fn auto_compaction_default_follows_reported_window() {
    let f = facts(1_000_000, None);
    assert!(auto_compact_default_for_route(&f, &DEFAULTS, None));
    let limits = |tokens| {
        Some(RouteLimits {
            context_tokens: Some(tokens),
            ..Default::default()
        })
    };
    assert!(auto_compact_default_for_route(&f, &DEFAULTS, limits(256_000)));
    assert!(!auto_compact_default_for_route(&f, &DEFAULTS, limits(256_001)));
    // A reported window of zero does not count, but the table's window is then compared.
    assert!(!auto_compact_default_for_route(&f, &DEFAULTS, limits(0)));
}
