use std::cmp::Ordering;

use codewhale::app_state::{App, Hunt, PathStep, RepoLaw};
use codewhale::harness::{
    built_in_harness_profiles, compare_profile_candidates, model_pattern_specificity_score,
    resolve_harness_for_profiles, source_tier, HarnessCompactionStrategy, HarnessPosture,
    HarnessPostureKind, HarnessProfile, HarnessResolution, HarnessSafetyPosture, HarnessSource,
    HarnessToolSurface, MatchedProfile, ProfileCandidate,
};
use codewhale::harness_status::{
    format_harness_status, push_row, repo_law_display_path, HarnessCmd,
};
use codewhale::provider::{provider_routes_equal, ProviderKind, ProviderNames};
use codewhale::wildcard::wildcard_pattern_matches;
use codewhale::workspace::WorkspacePath;

fn workspace(components: &[&str]) -> WorkspacePath {
    WorkspacePath {
        components: components.iter().map(|c| c.to_string()).collect(),
    }
}

/// The constitution of the workspace `/tmp/work`.
fn constitution() -> RepoLaw {
    let step = |component: &str, rest: &str| PathStep {
        component: component.to_string(),
        rest: rest.to_string(),
    };
    RepoLaw {
        path: "/tmp/work/.codewhale/constitution.json".to_string(),
        steps: vec![
            step("/", "tmp/work/.codewhale/constitution.json"),
            step("tmp", "work/.codewhale/constitution.json"),
            step("work", ".codewhale/constitution.json"),
            step(".codewhale", "constitution.json"),
            step("constitution.json", ""),
        ],
        display: "~/.codewhale/constitution.json".to_string(),
    }
}

fn create_test_app(model: &str, provider_route: &str) -> App {
    App {
        workspace: workspace(&["/", "tmp", "work"]),
        harness_profiles: Vec::new(),
        active_harness_resolution: resolve_harness_for_profiles(
            &[],
            &ProviderNames::none(),
            provider_route,
            model,
        ),
        active_provider_route: provider_route.to_string(),
        model_display_label: model.to_string(),
        repo_law: None,
        paused: false,
        pausable: false,
        paused_quarry: None,
        hunt: Hunt {
            quarry: None,
            tokens_used: 0,
            time_used_seconds: 0,
            continuation_count: 0,
        },
    }
}

fn profile(route: &str, pattern: &str, posture: HarnessPosture) -> HarnessProfile {
    HarnessProfile {
        provider_route: route.to_string(),
        model_pattern: pattern.to_string(),
        posture,
    }
}

fn custom(max_subagents: usize) -> HarnessPosture {
    HarnessPosture {
        kind: HarnessPostureKind::Custom,
        max_subagents,
        ..HarnessPosture::default()
    }
}

fn resolve(profiles: &[HarnessProfile], route: &str, model: &str) -> HarnessResolution {
    resolve_harness_for_profiles(profiles, &ProviderNames::none(), route, model)
}

#[test]
fn harness_command_renders_cache_heavy_with_source() {
    let app = create_test_app("deepseek-v4-pro", "deepseek");
    let output = format_harness_status(&app);

    assert!(output.contains("compaction strategy and max_subagents are live"));
    assert!(output.contains("max_subagents=10 (live)"));
    assert!(output.contains("Provider"));
    assert!(output.contains("deepseek"));
    assert!(output.contains("cache-heavy"));
    assert!(output.contains("built-in seed"));
}

#[test]
fn harness_command_renders_standard_default() {
    let app = create_test_app("gpt-x", "openai");
    let output = format_harness_status(&app);

    assert!(output.contains("standard"));
    assert!(output.contains("default (no match)"));
}

#[test]
fn harness_status_is_read_only() {
    let mut app = create_test_app("deepseek-v4-pro", "deepseek");
    let before_profiles = app.harness_profiles.clone();
    let before_provider = app.active_provider_route.clone();
    let before_model = app.model_display_label.clone();

    let result = HarnessCmd::execute(&mut app, None);
    assert!(result.message.is_some());

    assert_eq!(app.harness_profiles, before_profiles);
    assert_eq!(app.active_provider_route, before_provider);
    assert_eq!(app.model_display_label, before_model);
}

#[test]
fn harness_status_is_exactly_this() {
    let app = create_test_app("deepseek-v4-pro", "deepseek");
    let expected = "Harness profile (compaction strategy and max_subagents are live; other knobs are preview)\n\
        \n\
        \x20 Provider     deepseek\n\
        \x20 Model        deepseek-v4-pro\n\
        \x20 Posture:     cache-heavy            (source: built-in seed)\n\
        \x20            max_subagents=10 (live)  compaction=prefix-cache (live)  tools=full  safety=standard\n\
        \x20 Repo law     none\n";
    assert_eq!(format_harness_status(&app), expected);
    let info = HarnessCmd::info();
    assert_eq!(info.name, "harness");
    assert_eq!(info.usage, "/harness");
    assert!(info.aliases.is_empty());
}

#[test]
fn harness_command_shows_repo_law_when_constitution_present() {
    let mut app = create_test_app("deepseek-v4-pro", "deepseek");
    app.repo_law = Some(constitution());
    let output = format_harness_status(&app);
    assert!(output.contains("Repo law"));
    assert!(output.contains(".codewhale"));
    assert!(output.contains("constitution.json"));
    assert!(output.contains("  Repo law     .codewhale/constitution.json\n"));

    let missing = create_test_app("deepseek-v4-pro", "deepseek");
    let missing_output = format_harness_status(&missing);
    assert!(missing_output.contains("Repo law"));
    assert!(missing_output.contains("none"));
}

#[test]
fn constitution_is_shown_from_the_workspace_on() {
    let law = constitution();
    for (components, shown) in [
        (vec!["/", "tmp", "work"], ".codewhale/constitution.json"),
        (vec!["/", "tmp"], "work/.codewhale/constitution.json"),
        (vec![], "/tmp/work/.codewhale/constitution.json"),
        (vec!["/", "tmp", "wor"], "~/.codewhale/constitution.json"),
        (
            vec!["/", "tmp", "work", ".codewhale", "constitution.json", "x"],
            "~/.codewhale/constitution.json",
        ),
    ] {
        assert_eq!(repo_law_display_path(&workspace(&components), &law), shown);
    }
}

#[test]
fn status_labels_cover_every_variant() {
    let mut app = create_test_app("m", "p");
    let cases = [
        (HarnessPostureKind::Standard, "standard  "),
        (HarnessPostureKind::CacheHeavy, "cache-heavy  "),
        (HarnessPostureKind::Lean, "lean  "),
        (HarnessPostureKind::Custom, "custom  "),
    ];
    for (kind, label) in cases {
        app.active_harness_resolution.posture.kind = kind;
        assert!(format_harness_status(&app).contains(&format!("Posture:     {label}")));
    }
    for (source, label) in [
        (HarnessSource::UserProfile, "(source: user config)"),
        (HarnessSource::BuiltInSeed, "(source: built-in seed)"),
        (HarnessSource::Default, "(source: default (no match))"),
    ] {
        app.active_harness_resolution.source = source;
        assert!(format_harness_status(&app).contains(label));
    }
    for (strategy, label) in [
        (HarnessCompactionStrategy::Default, "compaction=default "),
        (HarnessCompactionStrategy::PrefixCache, "compaction=prefix-cache "),
        (HarnessCompactionStrategy::Aggressive, "compaction=aggressive "),
    ] {
        app.active_harness_resolution.posture.compaction_strategy = strategy;
        assert!(format_harness_status(&app).contains(label));
    }
    for (surface, label) in [
        (HarnessToolSurface::Full, "tools=full "),
        (HarnessToolSurface::ReadOnly, "tools=read-only "),
        (HarnessToolSurface::Auto, "tools=auto "),
    ] {
        app.active_harness_resolution.posture.tool_surface = surface;
        assert!(format_harness_status(&app).contains(label));
    }
    for (safety, label) in [
        (HarnessSafetyPosture::Standard, "safety=standard\n"),
        (HarnessSafetyPosture::Strict, "safety=strict\n"),
        (HarnessSafetyPosture::Permissive, "safety=permissive\n"),
    ] {
        app.active_harness_resolution.posture.safety_posture = safety;
        assert!(format_harness_status(&app).contains(label));
    }
}

#[test]
fn row_pads_label_by_characters() {
    for label in ["", "Läbel", "exactlytwelv", "much longer than twelve"] {
        let mut out = String::from("x");
        push_row(&mut out, label, "value");
        assert_eq!(out, format!("x  {label:<12} value\n"));
    }
}

#[test]
fn built_in_seeds_resolve() {
    let r = resolve(&[], "xiaomi-mimo", "mimo-v2.5-pro");
    assert_eq!(r.posture, HarnessPosture::cache_heavy());
    assert_eq!(r.source, HarnessSource::BuiltInSeed);
    assert_eq!(
        r.matched,
        Some(MatchedProfile {
            provider_route: "xiaomi-mimo".to_string(),
            model_pattern: "mimo-v2.5*".to_string(),
        })
    );
    assert_eq!(
        resolve(&[], "arcee", "trinity-large-thinking").posture,
        HarnessPosture::cache_heavy()
    );
    assert_eq!(resolve(&[], "arcee", "trinity-large").source, HarnessSource::Default);
    for route in ["huggingface", "sglang", "vllm", "ollama"] {
        assert_eq!(resolve(&[], route, "any/model").posture, HarnessPosture::lean());
    }
    assert_eq!(built_in_harness_profiles().len(), 7);
    assert_eq!(resolve(&[], "deepseek", "deepseek-v3"), HarnessResolution::default());
}

#[test]
fn user_profile_beats_seed_even_when_broader() {
    let user = [profile("deepseek", "*", custom(3))];
    let r = resolve(&user, "deepseek", "deepseek-v4-pro");
    assert_eq!(r.source, HarnessSource::UserProfile);
    assert_eq!(r.posture.max_subagents, 3);
}

#[test]
fn narrower_pattern_beats_broader() {
    let user = [
        profile("p", "*", custom(1)),
        profile("p", "model-*", custom(2)),
        profile("p", "model-?", custom(3)),
        profile("p", "model-x", custom(4)),
    ];
    assert_eq!(resolve(&user, "p", "model-x").posture.max_subagents, 4);
    assert_eq!(resolve(&user, "p", "model-y").posture.max_subagents, 2);
    assert_eq!(resolve(&user, "p", "other").posture.max_subagents, 1);
    assert_eq!(resolve(&user[..1], "q", "other").source, HarnessSource::Default);
}

#[test]
fn declaration_order_breaks_ties_between_profiles() {
    let user = [
        profile("p", "a*", custom(1)),
        profile("p", "*a", custom(2)),
    ];
    assert_eq!(resolve(&user, "p", "aa").posture.max_subagents, 1);
}

#[test]
fn unmatched_profile_is_ignored() {
    let mut user = vec![profile("p", "a", custom(1))];
    let before = resolve(&user, "p", "a");
    user.push(profile("p", "b", custom(2)));
    assert_eq!(resolve(&user, "p", "a"), before);
}

#[test]
fn candidates_are_ordered_by_tier_first() {
    let broad = profile("p", "*", custom(1));
    let exact = profile("p", "abc", custom(2));
    let user = ProfileCandidate {
        profile: &broad,
        source: HarnessSource::UserProfile,
        declaration_index: 5,
    };
    let seed = ProfileCandidate {
        profile: &exact,
        source: HarnessSource::BuiltInSeed,
        declaration_index: 0,
    };
    assert_eq!(compare_profile_candidates(&user, &seed), Ordering::Less);
    assert_eq!(compare_profile_candidates(&seed, &user), Ordering::Greater);
    assert_eq!(compare_profile_candidates(&user, &user), Ordering::Equal);
    assert_eq!(source_tier(HarnessSource::Default), 2);
}

#[test]
fn specificity_counts_literals() {
    assert_eq!(model_pattern_specificity_score("deepseek-v4*"), (1, 11));
    assert_eq!(model_pattern_specificity_score("a?c"), (1, 2));
    assert_eq!(model_pattern_specificity_score("abc"), (0, 3));
    assert_eq!(model_pattern_specificity_score(""), (0, 0));
}

#[test]
fn wildcard_patterns_match_whole_values() {
    for (pattern, value, expected) in [
        ("", "", true),
        ("", "a", false),
        ("*", "", true),
        ("*", "anything", true),
        ("?", "", false),
        ("?", "é", true),
        ("a*c", "abc", true),
        ("a*c", "abcd", false),
        ("a*b*c", "axxbyyc", true),
        ("*ab", "aab", true),
        ("*a*a", "aba", true),
        ("deepseek-v4*", "deepseek-v4-pro", true),
        ("deepseek-v4*", "deepseek-v4", true),
        ("deepseek-v4*", "DeepSeek-v4", false),
        ("**", "x", true),
        ("a**", "a", true),
        ("*?", "x", true),
        ("*?", "", false),
    ] {
        assert_eq!(wildcard_pattern_matches(pattern, value), expected, "{pattern} {value}");
    }
}

#[test]
fn star_in_value_is_a_character_like_any_other() {
    for (pattern, value, expected) in [
        ("*", "*", true),
        ("*", "*a", true),
        ("*", "a*b", true),
        ("*b", "*ab", true),
        ("a*c", "a*bc", true),
        ("?a", "*a", true),
        ("a", "*", false),
        ("*a", "*b", false),
    ] {
        assert_eq!(wildcard_pattern_matches(pattern, value), expected, "{pattern} {value}");
    }
}

#[test]
fn unmatched_or_broader_profile_changes_nothing() {
    let names = ProviderNames::none();
    let base = [
        profile("p", "model-*", custom(1)),
        profile("p", "mod*", custom(2)),
    ];
    let expected = resolve_harness_for_profiles(&base, &names, "p", "model-x");
    assert_eq!(expected.posture.max_subagents, 1);
    for at in 0..=base.len() {
        let mut more = base.to_vec();
        more.insert(at, profile("p", "other-*", custom(3)));
        assert_eq!(resolve_harness_for_profiles(&more, &names, "p", "model-x"), expected);
    }
    let mut more = base.to_vec();
    more.push(profile("p", "model-x", custom(4)));
    assert_eq!(resolve_harness_for_profiles(&more, &names, "p", "model-x").posture.max_subagents, 4);
    let mut more = base.to_vec();
    more.push(profile("p", "*odel-x", custom(4)));
    assert_eq!(resolve_harness_for_profiles(&more, &names, "p", "model-x"), expected);
}

#[test]
fn provider_routes_compare_by_kind_or_text() {
    let none = ProviderNames::none();
    assert!(provider_routes_equal(&none, " DeepSeek\t", "deepseek"));
    assert!(!provider_routes_equal(&none, "deepseek", "deep-seek"));
    let names = ProviderNames {
        entries: vec![
            ("deepseek".to_string(), ProviderKind { id: 1 }),
            ("deep-seek".to_string(), ProviderKind { id: 1 }),
            ("openai".to_string(), ProviderKind { id: 2 }),
        ],
    };
    assert!(provider_routes_equal(&names, "deepseek", "deep-seek"));
    assert!(!provider_routes_equal(&names, "deepseek", "openai"));
    assert!(provider_routes_equal(&names, "custom", "CUSTOM"));
    assert_eq!(names.parse("openai"), Some(ProviderKind { id: 2 }));
    assert_eq!(names.parse("OpenAI"), None);
    let user = [profile("deepseek", "x*", custom(9))];
    let r = resolve_harness_for_profiles(&user, &names, "deep-seek", "x1");
    assert_eq!(r.posture.max_subagents, 9);
    assert!(user[0].matches_route(&names, "deep-seek", "x1"));
    assert!(!user[0].matches_route(&none, "deep-seek", "x1"));
}

#[test]
fn defaults_are_standard() {
    let p = HarnessPosture::default();
    assert_eq!(p.kind, HarnessPostureKind::default());
    assert_eq!(p.max_subagents, 0);
    assert!(!p.prefer_codebase_search);
    assert_eq!(HarnessProfile::default().posture, p);
    assert_eq!(HarnessResolution::default().source, HarnessSource::default());
    assert_eq!(HarnessPosture::lean().max_subagents, 20);
    assert!(HarnessPosture::lean().prefer_codebase_search);
}
