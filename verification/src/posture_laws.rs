//! Which posture a route gets, in terms of the route and the profiles.
use vstd::prelude::*;

use crate::harness::{
    built_in_profiles, candidate_key, has_wildcard, law_default_iff_nothing_matches,
    law_resolution_takes_the_best, law_winner_is_unique, literal_count, precedes, profile_matches,
    profile_views, tier, Declaration, HarnessCompactionStrategy,
    HarnessPostureKind, HarnessProfile, HarnessResolution, HarnessSafetyPosture, HarnessSource,
    HarnessToolSurface, RouteQuery,
};
use crate::provider::{same_provider_route, ProviderKind};
use crate::route_budget::strategy_shift;
use crate::wildcard::{
    glob, law_exact_pattern_matches_itself_only, law_prefix_pattern_matches_what_begins_with_it,
    law_single_star_matches,
};

verus! {

/// Law: a pattern has wildcards exactly where it holds a star or a question mark, and every
/// other character makes it more specific by one.
pub proof fn law_specificity_counts_literals(pattern: Seq<char>, c: char)
    ensures
        has_wildcard(pattern) <==> (pattern.contains('*') || pattern.contains('?')),
        literal_count(Seq::empty()) == 0,
        literal_count(pattern.push(c)) == literal_count(pattern) + (if c == '*' || c == '?' {
            0int
        } else {
            1int
        }),
{
    assert(pattern.push(c).drop_last() =~= pattern);
    if pattern.contains('*') {
        let i = choose|i: int| 0 <= i < pattern.len() && pattern[i] == '*';
        assert(pattern[i] == '*');
    }
    if pattern.contains('?') {
        let i = choose|i: int| 0 <= i < pattern.len() && pattern[i] == '?';
        assert(pattern[i] == '?');
    }
}

/// Law: the user's profiles come before the built-in seeds, and both before the default,
/// whatever their patterns are and wherever they are declared.
pub proof fn law_sources_come_in_order(p: Seq<char>, i: nat, q: Seq<char>, j: nat)
    ensures
        tier(HarnessSource::UserProfile) < tier(HarnessSource::BuiltInSeed) < tier(
            HarnessSource::Default,
        ),
        precedes(
            candidate_key(HarnessSource::UserProfile, p, i),
            candidate_key(HarnessSource::BuiltInSeed, q, j),
        ),
{
}

/// Law: of two candidates of one source, the first one precedes where its pattern is exact
/// and the other's is not; where both are or neither is, where it has more literal
/// characters; and where they have as many, where it is declared earlier.
pub proof fn law_specificity_decides_within_a_source(
    source: HarnessSource,
    p: Seq<char>,
    i: nat,
    q: Seq<char>,
    j: nat,
)
    ensures
        ({
            let first = precedes(candidate_key(source, p, i), candidate_key(source, q, j));
            let p_exact = !p.contains('*') && !p.contains('?');
            let q_exact = !q.contains('*') && !q.contains('?');
            &&& p_exact && !q_exact ==> first
            &&& !p_exact && q_exact ==> !first
            &&& p_exact == q_exact && literal_count(p) > literal_count(q) ==> first
            &&& p_exact == q_exact && literal_count(p) < literal_count(q) ==> !first
            &&& p_exact == q_exact && literal_count(p) == literal_count(q) ==> (first <==> i < j)
        }),
{
    law_specificity_counts_literals(p, 'a');
    law_specificity_counts_literals(q, 'a');
}

/// Law: a profile applies to a route exactly where it is for that provider route and its
/// pattern matches the model.
pub proof fn law_profile_applies_by_provider_and_model(
    profile: HarnessProfile,
    names: Seq<(String, ProviderKind)>,
    provider_route: Seq<char>,
    model: Seq<char>,
)
    ensures
        profile_matches(profile@, names, provider_route, model) <==> (same_provider_route(
            names,
            profile.provider_route@,
            provider_route,
        ) && glob(profile.model_pattern@, model)),
{
}

/// Law: where the user's profile at `index` wins, the resolution holds its posture, names the
/// user's configuration as the source, and shows its provider route and its pattern.
pub proof fn law_resolution_shows_the_user_profile(
    profiles: Seq<HarnessProfile>,
    names: Seq<(String, ProviderKind)>,
    provider_route: Seq<char>,
    model: Seq<char>,
    index: nat,
    resolution: HarnessResolution,
)
    requires
        index < profiles.len(),
        ({
            let query = RouteQuery {
                user: profile_views(profiles),
                names,
                provider_route,
                model,
            };
            &&& query.is_winner(Declaration { source: HarnessSource::UserProfile, index })
            &&& resolution@ == query.resolution()
        }),
    ensures
        resolution.posture == profiles[index as int].posture,
        resolution.source == HarnessSource::UserProfile,
        resolution.matched matches Some(shown) && shown.provider_route@
            == profiles[index as int].provider_route@ && shown.model_pattern@
            == profiles[index as int].model_pattern@,
{
    let query = RouteQuery { user: profile_views(profiles), names, provider_route, model };
    let d = Declaration { source: HarnessSource::UserProfile, index };
    let w = law_resolution_takes_the_best(query, d);
    law_winner_is_unique(query, w, d);
    assert(query.profile(d) == profiles[index as int]@);
}

/// Whether a route is one of those for which a cache-heavy posture is built in.
pub open spec fn is_cache_heavy_route(
    names: Seq<(String, ProviderKind)>,
    route: Seq<char>,
    model: Seq<char>,
) -> bool {
    ||| same_provider_route(names, "deepseek"@, route) && "deepseek-v4"@.is_prefix_of(model)
    ||| same_provider_route(names, "xiaomi-mimo"@, route) && "mimo-v2.5"@.is_prefix_of(model)
    ||| same_provider_route(names, "arcee"@, route) && model == "trinity-large-thinking"@
}

/// Whether a provider route is one of those for which a lean posture is built in.
pub open spec fn is_lean_route(names: Seq<(String, ProviderKind)>, route: Seq<char>) -> bool {
    ||| same_provider_route(names, "huggingface"@, route)
    ||| same_provider_route(names, "sglang"@, route)
    ||| same_provider_route(names, "vllm"@, route)
    ||| same_provider_route(names, "ollama"@, route)
}

/// No profile of the user matches the route.
pub open spec fn no_user_profile_matches(query: RouteQuery) -> bool {
    forall|i: int|
        0 <= i < query.user.len() ==> !profile_matches(
            #[trigger] query.user[i],
            query.names,
            query.provider_route,
            query.model,
        )
}

spec fn seed_at(index: nat) -> Declaration {
    Declaration { source: HarnessSource::BuiltInSeed, index }
}

/// Which seeds match a route.
proof fn lemma_seeds_match(query: RouteQuery)
    ensures
        built_in_profiles().len() == 7,
        (query.is_candidate(seed_at(0)) || query.is_candidate(seed_at(1)) || query.is_candidate(
            seed_at(2),
        )) <==> is_cache_heavy_route(query.names, query.provider_route, query.model),
        (query.is_candidate(seed_at(3)) || query.is_candidate(seed_at(4)) || query.is_candidate(
            seed_at(5),
        ) || query.is_candidate(seed_at(6))) <==> is_lean_route(query.names, query.provider_route),
{
    reveal_strlit("deepseek-v4*");
    reveal_strlit("deepseek-v4");
    reveal_strlit("mimo-v2.5*");
    reveal_strlit("mimo-v2.5");
    reveal_strlit("trinity-large-thinking");
    reveal_strlit("*");
    assert("deepseek-v4"@.push('*') =~= "deepseek-v4*"@);
    law_prefix_pattern_matches_what_begins_with_it("deepseek-v4"@, query.model);
    assert("mimo-v2.5"@.push('*') =~= "mimo-v2.5*"@);
    law_prefix_pattern_matches_what_begins_with_it("mimo-v2.5"@, query.model);
    law_exact_pattern_matches_itself_only("trinity-large-thinking"@, query.model);
    assert("*"@ =~= seq!['*']);
    law_single_star_matches(query.model);
    let seeds = built_in_profiles();
    assert(query.profile(seed_at(0)) == seeds[0]);
    assert(query.profile(seed_at(1)) == seeds[1]);
    assert(query.profile(seed_at(2)) == seeds[2]);
    assert(query.profile(seed_at(3)) == seeds[3]);
    assert(query.profile(seed_at(4)) == seeds[4]);
    assert(query.profile(seed_at(5)) == seeds[5]);
    assert(query.profile(seed_at(6)) == seeds[6]);
}

/// The cache-heavy seeds are more specific than the lean ones.
proof fn lemma_cache_heavy_seeds_come_first(query: RouteQuery, heavy: nat, lean: nat)
    requires
        heavy < 3,
        3 <= lean < 7,
    ensures
        precedes(query.key(seed_at(heavy)), query.key(seed_at(lean))),
{
    reveal_strlit("deepseek-v4*");
    reveal_strlit("mimo-v2.5*");
    reveal_strlit("trinity-large-thinking");
    reveal_strlit("*");
    let seeds = built_in_profiles();
    assert(query.profile(seed_at(heavy)) == seeds[heavy as int]);
    assert(query.profile(seed_at(lean)) == seeds[lean as int]);
    let star = "*"@;
    assert(star =~= Seq::empty().push('*'));
    law_specificity_counts_literals(Seq::empty(), '*');
    law_specificity_counts_literals(star, 'a');
    assert(star[0] == '*');
    assert(star.contains('*'));
    let pattern = seeds[heavy as int].model_pattern;
    if heavy < 2 {
        lemma_literals_are_counted(pattern, 0);
        assert(pattern.last() == '*');
        assert(pattern.contains('*'));
        law_specificity_counts_literals(pattern, 'a');
    } else {
        law_specificity_counts_literals(pattern, 'a');
        assert(!has_wildcard(pattern));
    }
}

proof fn lemma_literals_are_counted(pattern: Seq<char>, i: int)
    requires
        0 <= i < pattern.len(),
        pattern[i] != '*',
        pattern[i] != '?',
    ensures
        literal_count(pattern) > 0,
    decreases pattern.len(),
{
    let front = pattern.drop_last();
    assert(front.push(pattern.last()) =~= pattern);
    law_specificity_counts_literals(front, pattern.last());
    if i < pattern.len() - 1 {
        lemma_literals_are_counted(front, i);
    }
}

/// Where no profile of the user matches, every candidate is a seed.
proof fn lemma_only_seeds(query: RouteQuery, d: Declaration)
    requires
        no_user_profile_matches(query),
        query.is_candidate(d),
    ensures
        d.source == HarnessSource::BuiltInSeed,
        d.index < 7,
{
    lemma_seeds_match(query);
    if d.source == HarnessSource::UserProfile {
        assert(query.profile(d) == query.user[d.index as int]);
    }
}

/// Law: DeepSeek V4, MiMo V2.5 and Trinity Large Thinking get a cache-heavy posture where no
/// profile of the user matches: ten sub-agents, the full tools, and a compaction that comes
/// later than by default.
pub proof fn law_cache_heavy_routes_compact_later(query: RouteQuery, base: real)
    requires
        no_user_profile_matches(query),
        is_cache_heavy_route(query.names, query.provider_route, query.model),
    ensures
        ({
            let posture = query.resolution().posture;
            &&& query.resolution().source == HarnessSource::BuiltInSeed
            &&& query.resolution().matched is Some
            &&& posture.kind == HarnessPostureKind::CacheHeavy
            &&& posture.max_subagents == 10
            &&& !posture.prefer_codebase_search
            &&& posture.tool_surface == HarnessToolSurface::Full
            &&& posture.safety_posture == HarnessSafetyPosture::Standard
            &&& base < 95 as real ==> strategy_shift(posture.compaction_strategy).applied(base)
                > base
        }),
{
    lemma_seeds_match(query);
    let heavy: nat = if query.is_candidate(seed_at(0)) {
        0
    } else if query.is_candidate(seed_at(1)) {
        1
    } else {
        2
    };
    let w = law_resolution_takes_the_best(query, seed_at(heavy));
    assert(query.is_candidate(w));
    lemma_only_seeds(query, w);
    if w.index >= 3 {
        assert(w == seed_at(w.index));
        lemma_cache_heavy_seeds_come_first(query, heavy, w.index);
    }
    assert(query.profile(w) == built_in_profiles()[w.index as int]);
}

/// Law: Hugging Face, SGLang, vLLM and Ollama get a lean posture where no profile of the user
/// matches and no cache-heavy posture is built in: twenty sub-agents, which explore, the full
/// tools, and a compaction that comes earlier than by default.
pub proof fn law_lean_routes_compact_earlier(query: RouteQuery, base: real)
    requires
        no_user_profile_matches(query),
        is_lean_route(query.names, query.provider_route),
        !is_cache_heavy_route(query.names, query.provider_route, query.model),
    ensures
        ({
            let posture = query.resolution().posture;
            &&& query.resolution().source == HarnessSource::BuiltInSeed
            &&& query.resolution().matched matches Some(shown) && shown.1 == "*"@
            &&& posture.kind == HarnessPostureKind::Lean
            &&& posture.max_subagents == 20
            &&& posture.prefer_codebase_search
            &&& posture.tool_surface == HarnessToolSurface::Full
            &&& posture.safety_posture == HarnessSafetyPosture::Standard
            &&& base > 50 as real ==> strategy_shift(posture.compaction_strategy).applied(base)
                < base
        }),
{
    lemma_seeds_match(query);
    let lean: nat = if query.is_candidate(seed_at(3)) {
        3
    } else if query.is_candidate(seed_at(4)) {
        4
    } else if query.is_candidate(seed_at(5)) {
        5
    } else {
        6
    };
    let w = law_resolution_takes_the_best(query, seed_at(lean));
    assert(query.is_candidate(w));
    lemma_only_seeds(query, w);
    assert(w == seed_at(w.index));
    assert(w.index >= 3);
    assert(query.profile(w) == built_in_profiles()[w.index as int]);
}

/// Law: every other route gets the standard posture where no profile of the user matches: no
/// cap of its own, the full tools, and compaction as configured.
pub proof fn law_other_routes_are_standard(query: RouteQuery, base: real)
    requires
        no_user_profile_matches(query),
        !is_lean_route(query.names, query.provider_route),
        !is_cache_heavy_route(query.names, query.provider_route, query.model),
    ensures
        ({
            let posture = query.resolution().posture;
            &&& query.resolution().source == HarnessSource::Default
            &&& query.resolution().matched is None
            &&& posture.kind == HarnessPostureKind::Standard
            &&& posture.max_subagents == 0
            &&& !posture.prefer_codebase_search
            &&& posture.tool_surface == HarnessToolSurface::Full
            &&& posture.safety_posture == HarnessSafetyPosture::Standard
            &&& strategy_shift(posture.compaction_strategy).applied(base) == base
        }),
{
    lemma_seeds_match(query);
    law_default_iff_nothing_matches(query);
    assert forall|d: Declaration| !#[trigger] query.is_candidate(d) by {
        if query.is_candidate(d) {
            lemma_only_seeds(query, d);
            assert(d == seed_at(d.index));
        }
    }
}

/// Law: each strategy compacts in a way of its own: between the clamps, none of the three
/// shifts a percentage to where another one does.
pub proof fn law_strategies_differ(
    a: HarnessCompactionStrategy,
    b: HarnessCompactionStrategy,
    base: real,
)
    requires
        base > 50 as real,
        base < 95 as real,
        a != b,
    ensures
        strategy_shift(a).applied(base) != strategy_shift(b).applied(base),
{
}

} // verus!
