//! Harness postures and profiles, and the choice of a posture for a provider/model route.
//!
//! A *harness posture* is the agent-shaping policy (sub-agent cap, tool surface, compaction
//! and cache strategy, safety stance); a *harness profile* binds a posture to a provider
//! route and a model pattern.
use std::cmp::Ordering;

use vstd::prelude::*;

use crate::provider::{provider_routes_equal, same_provider_route, ProviderKind, ProviderNames};
use crate::text::to_chars;
use crate::wildcard::{glob, wildcard_pattern_matches};

verus! {

/// Kinds of harness postures.
#[derive(Debug, Clone, Copy, PartialEq, Eq, Structural)]
pub enum HarnessPostureKind {
    /// Full-featured default: rich constitution, broad tool catalog, normal sub-agent use.
    Standard,
    /// Deeper prompt layering and prefix-cache-oriented context.
    CacheHeavy,
    /// Smaller starting context, faster compaction, stronger exploration and delegation.
    Lean,
    /// User-defined posture assembled from explicit knobs.
    Custom,
}

/// How a posture approaches compaction and prompt-cache stability.
#[derive(Debug, Clone, Copy, PartialEq, Eq, Structural)]
pub enum HarnessCompactionStrategy {
    Default,
    PrefixCache,
    Aggressive,
}

/// Which tool catalog shape a posture prefers.
#[derive(Debug, Clone, Copy, PartialEq, Eq, Structural)]
pub enum HarnessToolSurface {
    Full,
    ReadOnly,
    Auto,
}

/// Safety stance of a posture.
#[derive(Debug, Clone, Copy, PartialEq, Eq, Structural)]
pub enum HarnessSafetyPosture {
    Standard,
    Strict,
    Permissive,
}

impl Default for HarnessPostureKind {
    fn default() -> (kind: Self)
        ensures
            kind == HarnessPostureKind::Standard,
    {
        HarnessPostureKind::Standard
    }
}

impl Default for HarnessCompactionStrategy {
    fn default() -> (strategy: Self)
        ensures
            strategy == HarnessCompactionStrategy::Default,
    {
        HarnessCompactionStrategy::Default
    }
}

impl Default for HarnessToolSurface {
    fn default() -> (surface: Self)
        ensures
            surface == HarnessToolSurface::Full,
    {
        HarnessToolSurface::Full
    }
}

impl Default for HarnessSafetyPosture {
    fn default() -> (posture: Self)
        ensures
            posture == HarnessSafetyPosture::Standard,
    {
        HarnessSafetyPosture::Standard
    }
}

/// A concrete harness posture with its policy knobs.
#[derive(Debug, Clone, Copy, PartialEq, Eq, Structural)]
pub struct HarnessPosture {
    /// Named posture kind.
    pub kind: HarnessPostureKind,
    /// Maximum number of concurrent sub-agents (0 = runtime default).
    pub max_subagents: usize,
    /// Prefer search-based, on-demand context over always-on documentation.
    pub prefer_codebase_search: bool,
    /// Compaction and prompt-cache strategy.
    pub compaction_strategy: HarnessCompactionStrategy,
    /// Preferred tool catalog shape.
    pub tool_surface: HarnessToolSurface,
    /// Safety stance for runtime consumers.
    pub safety_posture: HarnessSafetyPosture,
}

/// The standard posture: every knob at its default.
pub open spec fn standard_posture() -> HarnessPosture {
    HarnessPosture {
        kind: HarnessPostureKind::Standard,
        max_subagents: 0,
        prefer_codebase_search: false,
        compaction_strategy: HarnessCompactionStrategy::Default,
        tool_surface: HarnessToolSurface::Full,
        safety_posture: HarnessSafetyPosture::Standard,
    }
}

/// The cache-heavy posture.
pub open spec fn cache_heavy_posture() -> HarnessPosture {
    HarnessPosture {
        kind: HarnessPostureKind::CacheHeavy,
        max_subagents: 10,
        prefer_codebase_search: false,
        compaction_strategy: HarnessCompactionStrategy::PrefixCache,
        tool_surface: HarnessToolSurface::Full,
        safety_posture: HarnessSafetyPosture::Standard,
    }
}

/// The lean posture.
pub open spec fn lean_posture() -> HarnessPosture {
    HarnessPosture {
        kind: HarnessPostureKind::Lean,
        max_subagents: 20,
        prefer_codebase_search: true,
        compaction_strategy: HarnessCompactionStrategy::Aggressive,
        tool_surface: HarnessToolSurface::Full,
        safety_posture: HarnessSafetyPosture::Standard,
    }
}

impl Default for HarnessPosture {
    fn default() -> (posture: Self)
        ensures
            posture == standard_posture(),
    {
        HarnessPosture {
            kind: HarnessPostureKind::Standard,
            max_subagents: 0,
            prefer_codebase_search: false,
            compaction_strategy: HarnessCompactionStrategy::default(),
            tool_surface: HarnessToolSurface::default(),
            safety_posture: HarnessSafetyPosture::default(),
        }
    }
}

impl HarnessPosture {
    /// A cache-heavy posture tuned for models with large, cacheable prefixes.
    #[must_use]
    pub fn cache_heavy() -> (posture: Self)
        ensures
            posture == cache_heavy_posture(),
    {
        HarnessPosture {
            kind: HarnessPostureKind::CacheHeavy,
            max_subagents: 10,
            prefer_codebase_search: false,
            compaction_strategy: HarnessCompactionStrategy::PrefixCache,
            tool_surface: HarnessToolSurface::Full,
            safety_posture: HarnessSafetyPosture::Standard,
        }
    }

    /// A lean posture for smaller-context or weaker tool-use models.
    #[must_use]
    pub fn lean() -> (posture: Self)
        ensures
            posture == lean_posture(),
    {
        HarnessPosture {
            kind: HarnessPostureKind::Lean,
            max_subagents: 20,
            prefer_codebase_search: true,
            compaction_strategy: HarnessCompactionStrategy::Aggressive,
            tool_surface: HarnessToolSurface::Full,
            safety_posture: HarnessSafetyPosture::Standard,
        }
    }
}

/// A harness profile binds a posture to a provider route and a model pattern.
#[derive(Debug, Clone, PartialEq, Eq)]
pub struct HarnessProfile {
    /// Provider route this profile applies to, e.g. "deepseek" or "xiaomi-mimo".
    pub provider_route: String,
    /// Wildcard pattern for model names, e.g. "deepseek-v4*".
    pub model_pattern: String,
    /// The posture to apply.
    pub posture: HarnessPosture,
}

/// What a profile says, as mathematical values.
#[verifier::ext_equal]
pub struct ProfileView {
    pub provider_route: Seq<char>,
    pub model_pattern: Seq<char>,
    pub posture: HarnessPosture,
}

impl View for HarnessProfile {
    type V = ProfileView;

    open spec fn view(&self) -> ProfileView {
        ProfileView {
            provider_route: self.provider_route@,
            model_pattern: self.model_pattern@,
            posture: self.posture,
        }
    }
}

/// The views of a sequence of profiles.
pub open spec fn profile_views(profiles: Seq<HarnessProfile>) -> Seq<ProfileView> {
    profiles.map_values(|p: HarnessProfile| p@)
}

impl Default for HarnessProfile {
    fn default() -> (profile: Self)
        ensures
            profile@ == (ProfileView {
                provider_route: Seq::empty(),
                model_pattern: Seq::empty(),
                posture: standard_posture(),
            }),
    {
        HarnessProfile {
            provider_route: String::new(),
            model_pattern: String::new(),
            posture: HarnessPosture::default(),
        }
    }
}

/// A profile applies to a route when the provider routes are the same and the pattern
/// matches the whole model name.
pub open spec fn profile_matches(
    profile: ProfileView,
    names: Seq<(String, ProviderKind)>,
    provider_route: Seq<char>,
    model: Seq<char>,
) -> bool {
    same_provider_route(names, profile.provider_route, provider_route) && glob(
        profile.model_pattern,
        model,
    )
}

impl HarnessProfile {
    /// Whether this profile applies to the provider/model route.
    #[must_use]
    pub fn matches_route(
        &self,
        names: &ProviderNames,
        provider_route: &str,
        model: &str,
    ) -> (matched: bool)
        ensures
            matched == profile_matches(self@, names.entries@, provider_route@, model@),
    {
        provider_routes_equal(names, self.provider_route.as_str(), provider_route)
            && wildcard_pattern_matches(self.model_pattern.as_str(), model)
    }
}

/// Where a resolved posture came from.
#[derive(Debug, Clone, Copy, PartialEq, Eq, Structural)]
pub enum HarnessSource {
    /// A user-configured profile.
    UserProfile,
    /// A built-in seed profile.
    BuiltInSeed,
    /// Nothing matched: the standard posture.
    Default,
}

impl Default for HarnessSource {
    fn default() -> (source: Self)
        ensures
            source == HarnessSource::Default,
    {
        HarnessSource::Default
    }
}

/// Display identity of a matched harness profile.
#[derive(Debug, Clone, PartialEq, Eq)]
pub struct MatchedProfile {
    pub provider_route: String,
    pub model_pattern: String,
}

/// Harness resolution for a provider/model route.
#[derive(Debug, Clone, PartialEq, Eq)]
pub struct HarnessResolution {
    /// Effective posture (the standard one when nothing matched).
    pub posture: HarnessPosture,
    /// Where the posture came from.
    pub source: HarnessSource,
    /// Matched profile identity for display (`None` when `source` is `Default`).
    pub matched: Option<MatchedProfile>,
}

/// What a resolution says, as mathematical values; `matched` holds the provider route and
/// the model pattern of the profile.
#[verifier::ext_equal]
pub struct ResolutionView {
    pub posture: HarnessPosture,
    pub source: HarnessSource,
    pub matched: Option<(Seq<char>, Seq<char>)>,
}

impl View for HarnessResolution {
    type V = ResolutionView;

    open spec fn view(&self) -> ResolutionView {
        ResolutionView {
            posture: self.posture,
            source: self.source,
            matched: match self.matched {
                Some(m) => Some((m.provider_route@, m.model_pattern@)),
                None => None,
            },
        }
    }
}

/// The resolution of a route that no profile matches.
pub open spec fn no_match_resolution() -> ResolutionView {
    ResolutionView { posture: standard_posture(), source: HarnessSource::Default, matched: None }
}

impl Default for HarnessResolution {
    fn default() -> (resolution: Self)
        ensures
            resolution@ == no_match_resolution(),
    {
        HarnessResolution {
            posture: HarnessPosture::default(),
            source: HarnessSource::Default,
            matched: None,
        }
    }
}

/// Whether `c` is one of the two wildcard characters.
pub open spec fn is_wildcard(c: char) -> bool {
    c == '*' || c == '?'
}

/// Whether a pattern holds a wildcard.
pub open spec fn has_wildcard(pattern: Seq<char>) -> bool {
    exists|i: int| 0 <= i < pattern.len() && is_wildcard(#[trigger] pattern[i])
}

/// The number of characters of a pattern that are not wildcards.
pub open spec fn literal_count(pattern: Seq<char>) -> nat
    decreases pattern.len(),
{
    if pattern.len() == 0 {
        0
    } else {
        literal_count(pattern.drop_last()) + if is_wildcard(pattern.last()) {
            0nat
        } else {
            1nat
        }
    }
}

/// How specific a model pattern is: 0 for an exact pattern and 1 for one with wildcards,
/// then the number of literal characters.
#[must_use]
pub fn model_pattern_specificity_score(pattern: &str) -> (score: (u8, usize))
    ensures
        score.0 == (if has_wildcard(pattern@) {
            1int
        } else {
            0int
        }),
        score.1 == literal_count(pattern@),
{
    let chars: Vec<char> = to_chars(pattern);
    let mut wildcard: bool = false;
    let mut literals: usize = 0;
    let mut i: usize = 0;
    while i < chars.len()
        invariant
            chars@ == pattern@,
            i <= chars@.len(),
            literals <= i,
            literals == literal_count(pattern@.take(i as int)),
            wildcard == (exists|j: int| 0 <= j < i && is_wildcard(#[trigger] pattern@[j])),
        decreases chars@.len() - i,
    {
        proof {
            assert(pattern@.take(i + 1).drop_last() =~= pattern@.take(i as int));
        }
        if chars[i] == '*' || chars[i] == '?' {
            assert(is_wildcard(pattern@[i as int]));
            wildcard = true;
        } else {
            literals += 1;
        }
        i += 1;
    }
    proof {
        assert(pattern@.take(pattern@.len() as int) =~= pattern@);
    }
    if wildcard {
        (1, literals)
    } else {
        (0, literals)
    }
}

/// The order of the sources: user profiles, then built-in seeds, then the default.
pub open spec fn tier(source: HarnessSource) -> int {
    match source {
        HarnessSource::UserProfile => 0,
        HarnessSource::BuiltInSeed => 1,
        HarnessSource::Default => 2,
    }
}

/// The tier of a source: the lower one wins.
pub fn source_tier(source: HarnessSource) -> (t: u8)
    ensures
        t == tier(source),
{
    match source {
        HarnessSource::UserProfile => 0,
        HarnessSource::BuiltInSeed => 1,
        HarnessSource::Default => 2,
    }
}

/// What candidates are ordered by.
pub struct CandidateKey {
    pub tier: int,
    pub wildcard: bool,
    pub literals: nat,
    pub index: nat,
}

/// The key of a profile with this pattern, at `index` among the profiles of `source`.
pub open spec fn candidate_key(source: HarnessSource, pattern: Seq<char>, index: nat) -> CandidateKey {
    CandidateKey {
        tier: tier(source),
        wildcard: has_wildcard(pattern),
        literals: literal_count(pattern),
        index,
    }
}

/// Whether the candidate with key `a` comes before that with key `b`: by the source, then
/// exact patterns before wildcards, then more literal characters, then declaration order.
pub open spec fn precedes(a: CandidateKey, b: CandidateKey) -> bool {
    if a.tier != b.tier {
        a.tier < b.tier
    } else if a.wildcard != b.wildcard {
        b.wildcard
    } else if a.literals != b.literals {
        a.literals > b.literals
    } else {
        a.index < b.index
    }
}

/// Law: the order of candidates is a strict total order: no candidate precedes itself, of
/// two different keys exactly one precedes, and precedence is transitive.
pub proof fn law_precedence_is_total_order(a: CandidateKey, b: CandidateKey, c: CandidateKey)
    ensures
        !precedes(a, a),
        a != b ==> (precedes(a, b) <==> !precedes(b, a)),
        precedes(a, b) && precedes(b, c) ==> precedes(a, c),
{
}

/// A profile that matches the route, with where it was declared.
#[derive(Clone, Copy)]
pub struct ProfileCandidate<'a> {
    pub profile: &'a HarnessProfile,
    pub source: HarnessSource,
    pub declaration_index: usize,
}

impl<'a> ProfileCandidate<'a> {
    /// What this candidate is ordered by.
    pub open spec fn key(&self) -> CandidateKey {
        candidate_key(
            self.source,
            self.profile.model_pattern@,
            self.declaration_index as nat,
        )
    }
}

/// Compares two candidates: the lesser one is the better one.
pub fn compare_profile_candidates(
    left: &ProfileCandidate<'_>,
    right: &ProfileCandidate<'_>,
) -> (ordering: Ordering)
    ensures
        ordering == Ordering::Less <==> precedes(left.key(), right.key()),
        ordering == Ordering::Greater <==> precedes(right.key(), left.key()),
        ordering == Ordering::Equal <==> left.key() == right.key(),
{
    let left_tier: u8 = source_tier(left.source);
    let right_tier: u8 = source_tier(right.source);
    if left_tier < right_tier {
        return Ordering::Less;
    }
    if left_tier > right_tier {
        return Ordering::Greater;
    }
    let left_specificity: (u8, usize) = model_pattern_specificity_score(
        left.profile.model_pattern.as_str(),
    );
    let right_specificity: (u8, usize) = model_pattern_specificity_score(
        right.profile.model_pattern.as_str(),
    );
    if left_specificity.0 < right_specificity.0 {
        return Ordering::Less;
    }
    if left_specificity.0 > right_specificity.0 {
        return Ordering::Greater;
    }
    if left_specificity.1 > right_specificity.1 {
        return Ordering::Less;
    }
    if left_specificity.1 < right_specificity.1 {
        return Ordering::Greater;
    }
    if left.declaration_index < right.declaration_index {
        Ordering::Less
    } else if left.declaration_index > right.declaration_index {
        Ordering::Greater
    } else {
        Ordering::Equal
    }
}

/// The built-in seeds: provider route, model pattern and posture of each.
pub open spec fn built_in_profiles() -> Seq<ProfileView> {
    seq![
        ProfileView {
            provider_route: "deepseek"@,
            model_pattern: "deepseek-v4*"@,
            posture: cache_heavy_posture(),
        },
        ProfileView {
            provider_route: "xiaomi-mimo"@,
            model_pattern: "mimo-v2.5*"@,
            posture: cache_heavy_posture(),
        },
        ProfileView {
            provider_route: "arcee"@,
            model_pattern: "trinity-large-thinking"@,
            posture: cache_heavy_posture(),
        },
        ProfileView {
            provider_route: "huggingface"@,
            model_pattern: "*"@,
            posture: lean_posture(),
        },
        ProfileView {
            provider_route: "sglang"@,
            model_pattern: "*"@,
            posture: lean_posture(),
        },
        ProfileView { provider_route: "vllm"@, model_pattern: "*"@, posture: lean_posture() },
        ProfileView { provider_route: "ollama"@, model_pattern: "*"@, posture: lean_posture() },
    ]
}

fn seed(provider_route: &str, model_pattern: &str, posture: HarnessPosture) -> (profile:
    HarnessProfile)
    ensures
        profile@ == (ProfileView {
            provider_route: provider_route@,
            model_pattern: model_pattern@,
            posture,
        }),
{
    HarnessProfile {
        provider_route: provider_route.to_string(),
        model_pattern: model_pattern.to_string(),
        posture,
    }
}

/// Built-in profile seeds for common provider/model families.
///
/// User-configured profiles are always preferred; these seeds only provide a stable result
/// where the configuration has no match.
#[must_use]
pub fn built_in_harness_profiles() -> (profiles: Vec<HarnessProfile>)
    ensures
        profile_views(profiles@) == built_in_profiles(),
{
    let profiles: Vec<HarnessProfile> = vec![
        seed("deepseek", "deepseek-v4*", HarnessPosture::cache_heavy()),
        seed("xiaomi-mimo", "mimo-v2.5*", HarnessPosture::cache_heavy()),
        seed("arcee", "trinity-large-thinking", HarnessPosture::cache_heavy()),
        seed("huggingface", "*", HarnessPosture::lean()),
        seed("sglang", "*", HarnessPosture::lean()),
        seed("vllm", "*", HarnessPosture::lean()),
        seed("ollama", "*", HarnessPosture::lean()),
    ];
    assert(profile_views(profiles@) =~= built_in_profiles());
    profiles
}

/// A place where a profile is declared.
pub struct Declaration {
    pub source: HarnessSource,
    pub index: nat,
}

/// A question to the resolver: the user's profiles, the provider names that are known, and
/// the provider route and the model that a posture is sought for.
pub struct RouteQuery {
    pub user: Seq<ProfileView>,
    pub names: Seq<(String, ProviderKind)>,
    pub provider_route: Seq<char>,
    pub model: Seq<char>,
}

impl RouteQuery {
    /// The profiles of a source.
    pub open spec fn declared(self, source: HarnessSource) -> Seq<ProfileView> {
        match source {
            HarnessSource::UserProfile => self.user,
            HarnessSource::BuiltInSeed => built_in_profiles(),
            HarnessSource::Default => Seq::empty(),
        }
    }

    /// The profile that is declared at `d`.
    pub open spec fn profile(self, d: Declaration) -> ProfileView {
        self.declared(d.source)[d.index as int]
    }

    /// Whether a profile is declared at `d` and matches the route.
    pub open spec fn is_candidate(self, d: Declaration) -> bool {
        d.index < self.declared(d.source).len() && profile_matches(
            self.profile(d),
            self.names,
            self.provider_route,
            self.model,
        )
    }

    /// What the profile at `d` is ordered by.
    pub open spec fn key(self, d: Declaration) -> CandidateKey {
        candidate_key(d.source, self.profile(d).model_pattern, d.index)
    }

    /// Whether the profile at `d` matches and precedes every other one that does.
    pub open spec fn is_winner(self, d: Declaration) -> bool {
        self.is_candidate(d) && forall|other: Declaration| #[trigger]
            self.is_candidate(other) && other != d ==> precedes(self.key(d), self.key(other))
    }

    /// The resolution that takes the profile at `d`.
    pub open spec fn resolution_at(self, d: Declaration) -> ResolutionView {
        ResolutionView {
            posture: self.profile(d).posture,
            source: d.source,
            matched: Some((self.profile(d).provider_route, self.profile(d).model_pattern)),
        }
    }

    /// The answer: the posture of the winning profile, or the standard posture where no
    /// profile matches.
    pub open spec fn resolution(self) -> ResolutionView {
        if exists|d: Declaration| self.is_winner(d) {
            self.resolution_at(choose|d: Declaration| self.is_winner(d))
        } else {
            no_match_resolution()
        }
    }

    /// `d` is among the first `users` user profiles or the first `seeds` built-in seeds.
    spec fn seen(self, users: nat, seeds: nat, d: Declaration) -> bool {
        match d.source {
            HarnessSource::UserProfile => d.index < users,
            HarnessSource::BuiltInSeed => d.index < seeds,
            HarnessSource::Default => false,
        }
    }

    /// The better one of the best candidate so far and the profile at `here`.
    spec fn better(self, best: Option<Declaration>, here: Declaration) -> Option<Declaration> {
        if !self.is_candidate(here) {
            best
        } else {
            match best {
                Some(b) => if precedes(self.key(here), self.key(b)) {
                    Some(here)
                } else {
                    best
                },
                None => Some(here),
            }
        }
    }

    /// `best` is the candidate that precedes all others that have been seen.
    spec fn best_seen(self, users: nat, seeds: nat, best: Option<Declaration>) -> bool {
        match best {
            Some(b) => {
                &&& self.is_candidate(b)
                &&& self.seen(users, seeds, b)
                &&& forall|d: Declaration| #[trigger]
                    self.is_candidate(d) && self.seen(users, seeds, d) && d != b ==> precedes(
                        self.key(b),
                        self.key(d),
                    )
            },
            None => forall|d: Declaration| #[trigger]
                self.is_candidate(d) ==> !self.seen(users, seeds, d),
        }
    }
}

/// Law: at most one profile wins.
pub proof fn law_winner_is_unique(query: RouteQuery, a: Declaration, b: Declaration)
    requires
        query.is_winner(a),
        query.is_winner(b),
    ensures
        a == b,
{
}

/// Where a candidate was declared.
spec fn declaration(candidate: ProfileCandidate<'_>) -> Declaration {
    Declaration { source: candidate.source, index: candidate.declaration_index as nat }
}

/// Takes the better one of the best candidate so far and the next one.
fn better_candidate<'a>(
    best: Option<ProfileCandidate<'a>>,
    next: ProfileCandidate<'a>,
) -> (better: ProfileCandidate<'a>)
    ensures
        better == (match best {
            Some(b) => if precedes(next.key(), b.key()) {
                next
            } else {
                b
            },
            None => next,
        }),
{
    match best {
        Some(b) => match compare_profile_candidates(&next, &b) {
            Ordering::Less => next,
            _ => b,
        },
        None => next,
    }
}

spec fn opt_declaration(best: Option<ProfileCandidate<'_>>) -> Option<Declaration> {
    match best {
        Some(b) => Some(declaration(b)),
        None => None,
    }
}

spec fn best_matches_query(query: RouteQuery, best: Option<ProfileCandidate<'_>>) -> bool {
    match best {
        Some(b) => query.profile(declaration(b)) == b.profile@,
        None => true,
    }
}

/// Harness resolution for a provider/model route.
///
/// User profiles beat built-in seeds; a narrower model pattern beats a broader one;
/// declaration order is the stable tiebreak. Gives the standard posture with
/// `HarnessSource::Default` when nothing matches.
#[must_use]
pub fn resolve_harness_for_profiles(
    user_profiles: &[HarnessProfile],
    names: &ProviderNames,
    provider_route: &str,
    model: &str,
) -> (resolution: HarnessResolution)
    ensures
        resolution@ == (RouteQuery {
            user: profile_views(user_profiles@),
            names: names.entries@,
            provider_route: provider_route@,
            model: model@,
        }).resolution(),
{
    let ghost query = RouteQuery {
        user: profile_views(user_profiles@),
        names: names.entries@,
        provider_route: provider_route@,
        model: model@,
    };
    let seeds: Vec<HarnessProfile> = built_in_harness_profiles();
    let mut best: Option<ProfileCandidate> = None;
    let mut index: usize = 0;
    while index < user_profiles.len()
        invariant
            query == (RouteQuery {
                user: profile_views(user_profiles@),
                names: names.entries@,
                provider_route: provider_route@,
                model: model@,
            }),
            index <= user_profiles@.len(),
            query.best_seen(index as nat, 0, opt_declaration(best)),
            best_matches_query(query, best),
        decreases user_profiles@.len() - index,
    {
        let profile: &HarnessProfile = &user_profiles[index];
        let ghost here = Declaration { source: HarnessSource::UserProfile, index: index as nat };
        assert(query.profile(here) == profile@);
        let ghost before = best;
        if profile.matches_route(names, provider_route, model) {
            assert(query.is_candidate(here));
            let next = ProfileCandidate {
                profile,
                source: HarnessSource::UserProfile,
                declaration_index: index,
            };
            best = Some(better_candidate(best, next));
        } else {
            assert(!query.is_candidate(here));
        }
        proof {
            assert(opt_declaration(best) == query.better(opt_declaration(before), here));
            lemma_best_seen_step(query, index as nat, 0, here, opt_declaration(before));
        }
        index += 1;
    }
    let mut seed_index: usize = 0;
    while seed_index < seeds.len()
        invariant
            query == (RouteQuery {
                user: profile_views(user_profiles@),
                names: names.entries@,
                provider_route: provider_route@,
                model: model@,
            }),
            profile_views(seeds@) == built_in_profiles(),
            seed_index <= seeds@.len(),
            query.best_seen(user_profiles@.len(), seed_index as nat, opt_declaration(best)),
            best_matches_query(query, best),
        decreases seeds@.len() - seed_index,
    {
        let profile: &HarnessProfile = &seeds[seed_index];
        let ghost here = Declaration {
            source: HarnessSource::BuiltInSeed,
            index: seed_index as nat,
        };
        assert(profile_views(seeds@)[seed_index as int] == profile@);
        assert(query.profile(here) == profile@);
        assert(profile_views(seeds@).len() == seeds@.len());
        let ghost before = best;
        if profile.matches_route(names, provider_route, model) {
            assert(query.is_candidate(here));
            let next = ProfileCandidate {
                profile,
                source: HarnessSource::BuiltInSeed,
                declaration_index: seed_index,
            };
            best = Some(better_candidate(best, next));
        } else {
            assert(!query.is_candidate(here));
        }
        proof {
            assert(opt_declaration(best) == query.better(opt_declaration(before), here));
            lemma_best_seen_step(
                query,
                user_profiles@.len(),
                seed_index as nat,
                here,
                opt_declaration(before),
            );
        }
        seed_index += 1;
    }
    proof {
        assert(profile_views(seeds@).len() == seeds@.len());
        lemma_all_seen(query, user_profiles@.len(), seeds@.len(), opt_declaration(best));
    }
    match best {
        Some(candidate) => HarnessResolution {
            posture: candidate.profile.posture,
            source: candidate.source,
            matched: Some(
                MatchedProfile {
                    provider_route: candidate.profile.provider_route.clone(),
                    model_pattern: candidate.profile.model_pattern.clone(),
                },
            ),
        },
        None => HarnessResolution::default(),
    }
}

proof fn lemma_best_seen_step(
    query: RouteQuery,
    users: nat,
    seeds: nat,
    here: Declaration,
    best: Option<Declaration>,
)
    requires
        query.best_seen(users, seeds, best),
        here.source == HarnessSource::UserProfile && here.index == users || here.source
            == HarnessSource::BuiltInSeed && here.index == seeds,
    ensures
        here.source == HarnessSource::UserProfile ==> query.best_seen(
            users + 1,
            seeds,
            query.better(best, here),
        ),
        here.source == HarnessSource::BuiltInSeed ==> query.best_seen(
            users,
            seeds + 1,
            query.better(best, here),
        ),
{
    let (u, s) = if here.source == HarnessSource::UserProfile {
        (users + 1, seeds)
    } else {
        (users, seeds + 1)
    };
    assert forall|d: Declaration| query.seen(u, s, d) implies query.seen(users, seeds, d) || d
        == here by {}
    match query.better(best, here) {
        Some(b) => {
            assert(query.is_candidate(b));
            assert forall|d: Declaration| #[trigger]
                query.is_candidate(d) && query.seen(u, s, d) && d != b implies precedes(
                query.key(b),
                query.key(d),
            ) by {
                match best {
                    Some(o) => {
                        if d != o && d != here {
                            assert(precedes(query.key(o), query.key(d)));
                        }
                        law_precedence_is_total_order(query.key(b), query.key(o), query.key(d));
                        law_precedence_is_total_order(query.key(here), query.key(o), query.key(d));
                    },
                    None => {},
                }
            }
        },
        None => {},
    }
}

proof fn lemma_all_seen(query: RouteQuery, users: nat, seeds: nat, best: Option<Declaration>)
    requires
        query.best_seen(users, seeds, best),
        users == query.user.len(),
        seeds == built_in_profiles().len(),
    ensures
        match best {
            Some(b) => query.is_winner(b) && query.resolution() == query.resolution_at(b),
            None => query.resolution() == no_match_resolution(),
        },
{
    assert forall|d: Declaration| query.is_candidate(d) implies query.seen(users, seeds, d) by {}
    match best {
        Some(b) => {
            assert(query.is_winner(b));
            let w = choose|d: Declaration| query.is_winner(d);
            law_winner_is_unique(query, b, w);
        },
        None => {
            if exists|d: Declaration| query.is_winner(d) {
                let w = choose|d: Declaration| query.is_winner(d);
                assert(query.is_candidate(w));
            }
        },
    }
}

proof fn lemma_best_exists(query: RouteQuery, users: nat, seeds: nat) -> (best: Option<
    Declaration,
>)
    ensures
        query.best_seen(users, seeds, best),
    decreases users + seeds,
{
    if seeds > 0 {
        let best = lemma_best_exists(query, users, (seeds - 1) as nat);
        let here = Declaration {
            source: HarnessSource::BuiltInSeed,
            index: (seeds - 1) as nat,
        };
        lemma_best_seen_step(query, users, (seeds - 1) as nat, here, best);
        query.better(best, here)
    } else if users > 0 {
        let best = lemma_best_exists(query, (users - 1) as nat, seeds);
        let here = Declaration {
            source: HarnessSource::UserProfile,
            index: (users - 1) as nat,
        };
        lemma_best_seen_step(query, (users - 1) as nat, seeds, here, best);
        query.better(best, here)
    } else {
        None
    }
}

/// Law: where some profile matches, the answer is that of a winning profile, and no other
/// matching profile comes before it.
pub proof fn law_resolution_takes_the_best(query: RouteQuery, d: Declaration) -> (w: Declaration)
    requires
        query.is_candidate(d),
    ensures
        query.is_winner(w),
        query.resolution() == query.resolution_at(w),
        w == d || precedes(query.key(w), query.key(d)),
{
    let users = query.user.len();
    let seeds = built_in_profiles().len();
    let best = lemma_best_exists(query, users, seeds);
    lemma_all_seen(query, users, seeds, best);
    assert(query.seen(users, seeds, d));
    best->0
}

/// Law: the answer is the standard posture from the default source exactly where no profile
/// matches.
pub proof fn law_default_iff_nothing_matches(query: RouteQuery)
    ensures
        query.resolution().source == HarnessSource::Default <==> (forall|d: Declaration|
            !#[trigger] query.is_candidate(d)),
        query.resolution().source == HarnessSource::Default ==> query.resolution()
            == no_match_resolution(),
        query.resolution().source == HarnessSource::Default <==> query.resolution().matched
            is None,
{
    if exists|d: Declaration| #[trigger] query.is_candidate(d) {
        let d = choose|d: Declaration| #[trigger] query.is_candidate(d);
        let w = law_resolution_takes_the_best(query, d);
        assert(query.is_candidate(w));
    } else {
        assert forall|d: Declaration| !query.is_winner(d) by {
            assert(!query.is_candidate(d));
        }
    }
}

/// Law: where a user profile matches, the answer comes from the user's profiles.
pub proof fn law_user_profiles_beat_seeds(query: RouteQuery, index: nat)
    requires
        query.is_candidate(Declaration { source: HarnessSource::UserProfile, index }),
    ensures
        query.resolution().source == HarnessSource::UserProfile,
{
    let d = Declaration { source: HarnessSource::UserProfile, index };
    let w = law_resolution_takes_the_best(query, d);
}

/// Law: among the profiles of one source, an exact pattern beats one with wildcards, and
/// of two patterns with wildcards, or two without, the one with more literal characters
/// wins.
pub proof fn law_narrower_pattern_wins(query: RouteQuery, d: Declaration, other: Declaration)
    requires
        query.is_candidate(d),
        query.is_candidate(other),
        d.source == other.source,
        if has_wildcard(query.profile(d).model_pattern) == has_wildcard(
            query.profile(other).model_pattern,
        ) {
            literal_count(query.profile(d).model_pattern) > literal_count(
                query.profile(other).model_pattern,
            )
        } else {
            has_wildcard(query.profile(other).model_pattern)
        },
    ensures
        !query.is_winner(other),
{
    if query.is_winner(other) {
        assert(query.is_candidate(d));
        law_precedence_is_total_order(query.key(d), query.key(other), query.key(d));
    }
}

/// Law: of two profiles of one source whose patterns are equally specific, the one that is
/// declared later does not win.
pub proof fn law_declaration_order_breaks_ties(
    query: RouteQuery,
    first: Declaration,
    later: Declaration,
)
    requires
        query.is_candidate(first),
        query.is_candidate(later),
        first.source == later.source,
        first.index < later.index,
        has_wildcard(query.profile(first).model_pattern) == has_wildcard(
            query.profile(later).model_pattern,
        ),
        literal_count(query.profile(first).model_pattern) == literal_count(
            query.profile(later).model_pattern,
        ),
    ensures
        !query.is_winner(later),
{
    if query.is_winner(later) {
        assert(query.is_candidate(first));
    }
}

/// Where a declaration stands once a profile is put in at `at` among the user's profiles.
spec fn moved(d: Declaration, at: nat) -> Declaration {
    if d.source == HarnessSource::UserProfile && d.index >= at {
        Declaration { index: d.index + 1, ..d }
    } else {
        d
    }
}

/// Law: a profile that does not match the route does not change the answer, wherever it is
/// put among the user's profiles.
pub proof fn law_unmatched_profile_changes_nothing(query: RouteQuery, at: int, extra: ProfileView)
    requires
        0 <= at <= query.user.len(),
        !profile_matches(extra, query.names, query.provider_route, query.model),
    ensures
        (RouteQuery { user: query.user.insert(at, extra), ..query }).resolution()
            == query.resolution(),
{
    let more = RouteQuery { user: query.user.insert(at, extra), ..query };
    let place = at as nat;
    assert forall|d: Declaration| #[trigger] query.is_candidate(d) implies more.is_candidate(
        moved(d, place),
    ) && more.profile(moved(d, place)) == query.profile(d) by {}
    assert forall|e: Declaration| #[trigger] more.is_candidate(e) implies exists|d: Declaration|
        #[trigger] query.is_candidate(d) && moved(d, place) == e by {
        let d = if e.source == HarnessSource::UserProfile && e.index > place {
            Declaration { index: (e.index - 1) as nat, ..e }
        } else {
            e
        };
        if e.source == HarnessSource::UserProfile && e.index == place {
            assert(more.profile(e) == extra);
        }
        assert(query.profile(d) == more.profile(e));
        assert(query.is_candidate(d));
    }
    law_default_iff_nothing_matches(query);
    law_default_iff_nothing_matches(more);
    if exists|d: Declaration| #[trigger] query.is_candidate(d) {
        let d = choose|d: Declaration| #[trigger] query.is_candidate(d);
        let w = law_resolution_takes_the_best(query, d);
        let v = moved(w, place);
        assert(query.is_candidate(w));
        assert(more.is_winner(v)) by {
            assert forall|e: Declaration| #[trigger]
                more.is_candidate(e) && e != v implies precedes(more.key(v), more.key(e)) by {
                let o = choose|o: Declaration| #[trigger]
                    query.is_candidate(o) && moved(o, place) == e;
                assert(precedes(query.key(w), query.key(o)));
            }
        }
        let best = law_resolution_takes_the_best(more, v);
        law_winner_is_unique(more, v, best);
        assert(more.resolution_at(v) == query.resolution_at(w));
    } else {
        assert(forall|e: Declaration| !#[trigger] more.is_candidate(e));
    }
}

/// Law: a profile behind the user's others that is not more specific than the winning
/// profile of the user does not change the answer.
pub proof fn law_later_profile_that_is_not_narrower_changes_nothing(
    query: RouteQuery,
    winner: Declaration,
    extra: ProfileView,
)
    requires
        query.is_winner(winner),
        winner.source == HarnessSource::UserProfile,
        ({
            let pattern = query.profile(winner).model_pattern;
            if has_wildcard(extra.model_pattern) == has_wildcard(pattern) {
                literal_count(extra.model_pattern) <= literal_count(pattern)
            } else {
                has_wildcard(extra.model_pattern)
            }
        }),
    ensures
        (RouteQuery { user: query.user.push(extra), ..query }).resolution() == query.resolution(),
{
    let more = RouteQuery { user: query.user.push(extra), ..query };
    let last = Declaration { source: HarnessSource::UserProfile, index: query.user.len() };
    assert(more.profile(last) == extra);
    assert forall|d: Declaration| d != last implies #[trigger] more.is_candidate(d)
        == query.is_candidate(d) && (query.is_candidate(d) ==> more.profile(d) == query.profile(
        d,
    )) by {}
    assert(query.is_candidate(winner));
    assert(more.is_candidate(winner));
    assert(more.is_winner(winner)) by {
        assert forall|e: Declaration| #[trigger]
            more.is_candidate(e) && e != winner implies precedes(
            more.key(winner),
            more.key(e),
        ) by {
            if e != last {
                assert(query.is_candidate(e));
            }
        }
    }
    let before = law_resolution_takes_the_best(query, winner);
    let after = law_resolution_takes_the_best(more, winner);
    law_winner_is_unique(query, winner, before);
    law_winner_is_unique(more, winner, after);
}

} // verus!
