//! Provider names and when two of them mean the same provider route.
use vstd::prelude::*;

use crate::text::{
    eq_ignore_ascii_case, law_trim_undoes_padding, same_ignoring_ascii_case, same_text, trim, trimmed,
    white_space,
};

verus! {

/// A provider that the host knows, by the number under which it knows it.
#[derive(Debug, Clone, Copy, PartialEq, Eq, Structural)]
pub struct ProviderKind {
    pub id: u32,
}

/// The provider names that the host can read, each with the provider it names. A spelling
/// that is not among the entries names no known provider.
#[derive(Debug, Clone)]
pub struct ProviderNames {
    pub entries: Vec<(String, ProviderKind)>,
}

/// The provider that `name` names: that of the first entry with this name.
pub open spec fn kind_named(entries: Seq<(String, ProviderKind)>, name: Seq<char>) -> Option<
    ProviderKind,
>
    decreases entries.len(),
{
    if entries.len() == 0 {
        None
    } else if entries[0].0@ == name {
        Some(entries[0].1)
    } else {
        kind_named(entries.drop_first(), name)
    }
}

/// Two provider routes are the same when both name known providers and these are one, or,
/// where one of them names no known provider, when they read the same but for white space
/// around them and ASCII case.
pub open spec fn same_provider_route(
    entries: Seq<(String, ProviderKind)>,
    expected: Seq<char>,
    actual: Seq<char>,
) -> bool {
    match (kind_named(entries, expected), kind_named(entries, actual)) {
        (Some(e), Some(a)) => e == a,
        _ => same_ignoring_ascii_case(trimmed(expected), trimmed(actual)),
    }
}

impl ProviderNames {
    /// No names at all: every route is compared by its text.
    pub fn none() -> (names: Self)
        ensures
            names.entries@.len() == 0,
    {
        ProviderNames { entries: Vec::new() }
    }

    /// The provider that `name` names.
    pub fn parse(&self, name: &str) -> (kind: Option<ProviderKind>)
        ensures
            kind == kind_named(self.entries@, name@),
    {
        let mut i: usize = 0;
        proof {
            assert(self.entries@.skip(0) =~= self.entries@);
        }
        while i < self.entries.len()
            invariant
                i <= self.entries@.len(),
                kind_named(self.entries@, name@) == kind_named(
                    self.entries@.skip(i as int),
                    name@,
                ),
            decreases self.entries@.len() - i,
        {
            let ghost rest = self.entries@.skip(i as int);
            assert(rest[0] == self.entries@[i as int]);
            if same_text(self.entries[i].0.as_str(), name) {
                return Some(self.entries[i].1);
            }
            proof {
                assert(rest.drop_first() =~= self.entries@.skip(i + 1));
            }
            i += 1;
        }
        None
    }
}

/// Whether two provider routes mean the same provider.
pub fn provider_routes_equal(names: &ProviderNames, expected: &str, actual: &str) -> (same: bool)
    ensures
        same == same_provider_route(names.entries@, expected@, actual@),
{
    match (names.parse(expected), names.parse(actual)) {
        (Some(e), Some(a)) => e == a,
        _ => eq_ignore_ascii_case(trim(expected), trim(actual)),
    }
}

/// Law: every provider route is the same as itself.
pub proof fn law_same_route_is_reflexive(entries: Seq<(String, ProviderKind)>, route: Seq<char>)
    ensures
        same_provider_route(entries, route, route),
{
}

/// Law: it does not matter which of two provider routes is named first.
pub proof fn law_same_route_is_symmetric(
    entries: Seq<(String, ProviderKind)>,
    a: Seq<char>,
    b: Seq<char>,
)
    ensures
        same_provider_route(entries, a, b) == same_provider_route(entries, b, a),
{
    let ta = trimmed(a);
    let tb = trimmed(b);
    assert(same_ignoring_ascii_case(ta, tb) == same_ignoring_ascii_case(tb, ta)) by {
        if same_ignoring_ascii_case(ta, tb) {
            assert forall|i: int| 0 <= i < tb.len() implies crate::text::ascii_folded(
                #[trigger] tb[i],
            ) == crate::text::ascii_folded(ta[i]) by {
                assert(crate::text::ascii_folded(ta[i]) == crate::text::ascii_folded(tb[i]));
            }
        }
        if same_ignoring_ascii_case(tb, ta) {
            assert forall|i: int| 0 <= i < ta.len() implies crate::text::ascii_folded(
                #[trigger] ta[i],
            ) == crate::text::ascii_folded(tb[i]) by {
                assert(crate::text::ascii_folded(tb[i]) == crate::text::ascii_folded(ta[i]));
            }
        }
    }
}

/// Law: a name is read as the provider that it is listed with, where it is listed with one
/// provider only; and a name that is not listed names no provider.
pub proof fn law_listed_names_are_read(
    entries: Seq<(String, ProviderKind)>,
    name: Seq<char>,
    kind: ProviderKind,
)
    requires
        forall|i: int|
            0 <= i < entries.len() && (#[trigger] entries[i]).0@ == name ==> entries[i].1 == kind,
    ensures
        (exists|i: int| 0 <= i < entries.len() && (#[trigger] entries[i]).0@ == name)
            ==> kind_named(entries, name) == Some(kind),
        (forall|i: int| 0 <= i < entries.len() ==> (#[trigger] entries[i]).0@ != name)
            ==> kind_named(entries, name) is None,
    decreases entries.len(),
{
    if entries.len() > 0 {
        let rest = entries.drop_first();
        assert forall|i: int| 0 <= i < rest.len() && (#[trigger] rest[i]).0@ == name implies rest[i].1
            == kind by {
            assert(entries[i + 1] == rest[i]);
        }
        law_listed_names_are_read(rest, name, kind);
        if exists|i: int| 0 <= i < entries.len() && (#[trigger] entries[i]).0@ == name {
            let i = choose|i: int| 0 <= i < entries.len() && (#[trigger] entries[i]).0@ == name;
            if i > 0 {
                assert(rest[i - 1] == entries[i]);
            }
        }
        if forall|i: int| 0 <= i < entries.len() ==> (#[trigger] entries[i]).0@ != name {
            assert(entries[0].0@ != name);
            assert forall|i: int| 0 <= i < rest.len() implies (#[trigger] rest[i]).0@ != name by {
                assert(entries[i + 1] == rest[i]);
            }
        }
    }
}

/// Law: two names of known providers are the same route exactly where they name one
/// provider, however they are written.
pub proof fn law_known_providers_go_by_kind(
    entries: Seq<(String, ProviderKind)>,
    a: Seq<char>,
    b: Seq<char>,
)
    requires
        kind_named(entries, a) is Some,
        kind_named(entries, b) is Some,
    ensures
        same_provider_route(entries, a, b) <==> kind_named(entries, a) == kind_named(entries, b),
{
}

/// Law: where one of two names is not known, they are the same route exactly where they read
/// the same, up to ASCII case, once the white space around each is left out.
pub proof fn law_unknown_providers_go_by_text(
    entries: Seq<(String, ProviderKind)>,
    before: Seq<char>,
    a: Seq<char>,
    after: Seq<char>,
    b: Seq<char>,
)
    requires
        forall|i: int| 0 <= i < before.len() ==> white_space(#[trigger] before[i]),
        forall|i: int| 0 <= i < after.len() ==> white_space(#[trigger] after[i]),
        a.len() > 0,
        b.len() > 0,
        !white_space(a[0]),
        !white_space(a.last()),
        !white_space(b[0]),
        !white_space(b.last()),
        kind_named(entries, before + a + after) is None || kind_named(entries, b) is None,
    ensures
        same_provider_route(entries, before + a + after, b) <==> same_ignoring_ascii_case(a, b),
{
    law_trim_undoes_padding(before, a, after);
    law_trim_undoes_padding(Seq::empty(), b, Seq::empty());
    assert(Seq::<char>::empty() + b + Seq::<char>::empty() =~= b);
}

/// Law: a name that is listed more than once is read as where it is listed first.
pub proof fn law_first_listing_wins(
    entries: Seq<(String, ProviderKind)>,
    name: Seq<char>,
    at: int,
)
    requires
        0 <= at < entries.len(),
        entries[at].0@ == name,
        forall|i: int| 0 <= i < at ==> (#[trigger] entries[i]).0@ != name,
    ensures
        kind_named(entries, name) == Some(entries[at].1),
    decreases entries.len(),
{
    if at > 0 {
        let rest = entries.drop_first();
        assert(entries[0].0@ != name);
        assert forall|i: int| 0 <= i < at - 1 implies (#[trigger] rest[i]).0@ != name by {
            assert(entries[i + 1] == rest[i]);
        }
        law_first_listing_wins(rest, name, at - 1);
    }
}

} // verus!
