//! Wildcard patterns over characters: `*` stands for any run of characters, `?` for any one.
use vstd::prelude::*;

use crate::text::to_chars;

verus! {

/// Every character of `s` is a star.
pub open spec fn all_stars(s: Seq<char>) -> bool {
    forall|i: int| 0 <= i < s.len() ==> s[i] == '*'
}

/// The meaning of a pattern: a star absorbs any number of characters, a question mark
/// exactly one, and every other character only itself.
pub open spec fn glob(pattern: Seq<char>, value: Seq<char>) -> bool
    decreases pattern.len(),
{
    if pattern.len() == 0 {
        value.len() == 0
    } else if pattern[0] == '*' {
        exists|k: int|
            0 <= k <= value.len() && glob(pattern.drop_first(), #[trigger] value.skip(k))
    } else {
        value.len() > 0 && (pattern[0] == '?' || pattern[0] == value[0]) && glob(
            pattern.drop_first(),
            value.drop_first(),
        )
    }
}

proof fn lemma_glob_of_empty(pattern: Seq<char>)
    ensures
        glob(pattern, Seq::empty()) == all_stars(pattern),
    decreases pattern.len(),
{
    if pattern.len() > 0 {
        let rest = pattern.drop_first();
        let empty = Seq::<char>::empty();
        lemma_glob_of_empty(rest);
        assert(empty.skip(0) =~= empty);
        assert(forall|i: int| 0 <= i < rest.len() ==> rest[i] == pattern[i + 1]);
        if pattern[0] == '*' {
            if glob(rest, empty) {
                assert(glob(rest, empty.skip(0)));
                assert forall|i: int| 0 <= i < pattern.len() implies pattern[i] == '*' by {
                    if i > 0 {
                        assert(rest[i - 1] == '*');
                    }
                }
            }
            if glob(pattern, empty) {
                let k = choose|k: int|
                    0 <= k <= empty.len() && glob(rest, #[trigger] empty.skip(k));
                assert(empty.skip(k) =~= empty);
            }
        }
    }
}

/// A pattern that starts with `n` characters other than stars uses `n` characters for them.
proof fn lemma_glob_prefix(pattern: Seq<char>, value: Seq<char>, n: int)
    requires
        0 <= n <= pattern.len(),
        forall|i: int| 0 <= i < n ==> pattern[i] != '*',
        glob(pattern, value),
    ensures
        n <= value.len(),
        glob(pattern.skip(n), value.skip(n)),
    decreases n,
{
    if n == 0 {
        assert(pattern.skip(0) =~= pattern);
        assert(value.skip(0) =~= value);
    } else {
        assert forall|i: int| 0 <= i < n - 1 implies pattern.drop_first()[i] != '*' by {
            assert(pattern[i + 1] != '*');
        }
        lemma_glob_prefix(pattern.drop_first(), value.drop_first(), n - 1);
        assert(pattern.drop_first().skip(n - 1) =~= pattern.skip(n));
        assert(value.drop_first().skip(n - 1) =~= value.skip(n));
    }
}

/// The pattern matches the value when at least `from` characters of it are left out.
spec fn floats(pattern: Seq<char>, value: Seq<char>, from: int) -> bool {
    exists|k: int| from <= k <= value.len() && glob(pattern, #[trigger] value.skip(k))
}

proof fn lemma_floats_step(pattern: Seq<char>, value: Seq<char>, from: int)
    requires
        0 <= from <= value.len(),
    ensures
        floats(pattern, value, from) == (glob(pattern, value.skip(from)) || floats(
            pattern,
            value,
            from + 1,
        )),
{
}

proof fn lemma_floats_shift(pattern: Seq<char>, value: Seq<char>, from: int)
    requires
        0 <= from,
        value.len() > 0,
    ensures
        floats(pattern, value, from + 1) == floats(pattern, value.drop_first(), from),
{
    let tail = value.drop_first();
    if floats(pattern, value, from + 1) {
        let k = choose|k: int|
            from + 1 <= k <= value.len() && glob(pattern, #[trigger] value.skip(k));
        assert(tail.skip(k - 1) =~= value.skip(k));
    }
    if floats(pattern, tail, from) {
        let k = choose|k: int| from <= k <= tail.len() && glob(pattern, #[trigger] tail.skip(k));
        assert(value.skip(k + 1) =~= tail.skip(k));
    }
}

/// Where a pattern goes on with a star after `n` other characters, and the value is `n`
/// characters further, every later start of the pattern passes through that star. So the
/// later starts need not be tried again.
proof fn lemma_later_start_passes_star(pattern: Seq<char>, value: Seq<char>, n: int)
    requires
        0 <= n < pattern.len(),
        n <= value.len(),
        forall|i: int| 0 <= i < n ==> pattern[i] != '*',
        pattern[n] == '*',
        floats(pattern, value, 1),
    ensures
        floats(pattern.skip(n + 1), value.skip(n), 0),
{
    let k = choose|k: int| 1 <= k <= value.len() && glob(pattern, #[trigger] value.skip(k));
    lemma_glob_prefix(pattern, value.skip(k), n);
    let p = pattern.skip(n);
    let v = value.skip(k).skip(n);
    assert(p[0] == '*');
    assert(p.drop_first() =~= pattern.skip(n + 1));
    let m = choose|m: int| 0 <= m <= v.len() && glob(p.drop_first(), #[trigger] v.skip(m));
    assert(v.skip(m) =~= value.skip(n).skip(k + m));
}

/// What is left to try while matching: the pattern from `pattern_idx` at `value_idx`, or
/// the pattern behind the last star at a later place than `star_value_idx`.
spec fn still_matches(
    pattern: Seq<char>,
    value: Seq<char>,
    pattern_idx: int,
    value_idx: int,
    star_idx: Option<usize>,
    star_value_idx: int,
) -> bool {
    glob(pattern.skip(pattern_idx), value.skip(value_idx)) || (star_idx matches Some(star)
        && floats(pattern.skip(star + 1), value.skip(star_value_idx), 1))
}

/// Whether `pattern` matches the whole of `value`.
pub fn wildcard_chars_match(pattern: &[char], value: &[char]) -> (matched: bool)
    ensures
        matched == glob(pattern@, value@),
{
    let mut pattern_idx: usize = 0;
    let mut value_idx: usize = 0;
    let mut star_idx: Option<usize> = None;
    let mut star_value_idx: usize = 0;
    proof {
        assert(pattern@.skip(0) =~= pattern@);
        assert(value@.skip(0) =~= value@);
    }
    while value_idx < value.len()
        invariant
            pattern_idx <= pattern@.len(),
            star_value_idx <= value_idx <= value@.len(),
            star_idx matches Some(star) ==> {
                &&& star < pattern_idx
                &&& pattern_idx - (star + 1) == value_idx - star_value_idx
                &&& forall|i: int| star < i < pattern_idx ==> pattern@[i] != '*'
            },
            glob(pattern@, value@) == still_matches(
                pattern@,
                value@,
                pattern_idx as int,
                value_idx as int,
                star_idx,
                star_value_idx as int,
            ),
        decreases
            pattern@.len() - (match star_idx {
                Some(star) => star + 1,
                None => 0,
            }),
            value@.len() - star_value_idx,
            value@.len() - value_idx,
    {
        let ghost rest = pattern@.skip(pattern_idx as int);
        let ghost tail = value@.skip(value_idx as int);
        if pattern_idx < pattern.len() && pattern[pattern_idx] == '*' {
            proof {
                assert(rest[0] == '*');
                assert(rest.drop_first() =~= pattern@.skip(pattern_idx + 1));
                assert(tail.skip(0) =~= tail);
                assert(glob(rest, tail) == floats(rest.drop_first(), tail, 0));
                lemma_floats_step(rest.drop_first(), tail, 0);
                if let Some(star) = star_idx {
                    let behind = pattern@.skip(star + 1);
                    let tried = value@.skip(star_value_idx as int);
                    let n = pattern_idx - (star + 1);
                    assert(behind.skip(n + 1) =~= pattern@.skip(pattern_idx + 1));
                    assert(tried.skip(n) =~= tail);
                    if floats(behind, tried, 1) {
                        lemma_later_start_passes_star(behind, tried, n);
                    }
                }
            }
            star_idx = Some(pattern_idx);
            pattern_idx += 1;
            star_value_idx = value_idx;
        } else if pattern_idx < pattern.len() && (pattern[pattern_idx] == '?'
            || pattern[pattern_idx] == value[value_idx]) {
            proof {
                assert(rest.drop_first() =~= pattern@.skip(pattern_idx + 1));
                assert(tail.drop_first() =~= value@.skip(value_idx + 1));
            }
            pattern_idx += 1;
            value_idx += 1;
        } else if let Some(star) = star_idx {
            proof {
                assert(!glob(rest, tail));
                let behind = pattern@.skip(star + 1);
                let tried = value@.skip(star_value_idx as int);
                assert(tried.drop_first() =~= value@.skip(star_value_idx + 1));
                assert(tried.drop_first().skip(0) =~= tried.drop_first());
                lemma_floats_shift(behind, tried, 0);
                lemma_floats_step(behind, tried.drop_first(), 0);
            }
            pattern_idx = star + 1;
            star_value_idx += 1;
            value_idx = star_value_idx;
        } else {
            assert(!glob(rest, tail));
            return false;
        }
    }
    let ghost rest = pattern@.skip(pattern_idx as int);
    proof {
        assert(value@.skip(value_idx as int) =~= Seq::empty());
        lemma_glob_of_empty(rest);
        if let Some(star) = star_idx {
            let behind = pattern@.skip(star + 1);
            let tried = value@.skip(star_value_idx as int);
            if floats(behind, tried, 1) {
                let k = choose|k: int|
                    1 <= k <= tried.len() && glob(behind, #[trigger] tried.skip(k));
                lemma_glob_prefix(behind, tried.skip(k), pattern_idx - (star + 1));
            }
        }
    }
    let mut i: usize = pattern_idx;
    while i < pattern.len()
        invariant
            pattern_idx <= i <= pattern@.len(),
            rest == pattern@.skip(pattern_idx as int),
            glob(pattern@, value@) == all_stars(rest),
            forall|j: int| 0 <= j < i - pattern_idx ==> rest[j] == '*',
        decreases pattern@.len() - i,
    {
        if pattern[i] != '*' {
            proof {
                assert(rest[i - pattern_idx] != '*');
            }
            return false;
        }
        i += 1;
    }
    true
}

/// Whether the model pattern `pattern` matches the whole of `value`.
pub fn wildcard_pattern_matches(pattern: &str, value: &str) -> (matched: bool)
    ensures
        matched == glob(pattern@, value@),
{
    let pattern_chars: Vec<char> = to_chars(pattern);
    let value_chars: Vec<char> = to_chars(value);
    wildcard_chars_match(pattern_chars.as_slice(), value_chars.as_slice())
}

/// Law: a pattern without wildcards matches itself and nothing else.
pub proof fn law_exact_pattern_matches_itself_only(pattern: Seq<char>, value: Seq<char>)
    requires
        forall|i: int| 0 <= i < pattern.len() ==> pattern[i] != '*' && pattern[i] != '?',
    ensures
        glob(pattern, value) == (pattern == value),
    decreases pattern.len(),
{
    if pattern.len() == 0 {
        if value.len() == 0 {
            assert(pattern =~= value);
        }
    } else if value.len() > 0 && pattern[0] == value[0] {
        law_exact_pattern_matches_itself_only(pattern.drop_first(), value.drop_first());
        assert(pattern =~= seq![pattern[0]] + pattern.drop_first());
        assert(value =~= seq![value[0]] + value.drop_first());
    }
}

/// Law: the pattern that is a single star matches every value.
pub proof fn law_single_star_matches(value: Seq<char>)
    ensures
        glob(seq!['*'], value),
{
    let pattern = seq!['*'];
    assert(pattern.drop_first() =~= Seq::empty());
    assert(glob(pattern.drop_first(), value.skip(value.len() as int)));
}

/// Law: a pattern that is a text without wildcards and a star behind it matches exactly the
/// values that begin with the text.
pub proof fn law_prefix_pattern_matches_what_begins_with_it(text: Seq<char>, value: Seq<char>)
    requires
        forall|i: int| 0 <= i < text.len() ==> text[i] != '*' && text[i] != '?',
    ensures
        glob(text.push('*'), value) == text.is_prefix_of(value),
    decreases text.len(),
{
    let pattern = text.push('*');
    if text.len() == 0 {
        assert(pattern =~= seq!['*']);
        law_single_star_matches(value);
    } else {
        assert(pattern.drop_first() =~= text.drop_first().push('*'));
        if value.len() > 0 && text[0] == value[0] {
            law_prefix_pattern_matches_what_begins_with_it(text.drop_first(), value.drop_first());
            let t = text.drop_first();
            let v = value.drop_first();
            if t.is_prefix_of(v) {
                assert(text =~= value.subrange(0, text.len() as int)) by {
                    assert forall|i: int| 0 <= i < text.len() implies text[i] == value[i] by {
                        if i > 0 {
                            assert(t[i - 1] == v.subrange(0, t.len() as int)[i - 1]);
                        }
                    }
                }
            }
            if text.is_prefix_of(value) {
                assert(t =~= v.subrange(0, t.len() as int)) by {
                    assert forall|i: int| 0 <= i < t.len() implies t[i] == v[i] by {
                        assert(text[i + 1] == value.subrange(0, text.len() as int)[i + 1]);
                    }
                }
            }
        } else if text.is_prefix_of(value) {
            assert(text[0] == value.subrange(0, text.len() as int)[0]);
        }
    }
}

/// Law: a star matches every text, a question mark every single character, and any other
/// character itself alone.
pub proof fn law_one_character_patterns(c: char, value: Seq<char>)
    ensures
        c == '*' ==> glob(seq![c], value),
        c == '?' ==> (glob(seq![c], value) <==> value.len() == 1),
        c != '*' && c != '?' ==> (glob(seq![c], value) <==> value == seq![c]),
{
    if c == '*' {
        law_single_star_matches(value);
    } else {
        assert(seq![c].drop_first() =~= Seq::empty());
        if value.len() > 0 {
            assert(glob(seq![c].drop_first(), value.drop_first()) == (value.drop_first().len()
                == 0));
        }
        if value.len() == 1 && value[0] == c {
            assert(value =~= seq![c]);
        }
    }
}

/// Law: a pattern put together from two matches exactly the values that can be cut into one
/// part for each.
pub proof fn law_patterns_concatenate(first: Seq<char>, second: Seq<char>, value: Seq<char>)
    ensures
        glob(first + second, value) <==> exists|k: int|
            0 <= k <= value.len() && glob(first, #[trigger] value.take(k)) && glob(
                second,
                value.skip(k),
            ),
    decreases first.len(),
{
    let both = first + second;
    if first.len() == 0 {
        assert(both =~= second);
        assert(value.take(0) =~= Seq::empty());
        assert(value.skip(0) =~= value);
        if glob(both, value) {
            assert(glob(first, value.take(0)));
        }
        if exists|k: int|
            0 <= k <= value.len() && glob(first, #[trigger] value.take(k)) && glob(
                second,
                value.skip(k),
            ) {
            let k = choose|k: int|
                0 <= k <= value.len() && glob(first, #[trigger] value.take(k)) && glob(
                    second,
                    value.skip(k),
                );
            assert(k == 0);
        }
    } else {
        let rest = first.drop_first();
        assert(both.drop_first() =~= rest + second);
        assert(both[0] == first[0]);
        if first[0] == '*' {
            if glob(both, value) {
                let m = choose|m: int|
                    0 <= m <= value.len() && glob(both.drop_first(), #[trigger] value.skip(m));
                let tail = value.skip(m);
                law_patterns_concatenate(rest, second, tail);
                let j = choose|j: int|
                    0 <= j <= tail.len() && glob(rest, #[trigger] tail.take(j)) && glob(
                        second,
                        tail.skip(j),
                    );
                assert(value.take(m + j).skip(m) =~= tail.take(j));
                assert(value.skip(m + j) =~= tail.skip(j));
                assert(glob(first, value.take(m + j)));
            }
            if exists|k: int|
                0 <= k <= value.len() && glob(first, #[trigger] value.take(k)) && glob(
                    second,
                    value.skip(k),
                ) {
                let k = choose|k: int|
                    0 <= k <= value.len() && glob(first, #[trigger] value.take(k)) && glob(
                        second,
                        value.skip(k),
                    );
                let head = value.take(k);
                let m = choose|m: int|
                    0 <= m <= head.len() && glob(rest, #[trigger] head.skip(m));
                let tail = value.skip(m);
                assert(tail.take(k - m) =~= head.skip(m));
                assert(tail.skip(k - m) =~= value.skip(k));
                law_patterns_concatenate(rest, second, tail);
                assert(glob(both.drop_first(), value.skip(m)));
            }
        } else {
            if glob(both, value) {
                let tail = value.drop_first();
                law_patterns_concatenate(rest, second, tail);
                let j = choose|j: int|
                    0 <= j <= tail.len() && glob(rest, #[trigger] tail.take(j)) && glob(
                        second,
                        tail.skip(j),
                    );
                assert(value.take(j + 1).drop_first() =~= tail.take(j));
                assert(value.skip(j + 1) =~= tail.skip(j));
                assert(glob(first, value.take(j + 1)));
            }
            if exists|k: int|
                0 <= k <= value.len() && glob(first, #[trigger] value.take(k)) && glob(
                    second,
                    value.skip(k),
                ) {
                let k = choose|k: int|
                    0 <= k <= value.len() && glob(first, #[trigger] value.take(k)) && glob(
                        second,
                        value.skip(k),
                    );
                let tail = value.drop_first();
                assert(tail.take(k - 1) =~= value.take(k).drop_first());
                assert(tail.skip(k - 1) =~= value.skip(k));
                law_patterns_concatenate(rest, second, tail);
            }
        }
    }
}

} // verus!
