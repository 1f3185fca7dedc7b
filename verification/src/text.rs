//! Character-level text: white space, ASCII case, decimal numbers and padding.
use vstd::prelude::*;

verus! {

/// The characters of `s`, in order.
pub fn to_chars(s: &str) -> (out: Vec<char>)
    ensures
        out@ == s@,
{
    let mut out: Vec<char> = Vec::new();
    for c in it: s.chars()
        invariant
            it.seq() == s@,
            out@ == s@.take(it.index() as int),
    {
        proof {
            assert(s@.take(it.index() + 1) =~= s@.take(it.index() as int).push(c));
        }
        out.push(c);
    }
    assert(s@.take(s@.len() as int) =~= s@);
    out
}

/// White space in the sense of Unicode's `White_Space` property.
pub open spec fn white_space(c: char) -> bool {
    let u = c as u32;
    ||| 0x9 <= u <= 0xd
    ||| u == 0x20
    ||| u == 0x85
    ||| u == 0xa0
    ||| u == 0x1680
    ||| 0x2000 <= u <= 0x200a
    ||| u == 0x2028
    ||| u == 0x2029
    ||| u == 0x202f
    ||| u == 0x205f
    ||| u == 0x3000
}

/// Whether `c` is white space.
pub fn is_white_space(c: char) -> (r: bool)
    ensures
        r == white_space(c),
{
    let u: u32 = c as u32;
    (0x9 <= u && u <= 0xd) || u == 0x20 || u == 0x85 || u == 0xa0 || u == 0x1680 || (0x2000 <= u
        && u <= 0x200a) || u == 0x2028 || u == 0x2029 || u == 0x202f || u == 0x205f || u == 0x3000
}

/// `s` without its leading white space.
pub open spec fn trimmed_start(s: Seq<char>) -> Seq<char>
    decreases s.len(),
{
    if s.len() > 0 && white_space(s[0]) {
        trimmed_start(s.drop_first())
    } else {
        s
    }
}

/// `s` without its trailing white space.
pub open spec fn trimmed_end(s: Seq<char>) -> Seq<char>
    decreases s.len(),
{
    if s.len() > 0 && white_space(s.last()) {
        trimmed_end(s.drop_last())
    } else {
        s
    }
}

/// `s` without the white space at both ends.
pub open spec fn trimmed(s: Seq<char>) -> Seq<char> {
    trimmed_end(trimmed_start(s))
}

/// Whether `s` holds nothing but white space.
pub open spec fn blank(s: Seq<char>) -> bool {
    forall|i: int| 0 <= i < s.len() ==> white_space(s[i])
}

/// `s` without the white space at both ends.
pub fn trim(s: &str) -> (r: &str)
    ensures
        r@ == trimmed(s@),
{
    let chars: Vec<char> = to_chars(s);
    let mut from: usize = 0;
    proof {
        assert(s@.skip(0) =~= s@);
    }
    while from < chars.len() && is_white_space(chars[from])
        invariant
            chars@ == s@,
            from <= chars@.len(),
            trimmed_start(s@) == trimmed_start(s@.skip(from as int)),
        decreases chars@.len() - from,
    {
        proof {
            assert(s@.skip(from as int).drop_first() =~= s@.skip(from + 1));
        }
        from += 1;
    }
    let ghost body = s@.skip(from as int);
    assert(trimmed_start(s@) == body);
    let mut to: usize = chars.len();
    proof {
        assert(s@.subrange(from as int, to as int) =~= body);
    }
    while to > from && is_white_space(chars[to - 1])
        invariant
            chars@ == s@,
            from <= to <= chars@.len(),
            trimmed_end(body) == trimmed_end(s@.subrange(from as int, to as int)),
        decreases to,
    {
        proof {
            let now = s@.subrange(from as int, to as int);
            assert(now.drop_last() =~= s@.subrange(from as int, to - 1));
        }
        to -= 1;
    }
    s.substring_char(from, to)
}

/// Whether `s` holds nothing but white space.
pub fn is_blank(s: &str) -> (r: bool)
    ensures
        r == blank(s@),
        r == (trimmed(s@).len() == 0),
{
    proof {
        law_blank_iff_trimmed_away(s@);
    }
    let chars: Vec<char> = to_chars(s);
    let mut i: usize = 0;
    while i < chars.len()
        invariant
            chars@ == s@,
            i <= chars@.len(),
            blank(s@) == (trimmed(s@).len() == 0),
            forall|j: int| 0 <= j < i ==> white_space(s@[j]),
        decreases chars@.len() - i,
    {
        if !is_white_space(chars[i]) {
            proof {
                assert(!white_space(s@[i as int]));
            }
            return false;
        }
        i += 1;
    }
    true
}

proof fn lemma_trimmed_end_keeps_first(s: Seq<char>)
    requires
        s.len() > 0,
        !white_space(s[0]),
    ensures
        trimmed_end(s).len() > 0,
    decreases s.len(),
{
    if white_space(s.last()) {
        lemma_trimmed_end_keeps_first(s.drop_last());
    }
}

/// Law: trimming leaves nothing exactly of a text that is all white space.
pub proof fn law_blank_iff_trimmed_away(s: Seq<char>)
    ensures
        blank(s) == (trimmed(s).len() == 0),
    decreases s.len(),
{
    if s.len() > 0 {
        if white_space(s[0]) {
            let rest = s.drop_first();
            law_blank_iff_trimmed_away(rest);
            assert(forall|i: int| 0 <= i < rest.len() ==> rest[i] == s[i + 1]);
            if blank(rest) {
                assert forall|i: int| 0 <= i < s.len() implies white_space(s[i]) by {
                    if i > 0 {
                        assert(white_space(rest[i - 1]));
                    }
                }
            }
        } else {
            lemma_trimmed_end_keeps_first(s);
        }
    }
}

/// The code of `c`, with the upper-case ASCII letters taken for their lower-case ones.
pub open spec fn ascii_folded(c: char) -> int {
    if 'A' <= c <= 'Z' {
        c as int + 32
    } else {
        c as int
    }
}

/// Whether two texts are the same but for the case of ASCII letters.
pub open spec fn same_ignoring_ascii_case(a: Seq<char>, b: Seq<char>) -> bool {
    a.len() == b.len() && forall|i: int|
        0 <= i < a.len() ==> ascii_folded(#[trigger] a[i]) == ascii_folded(b[i])
}

fn ascii_fold(c: char) -> (r: u32)
    ensures
        r == ascii_folded(c),
{
    let u: u32 = c as u32;
    if 'A' <= c && c <= 'Z' {
        u + 32
    } else {
        u
    }
}

/// Whether two texts are the same but for the case of ASCII letters.
pub fn eq_ignore_ascii_case(a: &str, b: &str) -> (r: bool)
    ensures
        r == same_ignoring_ascii_case(a@, b@),
{
    let left: Vec<char> = to_chars(a);
    let right: Vec<char> = to_chars(b);
    if left.len() != right.len() {
        return false;
    }
    let mut i: usize = 0;
    while i < left.len()
        invariant
            left@ == a@,
            right@ == b@,
            left@.len() == right@.len(),
            i <= left@.len(),
            forall|j: int| 0 <= j < i ==> ascii_folded(#[trigger] a@[j]) == ascii_folded(b@[j]),
        decreases left@.len() - i,
    {
        if ascii_fold(left[i]) != ascii_fold(right[i]) {
            proof {
                assert(ascii_folded(a@[i as int]) != ascii_folded(b@[i as int]));
            }
            return false;
        }
        i += 1;
    }
    true
}

/// Whether two texts are the same.
pub fn same_text(a: &str, b: &str) -> (r: bool)
    ensures
        r == (a@ == b@),
{
    let left: Vec<char> = to_chars(a);
    let right: Vec<char> = to_chars(b);
    if left.len() != right.len() {
        return false;
    }
    let mut i: usize = 0;
    while i < left.len()
        invariant
            left@ == a@,
            right@ == b@,
            left@.len() == right@.len(),
            i <= left@.len(),
            forall|j: int| 0 <= j < i ==> a@[j] == b@[j],
        decreases left@.len() - i,
    {
        if left[i] != right[i] {
            proof {
                assert(a@[i as int] != b@[i as int]);
            }
            return false;
        }
        i += 1;
    }
    proof {
        assert(a@ =~= b@);
    }
    true
}

/// The decimal digit `d`.
pub open spec fn digit_char(d: int) -> char {
    (48 + d) as char
}

/// `n` in decimal, without leading zeros.
pub open spec fn decimal(n: nat) -> Seq<char>
    decreases n,
{
    if n < 10 {
        seq![digit_char(n as int)]
    } else {
        decimal(n / 10).push(digit_char((n % 10) as int))
    }
}

fn digit_str(d: u128) -> (r: &'static str)
    requires
        d < 10,
    ensures
        r@ == seq![digit_char(d as int)],
{
    proof {
        reveal_strlit("0");
        reveal_strlit("1");
        reveal_strlit("2");
        reveal_strlit("3");
        reveal_strlit("4");
        reveal_strlit("5");
        reveal_strlit("6");
        reveal_strlit("7");
        reveal_strlit("8");
        reveal_strlit("9");
    }
    let r: &'static str = match d {
        0 => "0",
        1 => "1",
        2 => "2",
        3 => "3",
        4 => "4",
        5 => "5",
        6 => "6",
        7 => "7",
        8 => "8",
        _ => "9",
    };
    assert(r@ =~= seq![digit_char(d as int)]);
    r
}

/// Appends `n` in decimal.
pub fn push_decimal(out: &mut String, n: u128)
    ensures
        final(out)@ == old(out)@ + decimal(n as nat),
    decreases n,
{
    if n >= 10 {
        push_decimal(out, n / 10);
    }
    out.append(digit_str(n % 10));
    proof {
        let last = seq![digit_char((n % 10) as int)];
        if n >= 10 {
            assert(decimal(n as nat) =~= decimal((n / 10) as nat) + last);
        }
        assert(out@ =~= old(out)@ + decimal(n as nat));
    }
}

/// Whether `c` is a decimal digit.
pub open spec fn is_digit(c: char) -> bool {
    '0' <= c <= '9'
}

/// The number that a sequence of decimal digits writes.
pub open spec fn decimal_value(digits: Seq<char>) -> int
    decreases digits.len(),
{
    if digits.len() == 0 {
        0
    } else {
        decimal_value(digits.drop_last()) * 10 + (digits.last() as int - 48)
    }
}

/// The digits of a written number: all of it but for one leading plus sign.
pub open spec fn unsigned_digits(s: Seq<char>) -> Seq<char> {
    if s.len() > 0 && s[0] == '+' {
        s.drop_first()
    } else {
        s
    }
}

/// The number below `2^32` that `s` writes in decimal, if it writes one.
pub open spec fn parsed_u32(s: Seq<char>) -> Option<u32> {
    let digits = unsigned_digits(s);
    if digits.len() > 0 && (forall|i: int| 0 <= i < digits.len() ==> is_digit(#[trigger] digits[i]))
        && decimal_value(digits) <= u32::MAX {
        Some(decimal_value(digits) as u32)
    } else {
        None
    }
}

proof fn lemma_decimal_value_grows(digits: Seq<char>, n: int)
    requires
        0 <= n <= digits.len(),
        forall|i: int| 0 <= i < digits.len() ==> is_digit(#[trigger] digits[i]),
    ensures
        0 <= decimal_value(digits.take(n)) <= decimal_value(digits),
    decreases digits.len(),
{
    if digits.len() == 0 {
        assert(digits.take(n) =~= digits);
    } else {
        let front = digits.drop_last();
        assert(forall|i: int| 0 <= i < front.len() ==> front[i] == digits[i]);
        assert(is_digit(digits[digits.len() - 1]));
        if n == digits.len() {
            assert(digits.take(n) =~= digits);
            lemma_decimal_value_grows(front, 0);
            assert(front.take(0) =~= Seq::empty());
        } else {
            lemma_decimal_value_grows(front, n);
            assert(digits.take(n) =~= front.take(n));
        }
    }
}

/// Reads a decimal number below `2^32`. One leading plus sign is allowed; anything else
/// that is not a digit, an empty text and a number that is too large give `None`.
pub fn parse_u32(s: &str) -> (r: Option<u32>)
    ensures
        r == parsed_u32(s@),
{
    let chars: Vec<char> = to_chars(s);
    let start: usize = if chars.len() > 0 && chars[0] == '+' {
        1
    } else {
        0
    };
    let ghost digits = unsigned_digits(s@);
    proof {
        if start == 0 {
            assert(s@.skip(0) =~= s@);
        } else {
            assert(s@.skip(1) =~= s@.drop_first());
        }
        assert(digits == s@.skip(start as int));
    }
    if chars.len() == start {
        return None;
    }
    let mut value: u64 = 0;
    let mut i: usize = start;
    while i < chars.len()
        invariant
            chars@ == s@,
            digits == unsigned_digits(s@),
            digits == s@.skip(start as int),
            start <= i <= chars@.len(),
            forall|j: int| 0 <= j < i - start ==> is_digit(#[trigger] digits[j]),
            value == decimal_value(digits.take(i - start)),
            value <= u32::MAX,
        decreases chars@.len() - i,
    {
        let c: char = chars[i];
        let ghost at = i - start;
        assert(digits[at] == c);
        if !('0' <= c && c <= '9') {
            assert(!is_digit(digits[at]));
            return None;
        }
        let d: u64 = c as u64 - 48;
        proof {
            assert(digits.take(at + 1).drop_last() =~= digits.take(at));
        }
        value = value * 10 + d;
        if value > 0xffff_ffff {
            proof {
                if forall|j: int| 0 <= j < digits.len() ==> is_digit(#[trigger] digits[j]) {
                    lemma_decimal_value_grows(digits, at + 1);
                }
            }
            return None;
        }
        i += 1;
    }
    proof {
        assert(digits.take(digits.len() as int) =~= digits);
    }
    Some(value as u32)
}

/// Law: reading back a number that was written in decimal gives the number.
pub proof fn law_parse_reads_decimal(n: u32)
    ensures
        parsed_u32(decimal(n as nat)) == Some(n),
{
    lemma_decimal_digits(n as nat);
    let s = decimal(n as nat);
    assert(is_digit(s[0]));
    assert(unsigned_digits(s) == s);
}

proof fn lemma_decimal_digits(n: nat)
    ensures
        decimal(n).len() > 0,
        forall|i: int| 0 <= i < decimal(n).len() ==> is_digit(#[trigger] decimal(n)[i]),
        decimal_value(decimal(n)) == n,
    decreases n,
{
    let s = decimal(n);
    if n < 10 {
        assert(s.drop_last() =~= Seq::empty());
        assert(decimal_value(s.drop_last()) == 0);
    } else {
        lemma_decimal_digits(n / 10);
        assert(s.drop_last() =~= decimal(n / 10));
    }
}

/// `label`, filled up with blanks on the right to a width of `width` characters.
pub open spec fn padded(label: Seq<char>, width: nat) -> Seq<char> {
    if label.len() >= width {
        label
    } else {
        label + Seq::new((width - label.len()) as nat, |i: int| ' ')
    }
}

/// Appends `label`, filled up with blanks on the right to a width of `width` characters.
pub fn push_padded(out: &mut String, label: &str, width: usize)
    ensures
        final(out)@ == old(out)@ + padded(label@, width as nat),
{
    let len: usize = label.unicode_len();
    out.append(label);
    let mut i: usize = len;
    while i < width
        invariant
            len == label@.len(),
            len <= i,
            i <= width || i == len,
            out@ == old(out)@ + padded(label@, i as nat),
        decreases width - i,
    {
        proof {
            reveal_strlit(" ");
            assert(padded(label@, i as nat) + " "@ =~= padded(label@, (i + 1) as nat));
        }
        out.append(" ");
        assert(out@ =~= old(out)@ + padded(label@, (i + 1) as nat));
        i += 1;
    }
}

proof fn lemma_trimmed_start_splits(s: Seq<char>) -> (from: int)
    ensures
        0 <= from <= s.len(),
        trimmed_start(s) == s.skip(from),
        forall|i: int| 0 <= i < from ==> white_space(#[trigger] s[i]),
        from < s.len() ==> !white_space(s[from]),
    decreases s.len(),
{
    if s.len() > 0 && white_space(s[0]) {
        let rest = s.drop_first();
        let k = lemma_trimmed_start_splits(rest);
        assert(rest.skip(k) =~= s.skip(k + 1));
        assert forall|i: int| 0 <= i < k + 1 implies white_space(#[trigger] s[i]) by {
            if i > 0 {
                assert(white_space(rest[i - 1]));
            }
        }
        k + 1
    } else {
        assert(s.skip(0) =~= s);
        0
    }
}

proof fn lemma_trimmed_end_splits(s: Seq<char>) -> (to: int)
    ensures
        0 <= to <= s.len(),
        trimmed_end(s) == s.take(to),
        forall|i: int| to <= i < s.len() ==> white_space(#[trigger] s[i]),
        to > 0 ==> !white_space(s[to - 1]),
    decreases s.len(),
{
    if s.len() > 0 && white_space(s.last()) {
        let front = s.drop_last();
        let k = lemma_trimmed_end_splits(front);
        assert(front.take(k) =~= s.take(k));
        assert forall|i: int| k <= i < s.len() implies white_space(#[trigger] s[i]) by {
            if i < s.len() - 1 {
                assert(white_space(front[i]));
            }
        }
        k
    } else {
        assert(s.take(s.len() as int) =~= s);
        s.len() as int
    }
}

/// Law: trimming cuts off white space at the two ends and nothing else, and what is left
/// neither begins nor ends with white space.
pub proof fn law_trim_cuts_white_space_only(s: Seq<char>) -> (cut: (int, int))
    ensures
        0 <= cut.0 <= cut.1 <= s.len(),
        trimmed(s) == s.subrange(cut.0, cut.1),
        forall|i: int| 0 <= i < cut.0 ==> white_space(#[trigger] s[i]),
        forall|i: int| cut.1 <= i < s.len() ==> white_space(#[trigger] s[i]),
        cut.0 < cut.1 ==> !white_space(s[cut.0]) && !white_space(s[cut.1 - 1]),
{
    let from = lemma_trimmed_start_splits(s);
    let body = s.skip(from);
    let to = lemma_trimmed_end_splits(body);
    assert(body.take(to) =~= s.subrange(from, from + to));
    assert forall|i: int| from + to <= i < s.len() implies white_space(#[trigger] s[i]) by {
        assert(white_space(body[i - from]));
    }
    if to > 0 {
        assert(body[to - 1] == s[from + to - 1]);
    }
    (from, from + to)
}

/// Law: white space around a text that neither begins nor ends with any is trimmed away,
/// and the text is left as it is.
pub proof fn law_trim_undoes_padding(before: Seq<char>, s: Seq<char>, after: Seq<char>)
    requires
        forall|i: int| 0 <= i < before.len() ==> white_space(#[trigger] before[i]),
        forall|i: int| 0 <= i < after.len() ==> white_space(#[trigger] after[i]),
        s.len() > 0,
        !white_space(s[0]),
        !white_space(s.last()),
    ensures
        trimmed(before + s + after) == s,
{
    let all = before + s + after;
    let (from, to) = law_trim_cuts_white_space_only(all);
    let a = before.len() as int;
    let b = a + s.len();
    assert(all[a] == s[0]);
    assert(all[b - 1] == s.last());
    if from < a {
        assert(from < to);
        assert(white_space(before[from]));
        assert(all[from] == before[from]);
    }
    if to > b {
        assert(white_space(after[to - 1 - b]));
        assert(all[to - 1] == after[to - 1 - b]);
    }
    assert(from == a);
    assert(to == b);
    assert(all.subrange(a, b) =~= s);
}

/// Law: among the ASCII characters, the white space is the blank, the tab, the line feed,
/// the vertical tab, the form feed and the carriage return.
pub proof fn law_ascii_white_space(c: char)
    requires
        (c as int) < 128,
    ensures
        white_space(c) <==> (c == ' ' || c == '\t' || c == '\n' || c == '\r' || c as int == 11
            || c as int == 12),
{
}

/// Law: two characters count as the same but for ASCII case exactly where they are one, or
/// the upper-case and the lower-case form of one ASCII letter.
pub proof fn law_ascii_case(a: char, b: char)
    ensures
        same_ignoring_ascii_case(seq![a], seq![b]) <==> (a == b || ('A' <= a <= 'Z' && b as int
            == a as int + 32) || ('A' <= b <= 'Z' && a as int == b as int + 32)),
{
    if same_ignoring_ascii_case(seq![a], seq![b]) {
        assert(ascii_folded(seq![a][0]) == ascii_folded(seq![b][0]));
    }
}

/// Law: two texts are the same but for ASCII case exactly where they are as long as each
/// other and so are their characters, one by one.
pub proof fn law_ascii_case_goes_by_characters(a: Seq<char>, b: Seq<char>)
    ensures
        same_ignoring_ascii_case(a, b) <==> (a.len() == b.len() && forall|i: int|
            0 <= i < a.len() ==> same_ignoring_ascii_case(seq![#[trigger] a[i]], seq![b[i]])),
{
    if same_ignoring_ascii_case(a, b) {
        assert forall|i: int| 0 <= i < a.len() implies same_ignoring_ascii_case(
            seq![#[trigger] a[i]],
            seq![b[i]],
        ) by {
            assert(ascii_folded(a[i]) == ascii_folded(b[i]));
        }
    }
    if a.len() == b.len() && forall|i: int|
        0 <= i < a.len() ==> same_ignoring_ascii_case(seq![#[trigger] a[i]], seq![b[i]]) {
        assert forall|i: int| 0 <= i < a.len() implies ascii_folded(#[trigger] a[i])
            == ascii_folded(b[i]) by {
            assert(same_ignoring_ascii_case(seq![a[i]], seq![b[i]]));
            assert(ascii_folded(seq![a[i]][0]) == ascii_folded(seq![b[i]][0]));
        }
    }
}

/// Law: a number is written with the digits `0` to `9` only, and without a leading zero
/// unless it is zero.
pub proof fn law_decimal_is_canonical(n: nat)
    ensures
        decimal(n).len() > 0,
        forall|i: int| 0 <= i < decimal(n).len() ==> '0' <= #[trigger] decimal(n)[i] <= '9',
        n > 0 ==> decimal(n)[0] != '0',
        n == 0 ==> decimal(n) == seq!['0'],
    decreases n,
{
    lemma_decimal_digits(n);
    if n >= 10 {
        law_decimal_is_canonical(n / 10);
    }
}

/// Law: a digit behind a written number multiplies it by ten and adds the digit.
pub proof fn law_decimal_appends_a_digit(n: nat, d: nat)
    requires
        n > 0,
        d < 10,
    ensures
        decimal(10 * n + d) == decimal(n) + decimal(d),
{
    assert((10 * n + d) / 10 == n);
    assert((10 * n + d) % 10 == d);
    assert(decimal(10 * n + d) =~= decimal(n) + decimal(d));
}

/// Law: a plus sign in front of a number, and zeros in front of its digits, do not change
/// what is read.
pub proof fn law_parse_allows_plus_and_zeros(n: u32)
    ensures
        parsed_u32(seq!['+'] + decimal(n as nat)) == Some(n),
        parsed_u32(seq!['0'] + decimal(n as nat)) == Some(n),
{
    let s = decimal(n as nat);
    lemma_decimal_digits(n as nat);
    assert(is_digit(s[0]));
    let plus = seq!['+'] + s;
    assert(plus.drop_first() =~= s);
    let zero = seq!['0'] + s;
    assert forall|i: int| 0 <= i < zero.len() implies is_digit(#[trigger] zero[i]) by {
        if i > 0 {
            assert(zero[i] == s[i - 1]);
        }
    }
    lemma_leading_zero(s);
}

proof fn lemma_leading_zero(s: Seq<char>)
    ensures
        decimal_value(seq!['0'] + s) == decimal_value(s),
    decreases s.len(),
{
    let zero = seq!['0'] + s;
    if s.len() == 0 {
        assert(zero.drop_last() =~= Seq::empty());
        assert(decimal_value(zero.drop_last()) == 0);
    } else {
        assert(zero.drop_last() =~= seq!['0'] + s.drop_last());
        lemma_leading_zero(s.drop_last());
    }
}

/// Law: no number is read from a text that is empty, that holds anything but digits behind
/// its first character, or that begins with anything but a digit or a plus sign.
pub proof fn law_parse_refuses_what_is_no_number(s: Seq<char>)
    ensures
        s.len() == 0 ==> parsed_u32(s) is None,
        s == seq!['+'] ==> parsed_u32(s) is None,
        (exists|i: int| 0 < i < s.len() && !('0' <= #[trigger] s[i] <= '9')) ==> parsed_u32(s)
            is None,
        s.len() > 0 && s[0] != '+' && !('0' <= s[0] <= '9') ==> parsed_u32(s) is None,
{
    let digits = unsigned_digits(s);
    if parsed_u32(s) is Some {
        if exists|i: int| 0 < i < s.len() && !('0' <= #[trigger] s[i] <= '9') {
            let i = choose|i: int| 0 < i < s.len() && !('0' <= #[trigger] s[i] <= '9');
            if s[0] == '+' {
                assert(digits[i - 1] == s[i]);
            } else {
                assert(digits[i] == s[i]);
            }
        }
        if s.len() > 0 && s[0] != '+' {
            assert(is_digit(digits[0]));
        }
    }
}

/// Law: padding keeps the label in front, fills up with blanks, and leaves a label that is
/// wide enough as it is.
pub proof fn law_padding_fills_with_blanks(label: Seq<char>, width: nat)
    ensures
        padded(label, width).len() == if label.len() >= width {
            label.len()
        } else {
            width
        },
        padded(label, width).take(label.len() as int) == label,
        forall|i: int|
            label.len() <= i < padded(label, width).len() ==> #[trigger] padded(label, width)[i]
                == ' ',
{
    assert(padded(label, width).take(label.len() as int) =~= label);
}

/// Law: beyond ASCII, the white space is that of Unicode: the next-line character, the
/// no-break blanks, the Ogham blank, the typographic blanks, the line and paragraph
/// separators, the mathematical blank and the ideographic one.
pub proof fn law_unicode_white_space(c: char)
    requires
        c as int >= 128,
    ensures
        white_space(c) <==> seq![
            0x85int,
            0xa0,
            0x1680,
            0x2000,
            0x2001,
            0x2002,
            0x2003,
            0x2004,
            0x2005,
            0x2006,
            0x2007,
            0x2008,
            0x2009,
            0x200a,
            0x2028,
            0x2029,
            0x202f,
            0x205f,
            0x3000,
        ].contains(c as int),
{
    let blanks = seq![
        0x85int,
        0xa0,
        0x1680,
        0x2000,
        0x2001,
        0x2002,
        0x2003,
        0x2004,
        0x2005,
        0x2006,
        0x2007,
        0x2008,
        0x2009,
        0x200a,
        0x2028,
        0x2029,
        0x202f,
        0x205f,
        0x3000,
    ];
    let u = c as int;
    if white_space(c) {
        let i = if u == 0x85 {
            0int
        } else if u == 0xa0 {
            1
        } else if u == 0x1680 {
            2
        } else if u <= 0x200a {
            u - 0x2000 + 3
        } else if u == 0x2028 {
            14
        } else if u == 0x2029 {
            15
        } else if u == 0x202f {
            16
        } else if u == 0x205f {
            17
        } else {
            18
        };
        assert(blanks[i] == u);
    }
}

} // verus!
