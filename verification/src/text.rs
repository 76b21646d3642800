//! Character-level helpers shared by the parsers of operator input and of the
//! memory report.

use vstd::prelude::*;

verus! {

broadcast use vstd::string::group_string_axioms;

/// The characters that separate words and pad lines: the code points with the
/// Unicode `White_Space` property.
pub open spec fn is_space(c: char) -> bool {
    let n = c as u32;
    ||| 0x09 <= n <= 0x0d
    ||| n == 0x20
    ||| n == 0x85
    ||| n == 0xa0
    ||| n == 0x1680
    ||| 0x2000 <= n <= 0x200a
    ||| n == 0x2028
    ||| n == 0x2029
    ||| n == 0x202f
    ||| n == 0x205f
    ||| n == 0x3000
}

/// Whether `c` is white space.
pub fn is_whitespace(c: char) -> (b: bool)
    ensures
        b == is_space(c),
{
    let n: u32 = c as u32;
    (0x09 <= n && n <= 0x0d) || n == 0x20 || n == 0x85 || n == 0xa0 || n == 0x1680 || (0x2000 <= n
        && n <= 0x200a) || n == 0x2028 || n == 0x2029 || n == 0x202f || n == 0x205f || n == 0x3000
}

/// How many white-space characters `s` begins with.
pub open spec fn leading_space(s: Seq<char>) -> nat
    decreases s.len(),
{
    if s.len() > 0 && is_space(s[0]) {
        1 + leading_space(s.drop_first())
    } else {
        0
    }
}

/// How many white-space characters `s` ends with.
pub open spec fn trailing_space(s: Seq<char>) -> nat
    decreases s.len(),
{
    if s.len() > 0 && is_space(s.last()) {
        1 + trailing_space(s.drop_last())
    } else {
        0
    }
}

/// `s` without the white space at its two ends.
pub open spec fn trimmed(s: Seq<char>) -> Seq<char> {
    if leading_space(s) == s.len() {
        Seq::empty()
    } else {
        s.subrange(leading_space(s) as int, s.len() - trailing_space(s))
    }
}

/// A run of white space from the start of `s` up to a character that is none
/// (or the end) is the whole leading white space.
pub proof fn lemma_leading_space(s: Seq<char>, a: int)
    requires
        0 <= a <= s.len(),
        forall|i: int| 0 <= i < a ==> is_space(#[trigger] s[i]),
        a == s.len() || !is_space(s[a]),
    ensures
        leading_space(s) == a,
    decreases a,
{
    if a > 0 {
        let t = s.drop_first();
        assert forall|i: int| 0 <= i < a - 1 implies is_space(#[trigger] t[i]) by {
            assert(t[i] == s[i + 1]);
        }
        lemma_leading_space(t, a - 1);
    }
}

/// A run of white space from a character that is none (or the start) to the
/// end of `s` is the whole trailing white space.
pub proof fn lemma_trailing_space(s: Seq<char>, b: int)
    requires
        0 <= b <= s.len(),
        forall|i: int| b <= i < s.len() ==> is_space(#[trigger] s[i]),
        b == 0 || !is_space(s[b - 1]),
    ensures
        trailing_space(s) == s.len() - b,
    decreases s.len() - b,
{
    if b < s.len() {
        let t = s.drop_last();
        assert forall|i: int| b <= i < t.len() implies is_space(#[trigger] t[i]) by {
            assert(t[i] == s[i]);
        }
        lemma_trailing_space(t, b);
    }
}

/// Whether `c` is one of the ten decimal digits.
pub open spec fn is_digit(c: char) -> bool {
    '0' <= c <= '9'
}

/// The number that the digit `c` stands for; 0 for any other character.
pub open spec fn digit_value(c: char) -> nat {
    if is_digit(c) {
        (c as u32 - '0' as u32) as nat
    } else {
        0
    }
}

/// The number that a run of decimal digits writes.
pub open spec fn digits_value(s: Seq<char>) -> nat
    decreases s.len(),
{
    if s.len() == 0 {
        0
    } else {
        digits_value(s.drop_last()) * 10 + digit_value(s.last())
    }
}

/// Whether every character of `s` is a decimal digit.
pub open spec fn all_digits(s: Seq<char>) -> bool {
    forall|i: int| 0 <= i < s.len() ==> is_digit(#[trigger] s[i])
}

/// The number that `s` writes as an unsigned decimal: an optional `+` and then
/// one digit or more, with a value that fits in 64 bits. Anything else writes
/// no number.
pub open spec fn parsed_u64(s: Seq<char>) -> Option<u64> {
    let body = if s.len() > 0 && s[0] == '+' {
        s.drop_first()
    } else {
        s
    };
    if body.len() > 0 && all_digits(body) && digits_value(body) <= u64::MAX {
        Some(digits_value(body) as u64)
    } else {
        None
    }
}

/// More digits never write a smaller number.
pub proof fn lemma_digits_value_grows(s: Seq<char>, k: int)
    requires
        0 <= k <= s.len(),
    ensures
        digits_value(s.take(k)) <= digits_value(s),
    decreases s.len() - k,
{
    if k < s.len() {
        assert(s.drop_last().take(k) == s.take(k));
        lemma_digits_value_grows(s.drop_last(), k);
    } else {
        assert(s.take(k) == s);
    }
}

/// Reads the characters of `v` from `from` up to `to` as an unsigned decimal.
pub fn parse_u64(v: &Vec<char>, from: usize, to: usize) -> (r: Option<u64>)
    requires
        from <= to <= v.len(),
    ensures
        r == parsed_u64(v@.subrange(from as int, to as int)),
{
    let ghost s = v@.subrange(from as int, to as int);
    let start: usize = if from < to && v[from] == '+' {
        from + 1
    } else {
        from
    };
    let ghost body = v@.subrange(start as int, to as int);
    assert(body == if s.len() > 0 && s[0] == '+' {
        s.drop_first()
    } else {
        s
    });
    if start == to {
        return None;
    }
    let mut value: u64 = 0;
    let mut i: usize = start;
    while i < to
        invariant
            from <= start <= i <= to <= v.len(),
            start < to,
            s == v@.subrange(from as int, to as int),
            body == v@.subrange(start as int, to as int),
            body == if s.len() > 0 && s[0] == '+' {
                s.drop_first()
            } else {
                s
            },
            all_digits(body.take(i - start)),
            value == digits_value(body.take(i - start)),
        decreases to - i,
    {
        let c: char = v[i];
        assert(body[i - start] == c);
        if !('0' <= c && c <= '9') {
            return None;
        }
        let d: u64 = (c as u32 - '0' as u32) as u64;
        proof {
            let next = body.take(i - start + 1);
            assert(next.drop_last() == body.take(i - start));
            assert(next.last() == c);
            assert(digits_value(next) == value * 10 + d);
            lemma_digits_value_grows(body, i - start + 1);
        }
        if value > (u64::MAX - d) / 10 {
            return None;
        }
        value = value * 10 + d;
        i += 1;
    }
    assert(body.take(i - start) == body);
    Some(value)
}

/// How many characters `s` begins with before its first white space.
pub open spec fn word_len(s: Seq<char>) -> nat
    decreases s.len(),
{
    if s.len() > 0 && !is_space(s[0]) {
        1 + word_len(s.drop_first())
    } else {
        0
    }
}

/// How many characters `s` begins with before its first line feed.
pub open spec fn line_len(s: Seq<char>) -> nat
    decreases s.len(),
{
    if s.len() > 0 && s[0] != '\n' {
        1 + line_len(s.drop_first())
    } else {
        0
    }
}

/// The second of the words that white space separates in `line`, if it has two.
pub open spec fn second_word(line: Seq<char>) -> Option<Seq<char>> {
    let first = line.skip(leading_space(line) as int);
    let rest = first.skip(word_len(first) as int);
    let second = rest.skip(leading_space(rest) as int);
    if second.len() == 0 {
        None
    } else {
        Some(second.take(word_len(second) as int))
    }
}

/// A run without white space from the start of `s` up to a white space (or the
/// end) is the whole first word.
pub proof fn lemma_word_len(s: Seq<char>, a: int)
    requires
        0 <= a <= s.len(),
        forall|i: int| 0 <= i < a ==> !is_space(#[trigger] s[i]),
        a == s.len() || is_space(s[a]),
    ensures
        word_len(s) == a,
    decreases a,
{
    if a > 0 {
        let t = s.drop_first();
        assert forall|i: int| 0 <= i < a - 1 implies !is_space(#[trigger] t[i]) by {
            assert(t[i] == s[i + 1]);
        }
        lemma_word_len(t, a - 1);
    }
}

/// A run without line feed from the start of `s` up to a line feed (or the
/// end) is the whole first line.
pub proof fn lemma_line_len(s: Seq<char>, a: int)
    requires
        0 <= a <= s.len(),
        forall|i: int| 0 <= i < a ==> #[trigger] s[i] != '\n',
        a == s.len() || s[a] == '\n',
    ensures
        line_len(s) == a,
    decreases a,
{
    if a > 0 {
        let t = s.drop_first();
        assert forall|i: int| 0 <= i < a - 1 implies #[trigger] t[i] != '\n' by {
            assert(t[i] == s[i + 1]);
        }
        lemma_line_len(t, a - 1);
    }
}

/// `String::push`: appends one character to the text.
pub assume_specification[ String::push ](text: &mut String, c: char)
    ensures
        final(text)@ == old(text)@.push(c),
;

/// The text that holds the characters of `v`, in order.
pub fn text_of(v: &Vec<char>) -> (text: String)
    ensures
        text@ == v@,
{
    let mut text = String::new();
    let mut i: usize = 0;
    while i < v.len()
        invariant
            i <= v.len(),
            text@ == v@.take(i as int),
        decreases v.len() - i,
    {
        text.push(v[i]);
        assert(v@.take(i + 1) == v@.take(i as int).push(v@[i as int]));
        i += 1;
    }
    assert(v@.take(v@.len() as int) == v@);
    text
}

/// The characters of `s`, in order.
pub fn chars_of(s: &str) -> (v: Vec<char>)
    ensures
        v@ == s@,
{
    let mut v: Vec<char> = Vec::new();
    for c in it: s.chars()
        invariant
            it.seq() == s@,
            v@ == it.seq().take(it.index()),
    {
        v.push(c);
    }
    v
}

/// The first position at or after `from`, and before `to`, that holds no white
/// space; `to` if there is none.
pub fn skip_space(v: &Vec<char>, from: usize, to: usize) -> (r: usize)
    requires
        from <= to <= v.len(),
    ensures
        from <= r <= to,
        r - from == leading_space(v@.subrange(from as int, to as int)),
        r == to || !is_space(v@[r as int]),
{
    let ghost s = v@.subrange(from as int, to as int);
    let mut a: usize = from;
    while a < to && is_whitespace(v[a])
        invariant
            from <= a <= to <= v.len(),
            s == v@.subrange(from as int, to as int),
            forall|i: int| 0 <= i < a - from ==> is_space(#[trigger] s[i]),
        decreases to - a,
    {
        a += 1;
    }
    proof {
        lemma_leading_space(s, a - from);
    }
    a
}

/// The first position at or after `from`, and before `to`, that holds white
/// space; `to` if there is none.
pub fn skip_word(v: &Vec<char>, from: usize, to: usize) -> (r: usize)
    requires
        from <= to <= v.len(),
    ensures
        from <= r <= to,
        r - from == word_len(v@.subrange(from as int, to as int)),
        r == to || is_space(v@[r as int]),
{
    let ghost s = v@.subrange(from as int, to as int);
    let mut a: usize = from;
    while a < to && !is_whitespace(v[a])
        invariant
            from <= a <= to <= v.len(),
            s == v@.subrange(from as int, to as int),
            forall|i: int| 0 <= i < a - from ==> !is_space(#[trigger] s[i]),
        decreases to - a,
    {
        a += 1;
    }
    proof {
        lemma_word_len(s, a - from);
    }
    a
}

/// The position of the first line feed at or after `from`; the length of `v`
/// if there is none.
pub fn line_end(v: &Vec<char>, from: usize) -> (r: usize)
    requires
        from <= v.len(),
    ensures
        from <= r <= v.len(),
        r - from == line_len(v@.skip(from as int)),
        r == v.len() || v@[r as int] == '\n',
{
    let ghost s = v@.skip(from as int);
    let n: usize = v.len();
    let mut a: usize = from;
    while a < n && v[a] != '\n'
        invariant
            from <= a <= n,
            n == v.len(),
            s == v@.skip(from as int),
            forall|i: int| 0 <= i < a - from ==> #[trigger] s[i] != '\n',
        decreases n - a,
    {
        a += 1;
    }
    proof {
        lemma_line_len(s, a - from);
    }
    a
}

/// The bounds of the second word of the characters of `v` from `from` up to
/// `to`, if they hold two words.
pub fn second_word_bounds(v: &Vec<char>, from: usize, to: usize) -> (r: Option<(usize, usize)>)
    requires
        from <= to <= v.len(),
    ensures
        match r {
            Some((a, b)) => from <= a < b <= to && second_word(v@.subrange(from as int, to as int))
                == Some(v@.subrange(a as int, b as int)),
            None => second_word(v@.subrange(from as int, to as int)) is None,
        },
{
    let ghost line = v@.subrange(from as int, to as int);
    let a0: usize = skip_space(v, from, to);
    let ghost first = line.skip(leading_space(line) as int);
    assert(first == v@.subrange(a0 as int, to as int));
    let b0: usize = skip_word(v, a0, to);
    let ghost rest = first.skip(word_len(first) as int);
    assert(rest == v@.subrange(b0 as int, to as int));
    let a1: usize = skip_space(v, b0, to);
    let ghost second = rest.skip(leading_space(rest) as int);
    assert(second == v@.subrange(a1 as int, to as int));
    if a1 == to {
        return None;
    }
    assert(second[0] == v@[a1 as int]);
    let b1: usize = skip_word(v, a1, to);
    assert(second.take(word_len(second) as int) == v@.subrange(a1 as int, b1 as int));
    Some((a1, b1))
}

/// Whether the characters of `v` from `from` up to `to` begin with `key`.
pub fn has_prefix(v: &Vec<char>, from: usize, to: usize, key: &Vec<char>) -> (r: bool)
    requires
        from <= to <= v.len(),
    ensures
        r == key@.is_prefix_of(v@.subrange(from as int, to as int)),
{
    let ghost s = v@.subrange(from as int, to as int);
    let k: usize = key.len();
    if k > to - from {
        return false;
    }
    let mut i: usize = 0;
    while i < k
        invariant
            from <= to <= v.len(),
            k == key.len(),
            i <= k <= to - from,
            s == v@.subrange(from as int, to as int),
            forall|j: int| 0 <= j < i ==> key@[j] == #[trigger] s[j],
        decreases k - i,
    {
        if v[from + i] != key[i] {
            assert(s[i as int] != key@[i as int]);
            assert(s.subrange(0, key@.len() as int)[i as int] == s[i as int]);
            return false;
        }
        i += 1;
    }
    assert(s.subrange(0, key@.len() as int) == key@);
    true
}

/// Whether the characters of `v` end with `key`.
pub fn has_suffix(v: &Vec<char>, key: &Vec<char>) -> (r: bool)
    ensures
        r == key@.is_suffix_of(v@),
{
    let n: usize = v.len();
    let k: usize = key.len();
    if k > n {
        return false;
    }
    let r = has_prefix(v, n - k, n, key);
    assert(v@.subrange(n - k, n as int).subrange(0, k as int) == v@.subrange(n - k, n as int));
    r
}

/// Whether `a` and `b` hold the same characters.
pub fn same_chars(a: &Vec<char>, b: &Vec<char>) -> (r: bool)
    ensures
        r == (a@ == b@),
{
    if a.len() != b.len() {
        return false;
    }
    let r = has_prefix(a, 0, a.len(), b);
    assert(a@.subrange(0, a@.len() as int) == a@);
    r
}

/// The bounds of `v` without the white space at its two ends.
pub fn trim_bounds(v: &Vec<char>) -> (r: (usize, usize))
    ensures
        r.0 <= r.1 <= v.len(),
        v@.subrange(r.0 as int, r.1 as int) == trimmed(v@),
{
    let n: usize = v.len();
    let mut a: usize = 0;
    while a < n && is_whitespace(v[a])
        invariant
            a <= n,
            n == v.len(),
            forall|i: int| 0 <= i < a ==> is_space(#[trigger] v@[i]),
        decreases n - a,
    {
        a += 1;
    }
    proof {
        lemma_leading_space(v@, a as int);
    }
    if a == n {
        return (n, n);
    }
    let mut b: usize = n;
    while b > a && is_whitespace(v[b - 1])
        invariant
            a <= b <= n,
            n == v.len(),
            a < n,
            !is_space(v@[a as int]),
            forall|i: int| b <= i < n ==> is_space(#[trigger] v@[i]),
        decreases b,
    {
        b -= 1;
    }
    proof {
        lemma_trailing_space(v@, b as int);
    }
    (a, b)
}

/// A copy of the characters of `v` from `from` up to `to`.
pub fn copy_range(v: &Vec<char>, from: usize, to: usize) -> (r: Vec<char>)
    requires
        from <= to <= v.len(),
    ensures
        r@ == v@.subrange(from as int, to as int),
{
    let mut r: Vec<char> = Vec::new();
    let mut i: usize = from;
    while i < to
        invariant
            from <= i <= to <= v.len(),
            r@ == v@.subrange(from as int, i as int),
        decreases to - i,
    {
        r.push(v[i]);
        i += 1;
    }
    r
}

/// The characters of `line` without the white space at its two ends.
pub fn trim(line: &str) -> (r: Vec<char>)
    ensures
        r@ == trimmed(line@),
{
    let v = chars_of(line);
    let (a, b) = trim_bounds(&v);
    copy_range(&v, a, b)
}

} // verus!
