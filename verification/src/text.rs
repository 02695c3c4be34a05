//! Character-sequence utilities shared by the parsers and renderers.
//!
//! Text is modelled as `Seq<char>`; the executable helpers work on character
//! slices and are specified against the sequence functions defined here.

use vstd::prelude::*;

verus! {

// ---------------------------------------------------------------------------
// Whitespace and trimming
// ---------------------------------------------------------------------------

/// Characters with the Unicode `White_Space` property.
pub open spec fn is_space(c: char) -> bool {
    let u = c as u32;
    (0x09 <= u <= 0x0D) || u == 0x20 || u == 0x85 || u == 0xA0 || u == 0x1680 || (0x2000 <= u
        <= 0x200A) || u == 0x2028 || u == 0x2029 || u == 0x202F || u == 0x205F || u == 0x3000
}

/// Number of whitespace characters at the front of `s`, counted from `from`.
pub open spec fn leading_spaces(s: Seq<char>, from: int) -> int
    decreases s.len() - from,
{
    if 0 <= from < s.len() && is_space(s[from]) {
        1 + leading_spaces(s, from + 1)
    } else {
        0
    }
}

/// Number of whitespace characters at the back of `s[..upto]`.
pub open spec fn trailing_spaces(s: Seq<char>, upto: int) -> int
    decreases upto,
{
    if 0 < upto <= s.len() && is_space(s[upto - 1]) {
        1 + trailing_spaces(s, upto - 1)
    } else {
        0
    }
}

/// `s` without its leading whitespace.
pub open spec fn trim_start(s: Seq<char>) -> Seq<char> {
    s.skip(leading_spaces(s, 0))
}

/// `s` without its trailing whitespace.
pub open spec fn trim_end(s: Seq<char>) -> Seq<char> {
    s.take(s.len() - trailing_spaces(s, s.len() as int))
}

/// `s` without leading and trailing whitespace.
pub open spec fn trim(s: Seq<char>) -> Seq<char> {
    trim_end(trim_start(s))
}

/// The leading whitespace of a text is a run of whitespace that ends at the
/// end of the text or before a character that is none.
pub proof fn lemma_leading_spaces_bounds(s: Seq<char>, from: int)
    requires
        0 <= from <= s.len(),
    ensures
        0 <= leading_spaces(s, from) <= s.len() - from,
        forall|k: int| from <= k < from + leading_spaces(s, from) ==> is_space(#[trigger] s[k]),
        from + leading_spaces(s, from) < s.len() ==> !is_space(
            s[from + leading_spaces(s, from)],
        ),
    decreases s.len() - from,
{
    if from < s.len() && is_space(s[from]) {
        lemma_leading_spaces_bounds(s, from + 1);
    }
}

/// The trailing whitespace of a text is a run of whitespace that begins at
/// the start of the text or after a character that is none.
pub proof fn lemma_trailing_spaces_bounds(s: Seq<char>, upto: int)
    requires
        0 <= upto <= s.len(),
    ensures
        0 <= trailing_spaces(s, upto) <= upto,
        forall|k: int| upto - trailing_spaces(s, upto) <= k < upto ==> is_space(#[trigger] s[k]),
        upto - trailing_spaces(s, upto) > 0 ==> !is_space(
            s[upto - trailing_spaces(s, upto) - 1],
        ),
    decreases upto,
{
    if 0 < upto && is_space(s[upto - 1]) {
        lemma_trailing_spaces_bounds(s, upto - 1);
    }
}

/// A text that neither starts nor ends with whitespace is its own trim.
pub proof fn lemma_trim_fixed(s: Seq<char>)
    requires
        s.len() == 0 || (!is_space(s[0]) && !is_space(s[s.len() - 1])),
    ensures
        trim(s) == s,
{
    assert(leading_spaces(s, 0) == 0);
    assert(trim_start(s) == s);
    assert(trailing_spaces(s, s.len() as int) == 0);
    assert(trim_end(s) == s);
}

/// The trim of any text neither starts nor ends with whitespace.
pub proof fn lemma_trim_is_trimmed(s: Seq<char>)
    ensures
        trim(s).len() <= s.len(),
        trim(s).len() > 0 ==> !is_space(trim(s)[0]) && !is_space(trim(s)[trim(s).len() - 1]),
        trim(trim(s)) == trim(s),
{
    lemma_leading_spaces_bounds(s, 0);
    let a = trim_start(s);
    lemma_trailing_spaces_bounds(a, a.len() as int);
    let t = trim(s);
    if t.len() > 0 {
        assert(t[t.len() - 1] == a[t.len() - 1]);
        assert(t[0] == a[0]);
        assert(a[0] == s[leading_spaces(s, 0)]);
    }
    lemma_trim_fixed(t);
}

/// Whether `c` has the Unicode `White_Space` property.
pub fn is_space_char(c: char) -> (r: bool)
    ensures
        r == is_space(c),
{
    let u: u32 = c as u32;
    (0x09 <= u && u <= 0x0D) || u == 0x20 || u == 0x85 || u == 0xA0 || u == 0x1680 || (0x2000 <= u
        && u <= 0x200A) || u == 0x2028 || u == 0x2029 || u == 0x202F || u == 0x205F || u == 0x3000
}

/// Copies the characters of `s` into a vector.
pub fn chars_of(s: &str) -> (v: Vec<char>)
    ensures
        v@ == s@,
{
    let mut v: Vec<char> = Vec::new();
    for c in it: s.chars()
        invariant
            v@ == it.seq().take(it.index() as int),
            it.seq() == s@,
    {
        v.push(c);
    }
    v
}

/// Builds a string holding exactly the characters of `v`.
pub fn string_of(v: &[char]) -> (s: String)
    ensures
        s@ == v@,
{
    let mut s = String::new();
    let mut i: usize = 0;
    while i < v.len()
        invariant
            i <= v.len(),
            s@ == v@.take(i as int),
        decreases v.len() - i,
    {
        s.push(v[i]);
        i += 1;
    }
    s
}

/// Copies `v[from..to]`.
pub fn slice_of(v: &[char], from: usize, to: usize) -> (r: Vec<char>)
    requires
        from <= to <= v.len(),
    ensures
        r@ == v@.subrange(from as int, to as int),
{
    let mut r: Vec<char> = Vec::new();
    let mut i: usize = from;
    while i < to
        invariant
            from <= i <= to <= v.len(),
            r@ == v@.subrange(from as int, i as int),
        decreases to - i,
    {
        r.push(v[i]);
        i += 1;
    }
    r
}

/// Appends the characters of `tail` to `out`.
pub fn push_all(out: &mut Vec<char>, tail: &[char])
    ensures
        final(out)@ == old(out)@ + tail@,
{
    let mut i: usize = 0;
    while i < tail.len()
        invariant
            i <= tail.len(),
            out@ == old(out)@ + tail@.take(i as int),
        decreases tail.len() - i,
    {
        out.push(tail[i]);
        i += 1;
    }
    assert(tail@.take(tail.len() as int) == tail@);
}

/// Appends the characters of the string `tail` to `out`.
pub fn push_str(out: &mut Vec<char>, tail: &str)
    ensures
        final(out)@ == old(out)@ + tail@,
{
    let t = chars_of(tail);
    push_all(out, t.as_slice());
}

/// Whether two character slices hold the same text.
pub fn same_text(a: &[char], b: &[char]) -> (r: bool)
    ensures
        r == (a@ == b@),
{
    if a.len() != b.len() {
        return false;
    }
    let mut i: usize = 0;
    while i < a.len()
        invariant
            i <= a.len(),
            a.len() == b.len(),
            a@.take(i as int) == b@.take(i as int),
        decreases a.len() - i,
    {
        if a[i] != b[i] {
            return false;
        }
        assert(a@.take(i + 1) == a@.take(i as int).push(a@[i as int]));
        assert(b@.take(i + 1) == b@.take(i as int).push(b@[i as int]));
        i += 1;
    }
    assert(a@.take(a.len() as int) == a@);
    assert(b@.take(b.len() as int) == b@);
    true
}

/// Whether two strings hold the same text.
pub fn str_eq(a: &str, b: &str) -> (r: bool)
    ensures
        r == (a@ == b@),
{
    let x = chars_of(a);
    let y = chars_of(b);
    same_text(x.as_slice(), y.as_slice())
}

/// A copy of an optional text.
pub fn clone_text(text: &Option<String>) -> (r: Option<String>)
    ensures
        r == *text,
{
    match text {
        Some(t) => Some(t.clone()),
        None => None,
    }
}

/// Whether the slice holds exactly the text of `lit`.
pub fn is_text(a: &[char], lit: &str) -> (r: bool)
    ensures
        r == (a@ == lit@),
{
    let l = chars_of(lit);
    same_text(a, l.as_slice())
}

/// Whether `v` begins with `prefix`.
pub fn starts_with(v: &[char], prefix: &[char]) -> (r: bool)
    ensures
        r == prefix@.is_prefix_of(v@),
{
    if prefix.len() > v.len() {
        return false;
    }
    let mut i: usize = 0;
    while i < prefix.len()
        invariant
            i <= prefix.len() <= v.len(),
            forall|k: int| 0 <= k < i ==> prefix@[k] == v@[k],
        decreases prefix.len() - i,
    {
        if prefix[i] != v[i] {
            return false;
        }
        i += 1;
    }
    true
}

/// Whether `v` begins with the text of `lit`.
pub fn starts_with_str(v: &[char], lit: &str) -> (r: bool)
    ensures
        r == lit@.is_prefix_of(v@),
{
    let l = chars_of(lit);
    starts_with(v, l.as_slice())
}

/// `v` without leading and trailing whitespace.
pub fn trimmed(v: &[char]) -> (r: Vec<char>)
    ensures
        r@ == trim(v@),
{
    let mut start: usize = 0;
    while start < v.len() && is_space_char(v[start])
        invariant
            start <= v.len(),
            leading_spaces(v@, 0) == start + leading_spaces(v@, start as int),
        decreases v.len() - start,
    {
        start += 1;
    }
    let ghost front = trim_start(v@);
    assert(front == v@.skip(start as int));
    let mut end: usize = v.len();
    while end > start && is_space_char(v[end - 1])
        invariant
            start <= end <= v.len(),
            front == v@.skip(start as int),
            trailing_spaces(front, front.len() as int) == (v.len() - end) + trailing_spaces(
                front,
                end - start,
            ),
        decreases end,
    {
        assert(front[end - 1 - start] == v@[end - 1]);
        end -= 1;
    }
    proof {
        if end > start {
            assert(front[end - 1 - start] == v@[end - 1]);
        }
        assert(trailing_spaces(front, end - start) == 0);
        assert(trim(v@) == front.take(end - start));
        assert(front.take(end - start) == v@.subrange(start as int, end as int));
    }
    slice_of(v, start, end)
}

// ---------------------------------------------------------------------------
// Splitting
// ---------------------------------------------------------------------------

/// Index of the first occurrence of `c` in `s` at or after `from`, or `s.len()`
/// when there is none.
pub open spec fn find_from(s: Seq<char>, c: char, from: int) -> int
    decreases s.len() - from,
{
    if from < 0 || from >= s.len() {
        s.len() as int
    } else if s[from] == c {
        from
    } else {
        find_from(s, c, from + 1)
    }
}

/// The pieces of `s` around its first `sep`: what stands before it and what
/// stands after it. `None` when `s` holds no `sep`.
pub open spec fn split_first(s: Seq<char>, sep: char) -> Option<(Seq<char>, Seq<char>)> {
    let i = find_from(s, sep, 0);
    if i < s.len() {
        Some((s.take(i), s.skip(i + 1)))
    } else {
        None
    }
}

/// `s` cut at its first `limit - 1` occurrences of `sep`: at most `limit` pieces,
/// the last of which holds the rest of the text unsplit. A `limit` of 0 gives
/// no piece.
pub open spec fn split_limit(s: Seq<char>, sep: char, limit: nat) -> Seq<Seq<char>>
    decreases limit,
{
    if limit == 0 {
        Seq::empty()
    } else if limit == 1 {
        seq![s]
    } else {
        match split_first(s, sep) {
            None => seq![s],
            Some((head, rest)) => seq![head] + split_limit(rest, sep, (limit - 1) as nat),
        }
    }
}

/// A text is cut into at least one piece and at most `limit` pieces.
pub proof fn lemma_split_limit_len(s: Seq<char>, sep: char, limit: nat)
    ensures
        split_limit(s, sep, limit).len() <= limit,
        limit > 0 ==> split_limit(s, sep, limit).len() >= 1,
    decreases limit,
{
    if limit >= 2 {
        match split_first(s, sep) {
            None => {},
            Some((head, rest)) => {
                lemma_split_limit_len(rest, sep, (limit - 1) as nat);
            },
        }
    }
}

/// Position of the first `sep` in `v`, or `v.len()` when there is none.
pub fn find_char(v: &[char], sep: char) -> (i: usize)
    ensures
        i == find_from(v@, sep, 0),
        i <= v.len(),
{
    let mut i: usize = 0;
    while i < v.len() && v[i] != sep
        invariant
            i <= v.len(),
            find_from(v@, sep, 0) == find_from(v@, sep, i as int),
        decreases v.len() - i,
    {
        i += 1;
    }
    i
}

/// Cuts `v` at its first `limit - 1` occurrences of `sep`.
pub fn split_n(v: &[char], sep: char, limit: usize) -> (parts: Vec<Vec<char>>)
    ensures
        parts@.map_values(|p: Vec<char>| p@) == split_limit(v@, sep, limit as nat),
{
    let mut parts: Vec<Vec<char>> = Vec::new();
    if limit == 0 {
        assert(parts@.map_values(|p: Vec<char>| p@) == Seq::<Seq<char>>::empty());
        return parts;
    }
    let mut rest: Vec<char> = slice_of(v, 0, v.len());
    assert(rest@ == v@);
    let mut left: usize = limit;
    loop
        invariant_except_break
            1 <= left <= limit,
            split_limit(v@, sep, limit as nat) == parts@.map_values(|p: Vec<char>| p@)
                + split_limit(rest@, sep, left as nat),
        ensures
            parts@.map_values(|p: Vec<char>| p@) == split_limit(v@, sep, limit as nat),
        decreases left,
    {
        let ghost before = parts@.map_values(|p: Vec<char>| p@);
        let at = find_char(rest.as_slice(), sep);
        if left == 1 || at == rest.len() {
            proof {
                assert(split_limit(rest@, sep, left as nat) == seq![rest@]);
            }
            parts.push(rest);
            assert(parts@.map_values(|p: Vec<char>| p@) == before + seq![rest@]);
            break;
        }
        let head = slice_of(rest.as_slice(), 0, at);
        let tail = slice_of(rest.as_slice(), at + 1, rest.len());
        proof {
            assert(split_first(rest@, sep) == Some((head@, tail@)));
            assert(split_limit(rest@, sep, left as nat) == seq![head@] + split_limit(
                tail@,
                sep,
                (left - 1) as nat,
            ));
        }
        parts.push(head);
        assert(parts@.map_values(|p: Vec<char>| p@) == before + seq![head@]);
        rest = tail;
        left -= 1;
    }
    parts
}

// ---------------------------------------------------------------------------
// Decimal numerals
// ---------------------------------------------------------------------------

/// Whether `c` is one of `0` to `9`.
pub open spec fn is_digit(c: char) -> bool {
    '0' <= c <= '9'
}

/// The value of the digit `c`.
pub open spec fn digit_value(c: char) -> nat
    recommends
        is_digit(c),
{
    (c as u32 - '0' as u32) as nat
}

/// The digit that stands for `d`.
pub open spec fn digit_char(d: nat) -> char
    recommends
        d < 10,
{
    if d == 0 {
        '0'
    } else if d == 1 {
        '1'
    } else if d == 2 {
        '2'
    } else if d == 3 {
        '3'
    } else if d == 4 {
        '4'
    } else if d == 5 {
        '5'
    } else if d == 6 {
        '6'
    } else if d == 7 {
        '7'
    } else if d == 8 {
        '8'
    } else {
        '9'
    }
}

/// Whether every character of `s` is a digit.
pub open spec fn all_digits(s: Seq<char>) -> bool {
    forall|i: int| 0 <= i < s.len() ==> is_digit(#[trigger] s[i])
}

/// The number that a run of digits denotes in base ten (0 for the empty run).
pub open spec fn decimal_value(s: Seq<char>) -> nat
    decreases s.len(),
{
    if s.len() == 0 {
        0
    } else {
        10 * decimal_value(s.drop_last()) + digit_value(s.last())
    }
}

/// The base-ten numeral of `n`, without leading zeros.
pub open spec fn decimal(n: nat) -> Seq<char>
    decreases n,
{
    if n < 10 {
        seq![digit_char(n)]
    } else {
        decimal(n / 10).push(digit_char(n % 10))
    }
}

/// Number of digits at the front of `s`, counted from `from`.
pub open spec fn leading_digits(s: Seq<char>, from: int) -> int
    decreases s.len() - from,
{
    if 0 <= from < s.len() && is_digit(s[from]) {
        1 + leading_digits(s, from + 1)
    } else {
        0
    }
}

/// The digit for `d` is a digit and has the value `d`.
pub proof fn lemma_digit_char(d: nat)
    requires
        d < 10,
    ensures
        is_digit(digit_char(d)),
        digit_value(digit_char(d)) == d,
{
}

/// A numeral is made of digits, is not empty, and denotes its number.
pub proof fn lemma_decimal_value(n: nat)
    ensures
        decimal(n).len() >= 1,
        all_digits(decimal(n)),
        decimal_value(decimal(n)) == n,
    decreases n,
{
    if n < 10 {
        let s = decimal(n);
        lemma_digit_char(n);
        assert(s.drop_last().len() == 0);
        assert(decimal_value(s.drop_last()) == 0);
    } else {
        lemma_decimal_value(n / 10);
        lemma_digit_char(n % 10);
        let s = decimal(n);
        assert(s.drop_last() == decimal(n / 10));
        assert(s.last() == digit_char(n % 10));
    }
}

/// The digits at the front of `digits + rest` are `digits` when `rest` does
/// not go on with a digit.
pub proof fn lemma_leading_digits_of_concat(digits: Seq<char>, rest: Seq<char>)
    requires
        all_digits(digits),
        rest.len() == 0 || !is_digit(rest[0]),
    ensures
        leading_digits(digits + rest, 0) == digits.len(),
{
    lemma_leading_digits_step(digits, rest, 0);
}

/// Counted from any position within `digits`, the digits at the front of
/// `digits + rest` are the rest of `digits`.
proof fn lemma_leading_digits_step(digits: Seq<char>, rest: Seq<char>, from: int)
    requires
        all_digits(digits),
        rest.len() == 0 || !is_digit(rest[0]),
        0 <= from <= digits.len(),
    ensures
        leading_digits(digits + rest, from) == digits.len() - from,
    decreases digits.len() - from,
{
    let s = digits + rest;
    if from < digits.len() {
        assert(s[from] == digits[from]);
        lemma_leading_digits_step(digits, rest, from + 1);
    } else if rest.len() > 0 {
        assert(s[from] == rest[0]);
    }
}

/// Appends the numeral of `n` to `out`.
pub fn push_decimal(out: &mut Vec<char>, n: u64)
    ensures
        final(out)@ == old(out)@ + decimal(n as nat),
    decreases n,
{
    if n >= 10 {
        push_decimal(out, n / 10);
    }
    let d: u64 = n % 10;
    let c: char = if d == 0 {
        '0'
    } else if d == 1 {
        '1'
    } else if d == 2 {
        '2'
    } else if d == 3 {
        '3'
    } else if d == 4 {
        '4'
    } else if d == 5 {
        '5'
    } else if d == 6 {
        '6'
    } else if d == 7 {
        '7'
    } else if d == 8 {
        '8'
    } else {
        '9'
    };
    out.push(c);
    proof {
        if n >= 10 {
            assert(final(out)@ == old(out)@ + decimal((n / 10) as nat).push(c));
        } else {
            assert(final(out)@ == old(out)@ + seq![c]);
        }
    }
}

/// The number that a text denotes in base ten: the text must be made of
/// digits, and the number must fit in 64 bits.
pub open spec fn decimal_number(s: Seq<char>) -> Option<u64> {
    if all_digits(s) && decimal_value(s) <= u64::MAX {
        Some(decimal_value(s) as u64)
    } else {
        None
    }
}

/// Reads a number written in base ten.
pub fn parse_decimal(v: &[char]) -> (r: Option<u64>)
    ensures
        r == decimal_number(v@),
{
    let mut acc: u64 = 0;
    let mut i: usize = 0;
    while i < v.len()
        invariant
            i <= v.len(),
            all_digits(v@.take(i as int)),
            acc == decimal_value(v@.take(i as int)),
        decreases v.len() - i,
    {
        if !('0' <= v[i] && v[i] <= '9') {
            return None;
        }
        proof {
            assert forall|k: int| 0 <= k < i + 1 implies is_digit(#[trigger] v@.take(i + 1)[k]) by {
                if k < i {
                    assert(v@.take(i + 1)[k] == v@.take(i as int)[k]);
                }
            }
        }
        let d: u64 = (v[i] as u32 - '0' as u32) as u64;
        proof {
            let next = v@.take(i + 1);
            assert(next.drop_last() == v@.take(i as int));
            assert(next.last() == v@[i as int]);
            assert(decimal_value(next) == 10 * acc + d);
            lemma_decimal_value_grows(v@, i + 1);
        }
        if acc > (u64::MAX - d) / 10 {
            return None;
        }
        acc = acc * 10 + d;
        i += 1;
    }
    assert(v@.take(v.len() as int) == v@);
    Some(acc)
}

/// The value of a prefix of a digit run is at most the value of the run.
pub proof fn lemma_decimal_value_grows(s: Seq<char>, upto: int)
    requires
        0 <= upto <= s.len(),
    ensures
        decimal_value(s.take(upto)) <= decimal_value(s),
    decreases s.len() - upto,
{
    if upto < s.len() {
        let next = s.take(upto + 1);
        assert(next.drop_last() == s.take(upto));
        lemma_decimal_value_grows(s, upto + 1);
    } else {
        assert(s.take(upto) == s);
    }
}

// ---------------------------------------------------------------------------
// Searching
// ---------------------------------------------------------------------------

/// Whether `needle` occurs in `hay` at position `at`.
pub open spec fn occurs_at(hay: Seq<char>, needle: Seq<char>, at: int) -> bool {
    0 <= at && at + needle.len() <= hay.len() && hay.subrange(at, at + needle.len()) == needle
}

/// Whether `needle` occurs somewhere in `hay`.
pub open spec fn contains_text(hay: Seq<char>, needle: Seq<char>) -> bool {
    exists|at: int| occurs_at(hay, needle, at)
}

/// Whether `needle` occurs in `v` at position `at`.
pub fn matches_at(v: &[char], needle: &[char], at: usize) -> (r: bool)
    ensures
        r == occurs_at(v@, needle@, at as int),
{
    if at > v.len() || needle.len() > v.len() - at {
        return false;
    }
    let mut k: usize = 0;
    while k < needle.len()
        invariant
            k <= needle.len(),
            at + needle.len() <= v.len(),
            forall|j: int| 0 <= j < k ==> v@[at + j] == needle@[j],
        decreases needle.len() - k,
    {
        if v[at + k] != needle[k] {
            assert(v@.subrange(at as int, at + needle@.len())[k as int] != needle@[k as int]);
            return false;
        }
        k += 1;
    }
    assert(v@.subrange(at as int, at + needle@.len()) =~= needle@);
    true
}

/// Whether the text `needle` occurs somewhere in `v`.
pub fn contains_str(v: &[char], needle: &str) -> (r: bool)
    ensures
        r == contains_text(v@, needle@),
{
    let n = chars_of(needle);
    if n.len() > v.len() {
        return false;
    }
    if n.len() == 0 {
        assert(v@.subrange(0, 0) =~= n@);
        assert(occurs_at(v@, needle@, 0));
        return true;
    }
    let last: usize = v.len() - n.len();
    let mut at: usize = 0;
    while at <= last
        invariant
            0 < n.len() <= v.len(),
            last == v.len() - n.len(),
            at <= last + 1,
            n@ == needle@,
            forall|j: int| 0 <= j < at ==> !occurs_at(v@, needle@, j),
        decreases last + 1 - at,
    {
        if matches_at(v, n.as_slice(), at) {
            assert(occurs_at(v@, needle@, at as int));
            return true;
        }
        at += 1;
    }
    false
}

/// Position of the first occurrence of `needle` in `hay` at or after `from`;
/// -1 where there is none.
pub open spec fn find_text(hay: Seq<char>, needle: Seq<char>, from: int) -> int
    decreases hay.len() - from + 1,
{
    if from < 0 || from + needle.len() > hay.len() {
        -1
    } else if occurs_at(hay, needle, from) {
        from
    } else {
        find_text(hay, needle, from + 1)
    }
}

/// Position of the first occurrence of the text `needle` in `v`.
pub fn find_str(v: &[char], needle: &str) -> (r: Option<usize>)
    ensures
        match r {
            Some(at) => find_text(v@, needle@, 0) == at && at + needle@.len() <= v@.len(),
            None => find_text(v@, needle@, 0) == -1,
        },
{
    let n = chars_of(needle);
    if n.len() > v.len() {
        return None;
    }
    let last: usize = v.len() - n.len();
    let mut at: usize = 0;
    while at <= last
        invariant
            n.len() <= v.len(),
            last == v.len() - n.len(),
            at <= last,
            n@ == needle@,
            find_text(v@, needle@, 0) == find_text(v@, needle@, at as int),
        decreases last - at,
    {
        if matches_at(v, n.as_slice(), at) {
            return Some(at);
        }
        if at == last {
            assert(find_text(v@, needle@, at + 1) == -1);
            return None;
        }
        at += 1;
    }
    None
}

// ---------------------------------------------------------------------------
// Stripping one character
// ---------------------------------------------------------------------------

/// Number of times `c` stands at the front of `s`, counted from `from`.
pub open spec fn leading_run(s: Seq<char>, c: char, from: int) -> int
    decreases s.len() - from,
{
    if 0 <= from < s.len() && s[from] == c {
        1 + leading_run(s, c, from + 1)
    } else {
        0
    }
}

/// Number of times `c` stands at the back of `s[..upto]`.
pub open spec fn trailing_run(s: Seq<char>, c: char, upto: int) -> int
    decreases upto,
{
    if 0 < upto <= s.len() && s[upto - 1] == c {
        1 + trailing_run(s, c, upto - 1)
    } else {
        0
    }
}

/// `s` without the `c`s at its front and at its back.
pub open spec fn strip_char(s: Seq<char>, c: char) -> Seq<char> {
    let front = s.skip(leading_run(s, c, 0));
    front.take(front.len() - trailing_run(front, c, front.len() as int))
}

/// Removes the `c`s at the front and at the back of `v`.
pub fn stripped_of(v: &[char], c: char) -> (r: Vec<char>)
    ensures
        r@ == strip_char(v@, c),
{
    let mut start: usize = 0;
    while start < v.len() && v[start] == c
        invariant
            start <= v.len(),
            leading_run(v@, c, 0) == start + leading_run(v@, c, start as int),
        decreases v.len() - start,
    {
        start += 1;
    }
    let ghost front = v@.skip(start as int);
    let mut end: usize = v.len();
    while end > start && v[end - 1] == c
        invariant
            start <= end <= v.len(),
            front == v@.skip(start as int),
            trailing_run(front, c, front.len() as int) == (v.len() - end) + trailing_run(
                front,
                c,
                end - start,
            ),
        decreases end,
    {
        assert(front[end - 1 - start] == v@[end - 1]);
        end -= 1;
    }
    proof {
        if end > start {
            assert(front[end - 1 - start] == v@[end - 1]);
        }
        assert(trailing_run(front, c, end - start) == 0);
        assert(front.take(end - start) == v@.subrange(start as int, end as int));
    }
    slice_of(v, start, end)
}

// ---------------------------------------------------------------------------
// Order
// ---------------------------------------------------------------------------

/// Whether `a` comes before `b`, or is `b`, in the order of the dictionary:
/// texts are compared character by character from position `from`, and a
/// text comes before every text it is a beginning of.
pub open spec fn le_from(a: Seq<char>, b: Seq<char>, from: int) -> bool
    decreases a.len() - from,
{
    if from < 0 || from >= a.len() {
        true
    } else if from >= b.len() {
        false
    } else if a[from] != b[from] {
        a[from] < b[from]
    } else {
        le_from(a, b, from + 1)
    }
}

/// Whether `a` comes before `b`, or is `b`, in the order of the dictionary.
pub open spec fn text_le(a: Seq<char>, b: Seq<char>) -> bool {
    le_from(a, b, 0)
}

/// Of two texts that agree up to `from`, one comes before the other or is
/// the other.
pub proof fn lemma_le_total(a: Seq<char>, b: Seq<char>, from: int)
    requires
        0 <= from,
    ensures
        le_from(a, b, from) || le_from(b, a, from),
    decreases a.len() - from,
{
    if from < a.len() && from < b.len() {
        if a[from] == b[from] {
            lemma_le_total(a, b, from + 1);
        }
    }
}

/// The order passes on: what is not after `b`, which is not after `c`, is
/// not after `c`.
pub proof fn lemma_le_transitive(a: Seq<char>, b: Seq<char>, c: Seq<char>, from: int)
    requires
        0 <= from,
        le_from(a, b, from),
        le_from(b, c, from),
    ensures
        le_from(a, c, from),
    decreases a.len() - from,
{
    if from < a.len() {
        if a[from] == b[from] && b[from] == c[from] {
            lemma_le_transitive(a, b, c, from + 1);
        }
    }
}

/// Whether `a` comes before `b`, or is `b`, in the order of the dictionary.
pub fn is_text_le(a: &[char], b: &[char]) -> (r: bool)
    ensures
        r == text_le(a@, b@),
{
    let mut i: usize = 0;
    while i < a.len()
        invariant
            i <= a.len(),
            text_le(a@, b@) == le_from(a@, b@, i as int),
        decreases a.len() - i,
    {
        if i >= b.len() {
            return false;
        }
        if a[i] != b[i] {
            return a[i] < b[i];
        }
        i += 1;
    }
    true
}

// ---------------------------------------------------------------------------
// Lines
// ---------------------------------------------------------------------------

/// The texts that a list of character vectors holds.
pub open spec fn texts_of(list: Seq<Vec<char>>) -> Seq<Seq<char>> {
    list.map_values(|t: Vec<char>| t@)
}

/// The first `n` of `lines` with a line feed between them.
pub open spec fn joined(lines: Seq<Seq<char>>, n: nat) -> Seq<char>
    decreases n,
{
    if n == 0 || n > lines.len() {
        Seq::empty()
    } else if n == 1 {
        lines[0]
    } else {
        joined(lines, (n - 1) as nat) + "\n"@ + lines[n - 1]
    }
}

/// All of `lines` with a line feed between them.
pub open spec fn join_lines(lines: Seq<Seq<char>>) -> Seq<char> {
    joined(lines, lines.len())
}

/// A line without the carriage return that ends it, if one does.
pub open spec fn strip_cr(line: Seq<char>) -> Seq<char> {
    if line.len() > 0 && line.last() == '\r' {
        line.drop_last()
    } else {
        line
    }
}

/// The lines of `s` from position `from` on. A line ends at a line feed; a
/// carriage return before the line feed belongs to the line ending. What
/// follows the last line feed is a line unless it is empty.
pub open spec fn lines_from(s: Seq<char>, from: int) -> Seq<Seq<char>>
    decreases s.len() - from,
{
    let end = find_from(s, '\n', from);
    if from < 0 || from >= s.len() || end < from {
        Seq::empty()
    } else if end < s.len() {
        seq![strip_cr(s.subrange(from, end))] + lines_from(s, end + 1)
    } else {
        seq![s.subrange(from, end)]
    }
}

/// The lines of `s`.
pub open spec fn text_lines(s: Seq<char>) -> Seq<Seq<char>> {
    lines_from(s, 0)
}

/// `s` without every leading repetition of `prefix`.
pub open spec fn strip_all_prefix(s: Seq<char>, prefix: Seq<char>) -> Seq<char>
    decreases s.len(),
{
    if prefix.len() > 0 && prefix.is_prefix_of(s) {
        strip_all_prefix(s.skip(prefix.len() as int), prefix)
    } else {
        s
    }
}

/// Appends a text to a list of texts.
pub fn push_text(list: &mut Vec<Vec<char>>, text: &str)
    ensures
        texts_of(final(list)@) == texts_of(old(list)@).push(text@),
{
    list.push(chars_of(text));
    assert(texts_of(list@) =~= texts_of(old(list)@).push(text@));
}

/// Appends a text given as characters to a list of texts.
pub fn push_chars(list: &mut Vec<Vec<char>>, text: Vec<char>)
    ensures
        texts_of(final(list)@) == texts_of(old(list)@).push(text@),
{
    list.push(text);
    assert(texts_of(list@) =~= texts_of(old(list)@).push(text@));
}

/// Appends an empty text to a list of texts.
pub fn push_blank(list: &mut Vec<Vec<char>>)
    ensures
        texts_of(final(list)@) == texts_of(old(list)@).push(Seq::<char>::empty()),
{
    push_chars(list, Vec::new());
}

/// Joins texts with a line feed between them.
pub fn join_with_newlines(lines: &Vec<Vec<char>>) -> (r: String)
    ensures
        r@ == join_lines(texts_of(lines@)),
{
    let mut out: Vec<char> = Vec::new();
    let mut i: usize = 0;
    while i < lines.len()
        invariant
            i <= lines@.len(),
            out@ == joined(texts_of(lines@), i as nat),
        decreases lines@.len() - i,
    {
        if i > 0 {
            push_str(&mut out, "\n");
        }
        push_all(&mut out, lines[i].as_slice());
        i += 1;
    }
    string_of(out.as_slice())
}

/// Position of the first `sep` in `v` at or after `from`, or `v.len()`.
pub fn find_char_from(v: &[char], sep: char, from: usize) -> (i: usize)
    ensures
        i == find_from(v@, sep, from as int),
        from <= v.len() ==> from <= i,
        i <= v.len(),
{
    if from >= v.len() {
        return v.len();
    }
    let mut i: usize = from;
    while i < v.len() && v[i] != sep
        invariant
            from <= i <= v.len(),
            find_from(v@, sep, from as int) == find_from(v@, sep, i as int),
        decreases v.len() - i,
    {
        i += 1;
    }
    i
}

/// Splits a text into its lines.
pub fn split_lines(v: &[char]) -> (lines: Vec<Vec<char>>)
    ensures
        texts_of(lines@) == text_lines(v@),
{
    let mut lines: Vec<Vec<char>> = Vec::new();
    let mut from: usize = 0;
    assert(texts_of(lines@) =~= Seq::<Seq<char>>::empty());
    while from < v.len()
        invariant
            from <= v.len(),
            text_lines(v@) == texts_of(lines@) + lines_from(v@, from as int),
        decreases v.len() - from,
    {
        let end = find_char_from(v, '\n', from);
        let ghost before = texts_of(lines@);
        if end < v.len() {
            let mut line_end = end;
            if line_end > from && v[line_end - 1] == '\r' {
                line_end -= 1;
            }
            let line = slice_of(v, from, line_end);
            proof {
                let raw = v@.subrange(from as int, end as int);
                if raw.len() > 0 {
                    assert(raw.last() == v@[end - 1]);
                }
                assert(line@ == strip_cr(raw));
            }
            push_chars(&mut lines, line);
            from = end + 1;
        } else {
            let line = slice_of(v, from, end);
            push_chars(&mut lines, line);
            from = end;
            assert(lines_from(v@, v@.len() as int) == Seq::<Seq<char>>::empty());
        }
    }
    assert(lines_from(v@, v@.len() as int) == Seq::<Seq<char>>::empty());
    lines
}

/// Removes every leading repetition of `prefix` from `v`.
pub fn without_prefixes(v: &[char], prefix: &[char]) -> (r: Vec<char>)
    ensures
        r@ == strip_all_prefix(v@, prefix@),
{
    let mut from: usize = 0;
    if prefix.len() == 0 {
        return slice_of(v, 0, v.len());
    }
    assert(v@.skip(0) == v@);
    loop
        invariant_except_break
            from <= v.len(),
            prefix@.len() > 0,
            strip_all_prefix(v@, prefix@) == strip_all_prefix(v@.skip(from as int), prefix@),
        ensures
            from <= v.len(),
            strip_all_prefix(v@, prefix@) == v@.skip(from as int),
        decreases v.len() - from,
    {
        let rest = slice_of(v, from, v.len());
        assert(rest@ == v@.skip(from as int));
        if !starts_with(rest.as_slice(), prefix) {
            break;
        }
        assert(v@.skip(from as int).skip(prefix@.len() as int) == v@.skip(from + prefix@.len()));
        from += prefix.len();
    }
    slice_of(v, from, v.len())
}

} // verus!
