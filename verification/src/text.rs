//! Character-level helpers shared by the parsers and the message builders.
//!
//! Text is scanned as a sequence of characters with explicit index ranges, so
//! that every scanner can be stated as a small recursive definition over
//! `Seq<char>` and every executable scanner proved equal to it.

use vstd::prelude::*;
use vstd::std_specs::iter::IteratorSpec;

verus! {

/// `String::push` appends one character to the end of the string.
pub assume_specification[ String::push ](s: &mut String, c: char)
    ensures
        final(s)@ == old(s)@.push(c),
;

/// Whether `c` is white space: the Unicode `White_Space` code points.
pub open spec fn is_space(c: char) -> bool {
    let u = c as u32;
    ||| 0x09 <= u <= 0x0D
    ||| u == 0x20
    ||| u == 0x85
    ||| u == 0xA0
    ||| u == 0x1680
    ||| 0x2000 <= u <= 0x200A
    ||| u == 0x2028
    ||| u == 0x2029
    ||| u == 0x202F
    ||| u == 0x205F
    ||| u == 0x3000
}

/// The first index in `[from, to)` that holds `c`, or `to` when none does.
pub open spec fn find_char(s: Seq<char>, c: char, from: int, to: int) -> int
    decreases to - from,
{
    if from >= to {
        to
    } else if s[from] == c {
        from
    } else {
        find_char(s, c, from + 1, to)
    }
}

/// `find_char` gives the first occurrence: it stays within the range, no
/// index before it holds `c`, and unless it is `to`, it holds `c`.
pub proof fn lemma_find_char_bounds(s: Seq<char>, c: char, from: int, to: int)
    requires
        from <= to,
    ensures
        from <= find_char(s, c, from, to) <= to,
        forall|k: int| from <= k < find_char(s, c, from, to) ==> s[k] != c,
        find_char(s, c, from, to) < to ==> s[find_char(s, c, from, to)] == c,
    decreases to - from,
{
    if from < to && s[from] != c {
        lemma_find_char_bounds(s, c, from + 1, to);
    }
}

/// `skip_spaces` skips exactly the leading white space: it stays within the
/// range, every index before it holds white space, and unless it is `to`,
/// it holds none.
pub proof fn lemma_skip_spaces_bounds(s: Seq<char>, from: int, to: int)
    requires
        from <= to,
    ensures
        from <= skip_spaces(s, from, to) <= to,
        forall|k: int| from <= k < skip_spaces(s, from, to) ==> is_space(s[k]),
        skip_spaces(s, from, to) < to ==> !is_space(s[skip_spaces(s, from, to)]),
    decreases to - from,
{
    if from < to && is_space(s[from]) {
        lemma_skip_spaces_bounds(s, from + 1, to);
    }
}

/// `trim_end` cuts off exactly the trailing white space: it stays within
/// the range, every index from it on holds white space, and unless it is
/// `from`, the index before it holds none.
pub proof fn lemma_trim_end_bounds(s: Seq<char>, from: int, to: int)
    requires
        from <= to,
    ensures
        from <= trim_end(s, from, to) <= to,
        forall|k: int| trim_end(s, from, to) <= k < to ==> is_space(s[k]),
        from < trim_end(s, from, to) ==> !is_space(s[trim_end(s, from, to) - 1]),
    decreases to - from,
{
    if from < to && is_space(s[to - 1]) {
        lemma_trim_end_bounds(s, from, to - 1);
    }
}

/// `skip_visible` skips exactly one token: it stays within the range, no
/// index before it holds white space, and unless it is `to`, it holds some.
pub proof fn lemma_skip_visible_bounds(s: Seq<char>, from: int, to: int)
    requires
        from <= to,
    ensures
        from <= skip_visible(s, from, to) <= to,
        forall|k: int| from <= k < skip_visible(s, from, to) ==> !is_space(s[k]),
        skip_visible(s, from, to) < to ==> is_space(s[skip_visible(s, from, to)]),
    decreases to - from,
{
    if from < to && !is_space(s[from]) {
        lemma_skip_visible_bounds(s, from + 1, to);
    }
}

/// The first index in `[from, to)` that holds no white space, or `to`.
pub open spec fn skip_spaces(s: Seq<char>, from: int, to: int) -> int
    decreases to - from,
{
    if from >= to {
        to
    } else if !is_space(s[from]) {
        from
    } else {
        skip_spaces(s, from + 1, to)
    }
}

/// The first index in `[from, to)` that holds white space, or `to`.
pub open spec fn skip_visible(s: Seq<char>, from: int, to: int) -> int
    decreases to - from,
{
    if from >= to {
        to
    } else if is_space(s[from]) {
        from
    } else {
        skip_visible(s, from + 1, to)
    }
}

/// The end of `[from, to)` once trailing white space is cut off.
pub open spec fn trim_end(s: Seq<char>, from: int, to: int) -> int
    decreases to - from,
{
    if from >= to {
        from
    } else if !is_space(s[to - 1]) {
        to
    } else {
        trim_end(s, from, to - 1)
    }
}

/// Whether `s[from..to)` begins with `prefix`.
pub open spec fn has_prefix(s: Seq<char>, from: int, to: int, prefix: Seq<char>) -> bool {
    &&& from + prefix.len() <= to
    &&& s.subrange(from, from + prefix.len()) == prefix
}

/// Whether `pattern` occurs somewhere in `s`.
pub open spec fn occurs(s: Seq<char>, pattern: Seq<char>) -> bool {
    exists|i: int| 0 <= i && #[trigger] has_prefix(s, i, s.len() as int, pattern)
}

/// Whether `s` ends with `pattern`.
pub open spec fn has_suffix(s: Seq<char>, pattern: Seq<char>) -> bool {
    &&& pattern.len() <= s.len()
    &&& s.subrange(s.len() - pattern.len(), s.len() as int) == pattern
}

/// The first index in `[from, to)` that does not hold `c`, or `to`.
pub open spec fn skip_char(s: Seq<char>, c: char, from: int, to: int) -> int
    decreases to - from,
{
    if from >= to {
        to
    } else if s[from] != c {
        from
    } else {
        skip_char(s, c, from + 1, to)
    }
}

/// The last index in `[0, to)` that holds `c`, plus one; zero when none
/// does.
pub open spec fn after_last(s: Seq<char>, c: char, to: int) -> int
    decreases to,
{
    if to <= 0 {
        0
    } else if s[to - 1] == c {
        to
    } else {
        after_last(s, c, to - 1)
    }
}

/// The decimal digit `d` as a character.
pub open spec fn digit_char(d: int) -> char {
    ((48 + d) as u8) as char
}

/// `n` written with two decimal digits.
pub open spec fn two_digits(n: int) -> Seq<char> {
    seq![digit_char(n / 10), digit_char(n % 10)]
}

/// A time of day written as `HH:MM:SS`.
pub open spec fn clock_text(hours: int, minutes: int, seconds: int) -> Seq<char> {
    two_digits(hours) + seq![':'] + two_digits(minutes) + seq![':'] + two_digits(seconds)
}

/// Whether `c` is white space.
pub fn is_whitespace(c: char) -> (r: bool)
    ensures
        r == is_space(c),
{
    let u: u32 = c as u32;
    (0x09 <= u && u <= 0x0D) || u == 0x20 || u == 0x85 || u == 0xA0 || u == 0x1680 || (0x2000 <= u
        && u <= 0x200A) || u == 0x2028 || u == 0x2029 || u == 0x202F || u == 0x205F || u == 0x3000
}

/// The characters of `s`, in order.
pub fn chars_of(s: &str) -> (out: Vec<char>)
    ensures
        out@ == s@,
{
    broadcast use vstd::string::axiom_spec_iter;
    broadcast use vstd::string::next_postcondition;

    let mut out: Vec<char> = Vec::new();
    let mut it = s.chars();
    assert(it.remaining() == s@);
    loop
        invariant
            out@ + it.remaining() == s@,
            it.obeys_prophetic_iter_laws(),
            it.decrease() is Some,
        ensures
            out@ == s@,
        decreases it.decrease()->0,
    {
        let next = it.next();
        match next {
            Some(c) => {
                out.push(c);
                assert(out@ + it.remaining() =~= s@);
            },
            None => {
                assert(out@ =~= s@);
                break ;
            },
        }
    }
    out
}

/// The string whose characters are `chars[from..to)`.
pub fn string_of(chars: &Vec<char>, from: usize, to: usize) -> (out: String)
    requires
        from <= to <= chars@.len(),
    ensures
        out@ == chars@.subrange(from as int, to as int),
{
    let mut out = String::new();
    let mut i: usize = from;
    while i < to
        invariant
            from <= i <= to <= chars@.len(),
            out@ == chars@.subrange(from as int, i as int),
        decreases to - i,
    {
        out.push(chars[i]);
        i = i + 1;
        assert(out@ == chars@.subrange(from as int, i as int));
    }
    out
}

/// The first index in `[from, to)` that holds `c`, or `to` when none does.
pub fn find(chars: &Vec<char>, c: char, from: usize, to: usize) -> (r: usize)
    requires
        from <= to <= chars@.len(),
    ensures
        r == find_char(chars@, c, from as int, to as int),
        from <= r <= to,
{
    let mut i: usize = from;
    while i < to && chars[i] != c
        invariant
            from <= i <= to <= chars@.len(),
            find_char(chars@, c, from as int, to as int) == find_char(chars@, c, i as int, to as int),
        decreases to - i,
    {
        i = i + 1;
    }
    i
}

/// The first index in `[from, to)` that holds no white space, or `to`.
pub fn skip_whitespace(chars: &Vec<char>, from: usize, to: usize) -> (r: usize)
    requires
        from <= to <= chars@.len(),
    ensures
        r == skip_spaces(chars@, from as int, to as int),
        from <= r <= to,
{
    let mut i: usize = from;
    while i < to && is_whitespace(chars[i])
        invariant
            from <= i <= to <= chars@.len(),
            skip_spaces(chars@, from as int, to as int) == skip_spaces(chars@, i as int, to as int),
        decreases to - i,
    {
        i = i + 1;
    }
    i
}

/// The first index in `[from, to)` that holds white space, or `to`.
pub fn skip_token(chars: &Vec<char>, from: usize, to: usize) -> (r: usize)
    requires
        from <= to <= chars@.len(),
    ensures
        r == skip_visible(chars@, from as int, to as int),
        from <= r <= to,
{
    let mut i: usize = from;
    while i < to && !is_whitespace(chars[i])
        invariant
            from <= i <= to <= chars@.len(),
            skip_visible(chars@, from as int, to as int) == skip_visible(chars@, i as int, to as int),
        decreases to - i,
    {
        i = i + 1;
    }
    i
}

/// The end of `[from, to)` once trailing white space is cut off.
pub fn trim_trailing(chars: &Vec<char>, from: usize, to: usize) -> (r: usize)
    requires
        from <= to <= chars@.len(),
    ensures
        r == trim_end(chars@, from as int, to as int),
        from <= r <= to,
{
    let mut j: usize = to;
    while from < j && is_whitespace(chars[j - 1])
        invariant
            from <= j <= to <= chars@.len(),
            trim_end(chars@, from as int, to as int) == trim_end(chars@, from as int, j as int),
        decreases j - from,
    {
        j = j - 1;
    }
    j
}

/// Whether `chars[from..to)` begins with `prefix`.
pub fn starts_with(chars: &Vec<char>, from: usize, to: usize, prefix: &Vec<char>) -> (r: bool)
    requires
        from <= to <= chars@.len(),
    ensures
        r == has_prefix(chars@, from as int, to as int, prefix@),
{
    let n: usize = prefix.len();
    if to - from < n {
        return false;
    }
    let mut k: usize = 0;
    while k < n
        invariant
            from + n <= to <= chars@.len(),
            n == prefix@.len(),
            k <= n,
            chars@.subrange(from as int, from + k) == prefix@.subrange(0, k as int),
        decreases n - k,
    {
        if chars[from + k] != prefix[k] {
            proof {
                let a = chars@.subrange(from as int, from + n);
                assert(a[k as int] != prefix@[k as int]);
            }
            return false;
        }
        k = k + 1;
        assert(chars@.subrange(from as int, from + k) =~= prefix@.subrange(0, k as int)) by {
            let a = chars@.subrange(from as int, from + k);
            let b = chars@.subrange(from as int, from + k - 1);
            assert(forall|i: int| 0 <= i < k - 1 ==> a[i] == b[i]);
        }
    }
    assert(prefix@.subrange(0, n as int) == prefix@);
    true
}

/// Appends `n`, written with two decimal digits, to `out`.
pub fn push_two_digits(out: &mut String, n: u64)
    requires
        n < 100,
    ensures
        final(out)@ == old(out)@ + two_digits(n as int),
{
    let hi: u8 = (n / 10) as u8;
    let lo: u8 = (n % 10) as u8;
    out.push((48u8 + hi) as char);
    out.push((48u8 + lo) as char);
    assert(out@ =~= old(out)@ + two_digits(n as int));
}

/// The time of day `hours:minutes:seconds`, each written with two digits.
pub fn format_clock(hours: u64, minutes: u64, seconds: u64) -> (out: String)
    requires
        hours < 100,
        minutes < 100,
        seconds < 100,
    ensures
        out@ == clock_text(hours as int, minutes as int, seconds as int),
{
    let mut out = String::new();
    push_two_digits(&mut out, hours);
    out.push(':');
    push_two_digits(&mut out, minutes);
    out.push(':');
    push_two_digits(&mut out, seconds);
    assert(out@ =~= clock_text(hours as int, minutes as int, seconds as int));
    out
}

/// The first index in `[from, to)` that does not hold `c`, or `to`.
pub fn skip_leading(chars: &Vec<char>, c: char, from: usize, to: usize) -> (r: usize)
    requires
        from <= to <= chars@.len(),
    ensures
        r == skip_char(chars@, c, from as int, to as int),
        from <= r <= to,
{
    let mut i: usize = from;
    while i < to && chars[i] == c
        invariant
            from <= i <= to <= chars@.len(),
            skip_char(chars@, c, from as int, to as int) == skip_char(chars@, c, i as int, to as int),
        decreases to - i,
    {
        i = i + 1;
    }
    i
}

/// The index after the last `c` in `chars`; zero when there is none.
pub fn find_after_last(chars: &Vec<char>, c: char) -> (r: usize)
    ensures
        r == after_last(chars@, c, chars@.len() as int),
        r <= chars@.len(),
{
    let mut j: usize = chars.len();
    while 0 < j && chars[j - 1] != c
        invariant
            j <= chars@.len(),
            after_last(chars@, c, chars@.len() as int) == after_last(chars@, c, j as int),
        decreases j,
    {
        j = j - 1;
    }
    j
}

/// Whether `pattern` occurs somewhere in `chars`.
pub fn contains(chars: &Vec<char>, pattern: &Vec<char>) -> (r: bool)
    ensures
        r == occurs(chars@, pattern@),
{
    let n: usize = chars.len();
    let m: usize = pattern.len();
    if m > n {
        return false;
    }
    let last: usize = n - m;
    let mut i: usize = 0;
    while i < last
        invariant
            last == n - m,
            n == chars@.len(),
            m == pattern@.len(),
            i <= last,
            forall|k: int| 0 <= k < i ==> !has_prefix(chars@, k, n as int, pattern@),
        decreases last - i,
    {
        if starts_with(chars, i, n, pattern) {
            return true;
        }
        i = i + 1;
    }
    starts_with(chars, last, n, pattern)
}

/// Whether `chars` ends with `pattern`.
pub fn ends_with(chars: &Vec<char>, pattern: &Vec<char>) -> (r: bool)
    ensures
        r == has_suffix(chars@, pattern@),
{
    let n: usize = chars.len();
    let m: usize = pattern.len();
    if m > n {
        return false;
    }
    starts_with(chars, n - m, n, pattern)
}

} // verus!
