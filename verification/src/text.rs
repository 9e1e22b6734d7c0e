//! Character-level helpers shared by the other modules.
//!
//! Strings are handled as sequences of `char`: contracts speak of `Seq<char>`,
//! executable code works on `Vec<char>`.

use vstd::prelude::*;
use vstd::std_specs::iter::IteratorSpec;

verus! {

/// The characters of `s`, in order.
pub fn chars_of(s: &str) -> (out: Vec<char>)
    ensures
        out@ == s@,
{
    broadcast use vstd::string::group_string_axioms;

    let mut out: Vec<char> = Vec::new();
    let mut rest = s.chars();
    loop
        invariant
            rest.obeys_prophetic_iter_laws(),
            out@ + rest.remaining() == s@,
        ensures
            out@ == s@,
        decreases s@.len() - out@.len(),
    {
        match rest.next() {
            Some(c) => {
                out.push(c);
                assert(out@ + rest.remaining() =~= s@);
            },
            None => {
                assert(out@ + rest.remaining() =~= out@);
                break ;
            },
        }
    }
    out
}

/// `String::push` of std: the character is appended, and the characters
/// that were there stay as they are.
pub assume_specification[ String::push ](s: &mut String, c: char)
    ensures
        final(s)@ == old(s)@.push(c),
;

/// The string that holds the characters of `chars`, in order.
pub fn string_of(chars: &Vec<char>) -> (out: String)
    ensures
        out@ == chars@,
{
    let mut out = String::new();
    let mut i: usize = 0;
    while i < chars.len()
        invariant
            i <= chars.len(),
            out@ == chars@.subrange(0, i as int),
        decreases chars.len() - i,
    {
        out.push(chars[i]);
        i += 1;
        assert(out@ =~= chars@.subrange(0, i as int));
    }
    assert(chars@.subrange(0, chars.len() as int) =~= chars@);
    out
}

/// The text that `String::from_utf8_lossy` reads from bytes: their
/// characters where the bytes are UTF-8, with the replacement character for
/// what is not.
pub uninterp spec fn lossy(bytes: Seq<u8>) -> Seq<char>;

/// Calls `String::from_utf8_lossy` and takes the text as an owned string.
///
/// Trusted: the text is a function of the bytes alone, named [`lossy`].
#[verifier::external_body]
pub(crate) fn lossy_text(bytes: &Vec<u8>) -> (out: String)
    ensures
        out@ == lossy(bytes@),
{
    String::from_utf8_lossy(bytes).into_owned()
}

/// Appends every character of `tail` to `buf`.
pub fn extend_chars(buf: &mut Vec<char>, tail: &Vec<char>)
    ensures
        final(buf)@ == old(buf)@ + tail@,
{
    let mut i: usize = 0;
    while i < tail.len()
        invariant
            i <= tail.len(),
            buf@ == old(buf)@ + tail@.subrange(0, i as int),
        decreases tail.len() - i,
    {
        buf.push(tail[i]);
        i += 1;
    }
    assert(tail@.subrange(0, tail.len() as int) == tail@);
}

/// The characters of a string literal or slice, as an owned string.
pub fn owned(s: &str) -> (out: String)
    ensures
        out@ == s@,
{
    let chars = chars_of(s);
    string_of(&chars)
}

/// The character that shows one decimal digit.
pub open spec fn digit_char(d: nat) -> char
    recommends
        d < 10,
{
    if d == 0 {
        '0'
    } else if d == 1 {
        '1'
    } else if d == 2 {
        '2'
    } else if d == 3 {
        '3'
    } else if d == 4 {
        '4'
    } else if d == 5 {
        '5'
    } else if d == 6 {
        '6'
    } else if d == 7 {
        '7'
    } else if d == 8 {
        '8'
    } else {
        '9'
    }
}

/// The decimal numeral of `n`, without leading zeros.
pub open spec fn decimal(n: nat) -> Seq<char>
    decreases n,
{
    if n < 10 {
        seq![digit_char(n)]
    } else {
        decimal(n / 10).push(digit_char(n % 10))
    }
}

/// The numeral of `t` tenths, with one digit behind the point.
pub open spec fn tenths(t: nat) -> Seq<char> {
    decimal(t / 10) + seq!['.', digit_char(t % 10)]
}

/// The character that shows the digit `d`.
pub fn digit(d: u8) -> (c: char)
    requires
        d < 10,
    ensures
        c == digit_char(d as nat),
{
    if d == 0 {
        '0'
    } else if d == 1 {
        '1'
    } else if d == 2 {
        '2'
    } else if d == 3 {
        '3'
    } else if d == 4 {
        '4'
    } else if d == 5 {
        '5'
    } else if d == 6 {
        '6'
    } else if d == 7 {
        '7'
    } else if d == 8 {
        '8'
    } else {
        '9'
    }
}

/// Appends the decimal numeral of `n` to `buf`.
pub fn push_decimal(buf: &mut Vec<char>, n: u128)
    ensures
        final(buf)@ == old(buf)@ + decimal(n as nat),
    decreases n,
{
    if n >= 10 {
        push_decimal(buf, n / 10);
    }
    let d: u8 = (n % 10) as u8;
    buf.push(digit(d));
    assert(final(buf)@ =~= old(buf)@ + decimal(n as nat));
}

/// Appends the numeral of `t` tenths, with one digit behind the point.
pub fn push_tenths(buf: &mut Vec<char>, t: u128)
    ensures
        final(buf)@ == old(buf)@ + tenths(t as nat),
{
    push_decimal(buf, t / 10);
    buf.push('.');
    let d: u8 = (t % 10) as u8;
    buf.push(digit(d));
    assert(final(buf)@ =~= old(buf)@ + tenths(t as nat));
}

/// `num / den`, rounded to the nearest whole number, a tie to the even one.
pub open spec fn rounded_quotient(num: nat, den: nat) -> nat
    recommends
        den > 0,
{
    let q = num / den;
    let r = num % den;
    if 2 * r > den || (2 * r == den && q % 2 == 1) {
        q + 1
    } else {
        q
    }
}

/// `num / den`, rounded to the nearest whole number, a tie to the even one.
pub fn round_div(num: u128, den: u64) -> (out: u128)
    requires
        den > 0,
        num < 0x8000_0000_0000_0000_0000_0000_0000_0000,
    ensures
        out == rounded_quotient(num as nat, den as nat),
{
    let d: u128 = den as u128;
    let q: u128 = num / d;
    let r: u128 = num % d;
    let up: bool = 2 * r > d || (2 * r == d && q % 2 == 1);
    if up {
        q + 1
    } else {
        q
    }
}

/// Whether `c` is white space: a character with Unicode's property
/// `White_Space`.
pub open spec fn is_white_space(c: char) -> bool {
    let u = c as u32;
    (0x09 <= u <= 0x0D) || u == 0x20 || u == 0x85 || u == 0xA0 || u == 0x1680 || (0x2000 <= u
        <= 0x200A) || u == 0x2028 || u == 0x2029 || u == 0x202F || u == 0x205F || u == 0x3000
}

/// Whether `c` is white space.
pub fn white_space(c: char) -> (b: bool)
    ensures
        b == is_white_space(c),
{
    let u: u32 = c as u32;
    (0x09 <= u && u <= 0x0D) || u == 0x20 || u == 0x85 || u == 0xA0 || u == 0x1680 || (0x2000 <= u
        && u <= 0x200A) || u == 0x2028 || u == 0x2029 || u == 0x202F || u == 0x205F || u
        == 0x3000
}

/// `s` without the white space at its start.
pub open spec fn trim_start(s: Seq<char>) -> Seq<char>
    decreases s.len(),
{
    if s.len() > 0 && is_white_space(s.first()) {
        trim_start(s.drop_first())
    } else {
        s
    }
}

/// `s` without the white space at its end.
pub open spec fn trim_end(s: Seq<char>) -> Seq<char>
    decreases s.len(),
{
    if s.len() > 0 && is_white_space(s.last()) {
        trim_end(s.drop_last())
    } else {
        s
    }
}

/// `s` without the white space at its start and at its end.
pub open spec fn trim(s: Seq<char>) -> Seq<char> {
    trim_end(trim_start(s))
}

/// The characters of `s` from `from` up to `to`.
pub fn slice(s: &Vec<char>, from: usize, to: usize) -> (out: Vec<char>)
    requires
        from <= to <= s.len(),
    ensures
        out@ == s@.subrange(from as int, to as int),
{
    let mut out: Vec<char> = Vec::new();
    let mut i: usize = from;
    while i < to
        invariant
            from <= i <= to <= s.len(),
            out@ == s@.subrange(from as int, i as int),
        decreases to - i,
    {
        out.push(s[i]);
        i += 1;
        assert(out@ =~= s@.subrange(from as int, i as int));
    }
    out
}

/// `s` without the white space at its start and at its end.
pub fn trimmed(s: &Vec<char>) -> (out: Vec<char>)
    ensures
        out@ == trim(s@),
{
    let mut from: usize = 0;
    assert(s@.subrange(0, s.len() as int) =~= s@);
    while from < s.len() && white_space(s[from])
        invariant
            from <= s.len(),
            trim_start(s@) == trim_start(s@.subrange(from as int, s.len() as int)),
        decreases s.len() - from,
    {
        proof {
            let rest = s@.subrange(from as int, s.len() as int);
            assert(rest.drop_first() =~= s@.subrange(from + 1, s.len() as int));
        }
        from += 1;
    }
    let mut to: usize = s.len();
    while to > from && white_space(s[to - 1])
        invariant
            from <= to <= s.len(),
            trim_end(s@.subrange(from as int, s.len() as int)) == trim_end(
                s@.subrange(from as int, to as int),
            ),
        decreases to - from,
    {
        proof {
            let rest = s@.subrange(from as int, to as int);
            assert(rest.drop_last() =~= s@.subrange(from as int, to - 1));
        }
        to -= 1;
    }
    proof {
        let whole = s@.subrange(from as int, s.len() as int);
        assert(trim_start(s@) == whole) by {
            if whole.len() > 0 {
                assert(whole.first() == s@[from as int]);
            }
        }
        let kept = s@.subrange(from as int, to as int);
        assert(trim_end(kept) == kept) by {
            if kept.len() > 0 {
                assert(kept.last() == s@[to - 1]);
            }
        }
    }
    slice(s, from, to)
}

/// Whether `needle` stands in `hay` at position `at`.
pub open spec fn occurs_at(hay: Seq<char>, needle: Seq<char>, at: int) -> bool {
    0 <= at && at + needle.len() <= hay.len() && hay.subrange(at, at + needle.len()) == needle
}

/// Whether `needle` stands somewhere in `hay`.
pub open spec fn contains(hay: Seq<char>, needle: Seq<char>) -> bool {
    exists|at: int| occurs_at(hay, needle, at)
}

/// Whether `needle` stands in `hay` at position `at`.
pub fn starts_at(hay: &Vec<char>, needle: &Vec<char>, at: usize) -> (b: bool)
    ensures
        b == occurs_at(hay@, needle@, at as int),
{
    if needle.len() > hay.len() || at > hay.len() - needle.len() {
        return false;
    }
    let mut k: usize = 0;
    while k < needle.len()
        invariant
            k <= needle.len(),
            at + needle.len() <= hay.len(),
            forall|j: int| 0 <= j < k ==> hay@[at + j] == needle@[j],
        decreases needle.len() - k,
    {
        if hay[at + k] != needle[k] {
            proof {
                let part = hay@.subrange(at as int, at + needle.len());
                assert(part[k as int] == hay@[at + k]);
            }
            return false;
        }
        k += 1;
    }
    assert(hay@.subrange(at as int, at + needle.len()) =~= needle@);
    true
}

/// The first position at which `needle` stands in `hay`, if there is one.
pub fn find(hay: &Vec<char>, needle: &Vec<char>) -> (out: Option<usize>)
    ensures
        out is Some <==> contains(hay@, needle@),
        out matches Some(at) ==> occurs_at(hay@, needle@, at as int) && forall|j: int|
            0 <= j < at ==> !occurs_at(hay@, needle@, j),
{
    let mut at: usize = 0;
    while at < hay.len()
        invariant
            at <= hay.len(),
            forall|j: int| 0 <= j < at ==> !occurs_at(hay@, needle@, j),
        decreases hay.len() - at,
    {
        if starts_at(hay, needle, at) {
            return Some(at);
        }
        at += 1;
    }
    if starts_at(hay, needle, at) {
        Some(at)
    } else {
        None
    }
}

/// The position of the first `c` in `s`; the length of `s` where there is
/// none.
pub open spec fn first_index(s: Seq<char>, c: char) -> int
    decreases s.len(),
{
    if s.len() == 0 || s.first() == c {
        0
    } else {
        1 + first_index(s.drop_first(), c)
    }
}

/// The first `c` is where no position before has one.
pub proof fn lemma_first_index(s: Seq<char>, c: char, at: int)
    requires
        0 <= at <= s.len(),
        forall|k: int| 0 <= k < at ==> s[k] != c,
        at < s.len() ==> s[at] == c,
    ensures
        first_index(s, c) == at,
    decreases s.len(),
{
    if s.len() > 0 && at > 0 {
        assert(s.first() == s[0]);
        let rest = s.drop_first();
        assert forall|k: int| 0 <= k < at - 1 implies rest[k] != c by {
            assert(rest[k] == s[k + 1]);
        }
        lemma_first_index(rest, c, at - 1);
    }
}

/// The first line of a text: what stands before the first newline, without
/// the carriage return that may stand directly before that newline.
pub open spec fn first_line(s: Seq<char>) -> Seq<char> {
    let end = first_index(s, '\n');
    let line = s.subrange(0, end);
    if end < s.len() && line.len() > 0 && line.last() == '\r' {
        line.drop_last()
    } else {
        line
    }
}

/// What follows the first line of a text.
pub open spec fn after_first_line(s: Seq<char>) -> Seq<char> {
    let end = first_index(s, '\n');
    if end < s.len() {
        s.subrange(end + 1, s.len() as int)
    } else {
        Seq::empty()
    }
}

/// The first of the lines of `s` that holds `marker`.
pub open spec fn first_line_with(s: Seq<char>, marker: Seq<char>) -> Option<Seq<char>>
    decreases s.len(),
{
    if s.len() == 0 {
        None
    } else if contains(first_line(s), marker) {
        Some(first_line(s))
    } else if 0 <= first_index(s, '\n') < s.len() {
        first_line_with(after_first_line(s), marker)
    } else {
        None
    }
}

/// `s` without any occurrence of `pattern`, read from left to right.
pub open spec fn remove_all(s: Seq<char>, pattern: Seq<char>) -> Seq<char>
    decreases s.len(),
{
    if pattern.len() == 0 || s.len() < pattern.len() {
        s
    } else if occurs_at(s, pattern, 0) {
        remove_all(s.subrange(pattern.len() as int, s.len() as int), pattern)
    } else {
        seq![s.first()] + remove_all(s.drop_first(), pattern)
    }
}

/// The end of the line that starts at `from`: the position of the next
/// newline, or the length of `s`.
pub fn line_end(s: &Vec<char>, from: usize) -> (end: usize)
    requires
        from <= s.len(),
    ensures
        from <= end <= s.len(),
        end - from == first_index(s@.subrange(from as int, s.len() as int), '\n'),
{
    let mut end: usize = from;
    while end < s.len() && s[end] != '\n'
        invariant
            from <= end <= s.len(),
            forall|k: int| from <= k < end ==> s@[k] != '\n',
        decreases s.len() - end,
    {
        end += 1;
    }
    proof {
        let rest = s@.subrange(from as int, s.len() as int);
        assert forall|k: int| 0 <= k < end - from implies rest[k] != '\n' by {
            assert(rest[k] == s@[from + k]);
        }
        lemma_first_index(rest, '\n', end - from);
    }
    end
}

/// The line that starts at `from` and ends before `end`.
pub fn line_at(s: &Vec<char>, from: usize, end: usize) -> (line: Vec<char>)
    requires
        from <= end <= s.len(),
        end - from == first_index(s@.subrange(from as int, s.len() as int), '\n'),
    ensures
        line@ == first_line(s@.subrange(from as int, s.len() as int)),
{
    let ghost rest = s@.subrange(from as int, s.len() as int);
    assert(rest.subrange(0, end - from) =~= s@.subrange(from as int, end as int));
    if end < s.len() && end > from && s[end - 1] == '\r' {
        assert(s@.subrange(from as int, end as int).drop_last() =~= s@.subrange(
            from as int,
            end - 1,
        ));
        slice(s, from, end - 1)
    } else {
        slice(s, from, end)
    }
}

/// The first of the lines of `s` that holds `marker`.
pub fn find_line_with(s: &Vec<char>, marker: &Vec<char>) -> (out: Option<Vec<char>>)
    ensures
        match first_line_with(s@, marker@) {
            Some(line) => out matches Some(found) && found@ == line,
            None => out is None,
        },
{
    let mut from: usize = 0;
    assert(s@.subrange(0, s.len() as int) =~= s@);
    while from < s.len()
        invariant
            from <= s.len(),
            first_line_with(s@, marker@) == first_line_with(
                s@.subrange(from as int, s.len() as int),
                marker@,
            ),
        decreases s.len() - from,
    {
        let end = line_end(s, from);
        let line = line_at(s, from, end);
        if find(&line, marker).is_some() {
            return Some(line);
        }
        if end == s.len() {
            return None;
        }
        proof {
            let rest = s@.subrange(from as int, s.len() as int);
            assert(after_first_line(rest) =~= s@.subrange(end + 1, s.len() as int));
        }
        from = end + 1;
    }
    None
}

/// `s` without any occurrence of `pattern`.
pub fn without_all(s: &Vec<char>, pattern: &Vec<char>) -> (out: Vec<char>)
    ensures
        out@ == remove_all(s@, pattern@),
{
    let mut out: Vec<char> = Vec::new();
    let mut i: usize = 0;
    assert(s@.subrange(0, s.len() as int) =~= s@);
    assert(out@ + remove_all(s@, pattern@) =~= remove_all(s@, pattern@));
    if pattern.len() == 0 {
        return slice(s, 0, s.len());
    }
    while i < s.len()
        invariant
            i <= s.len(),
            pattern.len() > 0,
            out@ + remove_all(s@.subrange(i as int, s.len() as int), pattern@) == remove_all(
                s@,
                pattern@,
            ),
        decreases s.len() - i,
    {
        let ghost rest = s@.subrange(i as int, s.len() as int);
        if starts_at(s, pattern, i) {
            proof {
                assert(rest.subrange(0, 0 + pattern.len() as int) =~= s@.subrange(
                    i as int,
                    i + pattern.len(),
                ));
                assert(occurs_at(rest, pattern@, 0));
                assert(rest.subrange(pattern.len() as int, rest.len() as int) =~= s@.subrange(
                    i + pattern.len(),
                    s.len() as int,
                ));
            }
            i += pattern.len();
        } else {
            proof {
                if rest.len() >= pattern.len() {
                    assert(rest.subrange(0, 0 + pattern.len() as int) =~= s@.subrange(
                        i as int,
                        i + pattern.len(),
                    ));
                    assert(!occurs_at(rest, pattern@, 0));
                    assert(rest.drop_first() =~= s@.subrange(i + 1, s.len() as int));
                    assert(out@.push(s@[i as int]) + remove_all(rest.drop_first(), pattern@)
                        =~= out@ + (seq![rest.first()] + remove_all(
                        rest.drop_first(),
                        pattern@,
                    )));
                }
            }
            if s.len() - i < pattern.len() {
                let tail = slice(s, i, s.len());
                extend_chars(&mut out, &tail);
                return out;
            }
            out.push(s[i]);
            i += 1;
        }
    }
    assert(s@.subrange(s.len() as int, s.len() as int) =~= Seq::<char>::empty());
    assert(out@ + Seq::<char>::empty() =~= out@);
    out
}

/// Whether `c` is one of the ten decimal digits.
pub open spec fn is_digit(c: char) -> bool {
    0x30 <= c as u32 <= 0x39
}

/// The number that a decimal digit stands for.
pub open spec fn digit_value(c: char) -> nat {
    (c as u32 - 0x30) as nat
}

/// Whether every character of `s` is a decimal digit.
pub open spec fn all_digits(s: Seq<char>) -> bool {
    forall|i: int| 0 <= i < s.len() ==> is_digit(#[trigger] s[i])
}

/// The number that a sequence of decimal digits stands for.
pub open spec fn numeral_value(s: Seq<char>) -> nat
    decreases s.len(),
{
    if s.len() == 0 {
        0
    } else {
        numeral_value(s.drop_last()) * 10 + digit_value(s.last())
    }
}

/// The number that `s` stands for, where `s` is a numeral of one or more
/// decimal digits and the number fits in 64 bits.
pub open spec fn unsigned_of(s: Seq<char>) -> Option<nat> {
    if s.len() > 0 && all_digits(s) && numeral_value(s) <= u64::MAX {
        Some(numeral_value(s))
    } else {
        None
    }
}

/// A numeral is worth at least as much as each of its prefixes.
pub proof fn lemma_numeral_prefix(s: Seq<char>, n: int)
    requires
        0 <= n <= s.len(),
        all_digits(s),
    ensures
        numeral_value(s.subrange(0, n)) <= numeral_value(s),
    decreases s.len() - n,
{
    if n == s.len() {
        assert(s.subrange(0, n) =~= s);
    } else {
        let longer = s.subrange(0, n + 1);
        assert(longer.drop_last() =~= s.subrange(0, n));
        assert(is_digit(s[n]));
        lemma_numeral_prefix(s, n + 1);
    }
}

/// Reads a numeral of decimal digits.
pub fn parse_unsigned(s: &Vec<char>) -> (out: Option<u64>)
    ensures
        match unsigned_of(s@) {
            Some(n) => out == Some(n as u64),
            None => out is None,
        },
{
    if s.len() == 0 {
        return None;
    }
    let mut acc: u64 = 0;
    let mut i: usize = 0;
    while i < s.len()
        invariant
            i <= s.len(),
            acc == numeral_value(s@.subrange(0, i as int)),
            forall|j: int| 0 <= j < i ==> is_digit(#[trigger] s@[j]),
        decreases s.len() - i,
    {
        let u: u32 = s[i] as u32;
        if u < 0x30 || u > 0x39 {
            return None;
        }
        let d: u64 = (u - 0x30) as u64;
        proof {
            let longer = s@.subrange(0, i + 1);
            assert(longer.drop_last() =~= s@.subrange(0, i as int));
            assert(longer.last() == s@[i as int]);
        }
        if acc > (u64::MAX - d) / 10 {
            proof {
                if all_digits(s@) {
                    lemma_numeral_prefix(s@, i + 1);
                }
            }
            return None;
        }
        acc = acc * 10 + d;
        i += 1;
    }
    assert(s@.subrange(0, s.len() as int) =~= s@);
    Some(acc)
}

} // verus!
