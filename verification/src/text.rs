//! Text primitives on sequences of characters: substring search, trimming,
//! decimal numbers. Every function states its result over `Seq<char>`.

use vstd::prelude::*;

verus! {

/// Whether `pattern` stands in `text` at position `at`.
pub open spec fn occurs_at(text: Seq<char>, pattern: Seq<char>, at: int) -> bool {
    &&& 0 <= at
    &&& at + pattern.len() <= text.len()
    &&& text.subrange(at, at + pattern.len()) == pattern
}

/// Whether `pattern` is a contiguous part of `text`. The empty pattern is
/// part of every text.
pub open spec fn contains(text: Seq<char>, pattern: Seq<char>) -> bool {
    exists|at: int| occurs_at(text, pattern, at)
}

/// The characters of Unicode's White_Space property.
pub open spec fn is_white_space(c: char) -> bool {
    ||| '\u{9}' <= c <= '\u{d}'
    ||| c == ' '
    ||| c == '\u{85}'
    ||| c == '\u{a0}'
    ||| c == '\u{1680}'
    ||| '\u{2000}' <= c <= '\u{200a}'
    ||| c == '\u{2028}'
    ||| c == '\u{2029}'
    ||| c == '\u{202f}'
    ||| c == '\u{205f}'
    ||| c == '\u{3000}'
}

/// `s` without its leading white space.
pub open spec fn trim_start(s: Seq<char>) -> Seq<char>
    decreases s.len(),
{
    if s.len() > 0 && is_white_space(s[0]) {
        trim_start(s.drop_first())
    } else {
        s
    }
}

/// `s` without its trailing white space.
pub open spec fn trim_end(s: Seq<char>) -> Seq<char>
    decreases s.len(),
{
    if s.len() > 0 && is_white_space(s.last()) {
        trim_end(s.drop_last())
    } else {
        s
    }
}

/// `s` without leading and trailing white space.
pub open spec fn trim(s: Seq<char>) -> Seq<char> {
    trim_end(trim_start(s))
}

/// A text that neither starts nor ends with white space.
pub open spec fn is_trimmed(s: Seq<char>) -> bool {
    s.len() > 0 ==> !is_white_space(s[0]) && !is_white_space(s.last())
}

/// Whether `c` is one of the ten decimal digits.
pub open spec fn is_digit(c: char) -> bool {
    '0' <= c <= '9'
}

/// The value of a decimal digit.
pub open spec fn digit_value(c: char) -> int {
    c as int - '0' as int
}

/// The decimal digit that stands for `d`, for `d` below ten.
pub open spec fn digit_char(d: int) -> char {
    if d == 0 {
        '0'
    } else if d == 1 {
        '1'
    } else if d == 2 {
        '2'
    } else if d == 3 {
        '3'
    } else if d == 4 {
        '4'
    } else if d == 5 {
        '5'
    } else if d == 6 {
        '6'
    } else if d == 7 {
        '7'
    } else if d == 8 {
        '8'
    } else {
        '9'
    }
}

/// Whether `s` holds decimal digits only.
pub open spec fn all_digits(s: Seq<char>) -> bool {
    forall|i: int| 0 <= i < s.len() ==> is_digit(#[trigger] s[i])
}

/// The number that a sequence of decimal digits denotes, most significant
/// digit first.
pub open spec fn digits_value(s: Seq<char>) -> nat
    decreases s.len(),
{
    if s.len() == 0 {
        0
    } else {
        (digits_value(s.drop_last()) * 10 + digit_value(s.last())) as nat
    }
}

/// The number that `s` denotes as an unsigned decimal: an optional `+`, then
/// one digit or more and nothing else.
pub open spec fn parse_unsigned(s: Seq<char>) -> Option<nat> {
    let digits = if s.len() > 0 && s[0] == '+' {
        s.drop_first()
    } else {
        s
    };
    if digits.len() > 0 && all_digits(digits) {
        Some(digits_value(digits))
    } else {
        None
    }
}

/// The decimal digits of `n`, without leading zeros.
pub open spec fn decimal_text(n: nat) -> Seq<char>
    decreases n,
{
    if n < 10 {
        seq![digit_char(n as int)]
    } else {
        decimal_text(n / 10).push(digit_char((n % 10) as int))
    }
}

/// The test that a character is not `c`.
pub open spec fn differs_from(c: char) -> spec_fn(char) -> bool {
    |x: char| x != c
}

/// `s` without the occurrences of `c`.
pub open spec fn without_char(s: Seq<char>, c: char) -> Seq<char> {
    s.filter(differs_from(c))
}

/// Where the first `k` characters are white space and the next is not,
/// the text without its leading white space is the text from `k` on.
pub proof fn lemma_trim_start_skips(s: Seq<char>, k: int)
    requires
        0 <= k <= s.len(),
        forall|j: int| 0 <= j < k ==> is_white_space(#[trigger] s[j]),
        k < s.len() ==> !is_white_space(s[k]),
    ensures
        trim_start(s) == s.skip(k),
    decreases k,
{
    if k > 0 {
        lemma_trim_start_skips(s.drop_first(), k - 1);
    }
}

/// Where the characters from `k` on are white space and the one before is
/// not, the text without its trailing white space is its first `k`
/// characters.
pub proof fn lemma_trim_end_takes(s: Seq<char>, k: int)
    requires
        0 <= k <= s.len(),
        forall|j: int| k <= j < s.len() ==> is_white_space(#[trigger] s[j]),
        k > 0 ==> !is_white_space(s[k - 1]),
    ensures
        trim_end(s) == s.take(k),
    decreases s.len() - k,
{
    if k < s.len() {
        lemma_trim_end_takes(s.drop_last(), k);
    }
}

/// Trimming leaves a text that neither starts nor ends with white space, and
/// trimming such a text changes nothing.
pub proof fn lemma_trim_is_idempotent(s: Seq<char>)
    ensures
        is_trimmed(trim(s)),
        trim(trim(s)) == trim(s),
{
    lemma_trim_start_shape(s);
    let x = trim_start(s);
    lemma_trim_end_shape(x);
}

/// A text that neither starts nor ends with white space is its own trim.
pub proof fn lemma_trimmed_is_fixed(s: Seq<char>)
    requires
        is_trimmed(s),
    ensures
        trim(s) == s,
{
}

proof fn lemma_trim_start_shape(s: Seq<char>)
    ensures
        trim_start(s).len() > 0 ==> !is_white_space(trim_start(s)[0]),
    decreases s.len(),
{
    if s.len() > 0 && is_white_space(s[0]) {
        lemma_trim_start_shape(s.drop_first());
    }
}

proof fn lemma_trim_end_shape(s: Seq<char>)
    ensures
        trim_end(s).len() <= s.len(),
        trim_end(s) == s.take(trim_end(s).len() as int),
        trim_end(s).len() > 0 ==> !is_white_space(trim_end(s).last()),
    decreases s.len(),
{
    if s.len() > 0 && is_white_space(s.last()) {
        let rest = s.drop_last();
        lemma_trim_end_shape(rest);
    }
}

/// The characters of a string slice, in order.
pub fn chars_of(s: &str) -> (v: Vec<char>)
    ensures
        v@ == s@,
{
    let mut v: Vec<char> = Vec::new();
    for c in it: s.chars()
        invariant
            v@ == it.seq().take(it.index() as int),
            it.seq() == s@,
    {
        v.push(c);
    }
    v
}

/// Whether `pattern` stands in `text` at position `at`.
fn matches_at(text: &Vec<char>, pattern: &Vec<char>, at: usize) -> (r: bool)
    requires
        at + pattern.len() <= text.len(),
    ensures
        r == occurs_at(text@, pattern@, at as int),
{
    let mut k: usize = 0;
    while k < pattern.len()
        invariant
            k <= pattern.len(),
            at + pattern.len() <= text.len(),
            forall|j: int| 0 <= j < k ==> text@[at + j] == pattern@[j],
        decreases pattern.len() - k,
    {
        if text[at + k] != pattern[k] {
            return false;
        }
        k = k + 1;
    }
    assert(text@.subrange(at as int, at + pattern.len()) =~= pattern@);
    true
}

/// Whether `pattern` is a contiguous part of `text`.
pub fn contains_chars(text: &Vec<char>, pattern: &Vec<char>) -> (r: bool)
    ensures
        r == contains(text@, pattern@),
{
    if pattern.len() > text.len() {
        return false;
    }
    let last: usize = text.len() - pattern.len();
    let mut at: usize = 0;
    while at < last
        invariant
            at <= last,
            last == text.len() - pattern.len(),
            forall|j: int| 0 <= j < at ==> !occurs_at(text@, pattern@, j),
        decreases last - at,
    {
        if matches_at(text, pattern, at) {
            return true;
        }
        at = at + 1;
    }
    matches_at(text, pattern, last)
}

/// Whether `pattern` is a contiguous part of `text`.
pub fn text_contains(text: &str, pattern: &str) -> (r: bool)
    ensures
        r == contains(text@, pattern@),
{
    let t = chars_of(text);
    let p = chars_of(pattern);
    contains_chars(&t, &p)
}

/// The position of the first `c` in `text`, if there is one.
pub fn find_char(text: &Vec<char>, c: char) -> (r: Option<usize>)
    ensures
        match r {
            Some(i) => text@.index_of_first(c) == Some(i as int) && i < text.len(),
            None => text@.index_of_first(c) is None,
        },
{
    let mut i: usize = 0;
    while i < text.len()
        invariant
            i <= text.len(),
            forall|j: int| 0 <= j < i ==> text@[j] != c,
        decreases text.len() - i,
    {
        if text[i] == c {
            proof {
                text@.index_of_first_ensures(c);
            }
            return Some(i);
        }
        i = i + 1;
    }
    proof {
        text@.index_of_first_ensures(c);
    }
    None
}

/// Whether `c` is white space.
pub fn is_white_space_char(c: char) -> (r: bool)
    ensures
        r == is_white_space(c),
{
    ('\u{9}' <= c && c <= '\u{d}') || c == ' ' || c == '\u{85}' || c == '\u{a0}' || c
        == '\u{1680}' || ('\u{2000}' <= c && c <= '\u{200a}') || c == '\u{2028}' || c
        == '\u{2029}' || c == '\u{202f}' || c == '\u{205f}' || c == '\u{3000}'
}

/// The bounds of the trimmed part of `text` from position `from` on.
pub fn trim_bounds(text: &Vec<char>, from: usize) -> (r: (usize, usize))
    requires
        from <= text.len(),
    ensures
        from <= r.0 <= r.1 <= text.len(),
        text@.subrange(r.0 as int, r.1 as int) == trim(text@.skip(from as int)),
{
    let ghost tail = text@.skip(from as int);
    let mut start: usize = from;
    while start < text.len() && is_white_space_char(text[start])
        invariant
            from <= start <= text.len(),
            forall|j: int| from <= j < start ==> is_white_space(#[trigger] text@[j]),
        decreases text.len() - start,
    {
        start = start + 1;
    }
    let mut end: usize = text.len();
    while end > start && is_white_space_char(text[end - 1])
        invariant
            start <= end <= text.len(),
            forall|j: int| end <= j < text.len() ==> is_white_space(#[trigger] text@[j]),
        decreases end - start,
    {
        end = end - 1;
    }
    proof {
        lemma_trim_start_skips(tail, start - from);
        let middle = tail.skip(start - from);
        lemma_trim_end_takes(middle, end - start);
    }
    (start, end)
}

/// Whether `c` is one of the ten decimal digits.
pub fn is_digit_char(c: char) -> (r: bool)
    ensures
        r == is_digit(c),
{
    '0' <= c && c <= '9'
}

/// The value of a decimal digit.
pub(crate) fn digit_of(c: char) -> (r: u8)
    requires
        is_digit(c),
    ensures
        r == digit_value(c),
        r <= 9,
{
    (c as u32 - '0' as u32) as u8
}

/// The decimal digits of a number are digits, at least one, and denote it.
pub proof fn lemma_decimal_text_denotes(n: nat)
    ensures
        decimal_text(n).len() > 0,
        all_digits(decimal_text(n)),
        digits_value(decimal_text(n)) == n,
    decreases n,
{
    if n < 10 {
        let s = decimal_text(n);
        assert(digits_value(s.drop_last()) == 0);
    } else {
        lemma_decimal_text_denotes(n / 10);
        let s = decimal_text(n);
        assert(s.drop_last() =~= decimal_text(n / 10));
    }
}

/// Reading the decimal digits of a number gives the number back.
pub proof fn lemma_parse_decimal_text(n: nat)
    ensures
        parse_unsigned(decimal_text(n)) == Some(n),
{
    lemma_decimal_text_denotes(n);
}

/// Taking `c` out of a text that does not hold it changes nothing.
pub proof fn lemma_without_absent_char(s: Seq<char>, c: char)
    requires
        forall|i: int| 0 <= i < s.len() ==> s[i] != c,
    ensures
        without_char(s, c) == s,
    decreases s.len(),
{
    reveal(Seq::filter);
    if s.len() > 0 {
        lemma_without_absent_char(s.drop_last(), c);
    }
}

/// The characters of `text` that are not `c`, in order.
pub fn remove_char(text: &Vec<char>, c: char) -> (r: Vec<char>)
    ensures
        r@ == without_char(text@, c),
{
    let mut kept: Vec<char> = Vec::new();
    let mut i: usize = 0;
    while i < text.len()
        invariant
            i <= text.len(),
            kept@ == without_char(text@.take(i as int), c),
        decreases text.len() - i,
    {
        proof {
            text@.take(i as int).lemma_filter_push(text@[i as int], differs_from(c));
            assert(text@.take(i as int).push(text@[i as int]) =~= text@.take(i + 1));
        }
        if text[i] != c {
            kept.push(text[i]);
        }
        i = i + 1;
    }
    assert(text@.take(text.len() as int) =~= text@);
    kept
}

/// Reads `text` as an unsigned decimal that is at most `limit`.
pub fn parse_unsigned_within(text: &Vec<char>, limit: u32) -> (r: Option<u32>)
    ensures
        match r {
            Some(n) => parse_unsigned(text@) == Some(n as nat) && n <= limit,
            None => match parse_unsigned(text@) {
                Some(n) => n > limit,
                None => true,
            },
        },
{
    let start: usize = if text.len() > 0 && text[0] == '+' {
        1
    } else {
        0
    };
    let ghost digits = text@.skip(start as int);
    proof {
        if start == 0 {
            assert(text@ =~= digits);
        }
    }
    if start == text.len() {
        return None;
    }
    let mut acc: u64 = 0;
    let mut over = false;
    let mut k: usize = start;
    while k < text.len()
        invariant
            start <= k <= text.len(),
            digits == text@.skip(start as int),
            parse_unsigned(text@) == if all_digits(digits) {
                Some(digits_value(digits))
            } else {
                None
            },
            all_digits(text@.subrange(start as int, k as int)),
            !over ==> acc == digits_value(text@.subrange(start as int, k as int)) && acc <= limit,
            over ==> digits_value(text@.subrange(start as int, k as int)) > limit,
        decreases text.len() - k,
    {
        let c = text[k];
        if !is_digit_char(c) {
            assert(digits[k - start] == c);
            return None;
        }
        proof {
            let before = text@.subrange(start as int, k as int);
            let after = text@.subrange(start as int, k + 1);
            assert(after.drop_last() =~= before);
        }
        if !over {
            let next: u64 = acc * 10 + digit_of(c) as u64;
            if next > limit as u64 {
                over = true;
            } else {
                acc = next;
            }
        }
        k = k + 1;
    }
    if over {
        None
    } else {
        Some(acc as u32)
    }
}

/// The digit `d` as a text of one character.
pub(crate) fn digit_text(d: u8) -> (r: &'static str)
    requires
        d <= 9,
    ensures
        r@ == seq![digit_char(d as int)],
{
    proof {
        reveal_strlit("0");
        reveal_strlit("1");
        reveal_strlit("2");
        reveal_strlit("3");
        reveal_strlit("4");
        reveal_strlit("5");
        reveal_strlit("6");
        reveal_strlit("7");
        reveal_strlit("8");
        reveal_strlit("9");
    }
    let r = if d == 0 {
        "0"
    } else if d == 1 {
        "1"
    } else if d == 2 {
        "2"
    } else if d == 3 {
        "3"
    } else if d == 4 {
        "4"
    } else if d == 5 {
        "5"
    } else if d == 6 {
        "6"
    } else if d == 7 {
        "7"
    } else if d == 8 {
        "8"
    } else {
        "9"
    };
    r
}

/// Appends the decimal digits of `n` to `out`.
pub fn append_decimal(out: &mut String, n: u64)
    ensures
        final(out)@ == old(out)@ + decimal_text(n as nat),
    decreases n,
{
    if n >= 10 {
        append_decimal(out, n / 10);
    }
    out.append(digit_text((n % 10) as u8));
}

/// The decimal digits of `n`, without leading zeros.
pub fn decimal_string(n: u64) -> (r: String)
    ensures
        r@ == decimal_text(n as nat),
{
    let mut out = String::new();
    append_decimal(&mut out, n);
    out
}

} // verus!
