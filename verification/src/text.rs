//! Character-level text operations with exact specifications over `Seq<char>`.
//!
//! Every operation works on a text held as a vector of characters, so that an
//! index is a character position.

use vstd::prelude::*;

verus! {

/// `String::push` appends one character to the end of the string.
pub assume_specification[ String::push ](s: &mut String, ch: char)
    ensures
        final(s)@ == old(s)@.push(ch),
;

/// The texts that a vector of character vectors stands for.
pub open spec fn views(parts: Seq<Vec<char>>) -> Seq<Seq<char>> {
    Seq::new(parts.len(), |i: int| parts[i]@)
}

/// The characters of `s`, in order.
pub fn chars_of(s: &str) -> (chars: Vec<char>)
    ensures
        chars@ == s@,
{
    let mut chars: Vec<char> = Vec::new();
    for c in it: s.chars()
        invariant
            it.seq() == s@,
            chars@ == s@.subrange(0, it.index() as int),
    {
        chars.push(c);
        assert(chars@ =~= s@.subrange(0, it.index() + 1));
    }
    assert(chars@ =~= s@);
    chars
}

/// The string made of `chars`, in order.
pub fn string_of(chars: &Vec<char>) -> (s: String)
    ensures
        s@ == chars@,
{
    let mut s = String::new();
    let mut i: usize = 0;
    while i < chars.len()
        invariant
            i <= chars.len(),
            s@ == chars@.subrange(0, i as int),
        decreases chars.len() - i,
    {
        s.push(chars[i]);
        i += 1;
        assert(s@ =~= chars@.subrange(0, i as int));
    }
    assert(chars@.subrange(0, chars.len() as int) =~= chars@);
    s
}

/// Whether two texts hold the same characters.
pub fn same_chars(a: &Vec<char>, b: &Vec<char>) -> (same: bool)
    ensures
        same == (a@ == b@),
{
    if a.len() != b.len() {
        return false;
    }
    let mut i: usize = 0;
    while i < a.len()
        invariant
            a@.len() == b@.len(),
            i <= a.len(),
            forall|j: int| 0 <= j < i ==> a@[j] == b@[j],
        decreases a.len() - i,
    {
        if a[i] != b[i] {
            return false;
        }
        i += 1;
    }
    assert(a@ =~= b@);
    true
}

/// Whether `chars` spells exactly `literal`.
pub fn same_text(chars: &Vec<char>, literal: &str) -> (same: bool)
    ensures
        same == (chars@ == literal@),
{
    let spelled = chars_of(literal);
    same_chars(chars, &spelled)
}

/// The characters of `s` from position `from` up to, not including, `to`.
pub fn copy_range(s: &Vec<char>, from: usize, to: usize) -> (part: Vec<char>)
    requires
        from <= to <= s.len(),
    ensures
        part@ == s@.subrange(from as int, to as int),
{
    let mut part: Vec<char> = Vec::new();
    let mut i: usize = from;
    while i < to
        invariant
            from <= i <= to,
            to <= s.len(),
            part@ == s@.subrange(from as int, i as int),
        decreases to - i,
    {
        part.push(s[i]);
        i += 1;
        assert(part@ =~= s@.subrange(from as int, i as int));
    }
    part
}

/// Appends the characters of `tail` to `out`.
pub fn append_chars(out: &mut Vec<char>, tail: &Vec<char>)
    ensures
        final(out)@ == old(out)@ + tail@,
{
    let mut i: usize = 0;
    while i < tail.len()
        invariant
            i <= tail.len(),
            out@ == old(out)@ + tail@.subrange(0, i as int),
        decreases tail.len() - i,
    {
        out.push(tail[i]);
        i += 1;
        assert(out@ =~= old(out)@ + tail@.subrange(0, i as int));
    }
    assert(tail@.subrange(0, tail.len() as int) =~= tail@);
}

/// Whether `pat` stands in `s` at position `i`.
pub open spec fn occurs_at(s: Seq<char>, pat: Seq<char>, i: int) -> bool {
    0 <= i && i + pat.len() <= s.len() && s.subrange(i, i + pat.len()) == pat
}

/// The first position at or after `from` where `pat` stands in `s`, or -1.
pub open spec fn first_match(s: Seq<char>, pat: Seq<char>, from: int) -> int
    decreases s.len() + 1 - from,
{
    if from < 0 || from + pat.len() > s.len() {
        -1
    } else if occurs_at(s, pat, from) {
        from
    } else {
        first_match(s, pat, from + 1)
    }
}

/// What `first_match` finds: -1 exactly when `pat` stands nowhere at or
/// after `from`; else a position where `pat` stands, before which, from
/// `from` on, it stands nowhere.
pub proof fn lemma_first_match(s: Seq<char>, pat: Seq<char>, from: int)
    requires
        0 <= from,
    ensures
        first_match(s, pat, from) == -1 <==> forall|i: int| from <= i ==> !occurs_at(s, pat, i),
        first_match(s, pat, from) != -1 ==> from <= first_match(s, pat, from) && occurs_at(
            s,
            pat,
            first_match(s, pat, from),
        ) && forall|i: int| from <= i < first_match(s, pat, from) ==> !occurs_at(s, pat, i),
    decreases s.len() + 1 - from,
{
    if from + pat.len() > s.len() {
    } else if occurs_at(s, pat, from) {
    } else {
        lemma_first_match(s, pat, from + 1);
    }
}

/// Whether `pat` stands in `s` at position `i`.
pub fn matches_at(s: &Vec<char>, pat: &Vec<char>, i: usize) -> (found: bool)
    ensures
        found == occurs_at(s@, pat@, i as int),
{
    if pat.len() > s.len() || i > s.len() - pat.len() {
        return false;
    }
    let mut j: usize = 0;
    while j < pat.len()
        invariant
            j <= pat.len(),
            i + pat.len() <= s.len(),
            forall|k: int| 0 <= k < j ==> s@[i + k] == pat@[k],
        decreases pat.len() - j,
    {
        if s[i + j] != pat[j] {
            assert(s@.subrange(i as int, i + pat.len())[j as int] == s@[i + j]);
            return false;
        }
        j += 1;
    }
    assert(s@.subrange(i as int, i + pat.len()) =~= pat@);
    true
}

/// The first position at or after `from` where `pat` stands in `s`.
pub fn find_from(s: &Vec<char>, pat: &Vec<char>, from: usize) -> (found: Option<usize>)
    ensures
        match found {
            Some(m) => first_match(s@, pat@, from as int) == m && from <= m && m + pat.len()
                <= s.len(),
            None => first_match(s@, pat@, from as int) == -1,
        },
{
    if pat.len() > s.len() || from > s.len() - pat.len() {
        return None;
    }
    let last: usize = s.len() - pat.len();
    let mut i: usize = from;
    while i <= last
        invariant
            last == s.len() - pat.len(),
            from <= i <= last + 1,
            first_match(s@, pat@, from as int) == first_match(s@, pat@, i as int),
        decreases last + 1 - i,
    {
        if matches_at(s, pat, i) {
            return Some(i);
        }
        assert(pat@.len() > 0) by {
            if pat@.len() == 0 {
                assert(s@.subrange(i as int, i as int) =~= pat@);
            }
        }
        i += 1;
    }
    None
}

/// The pieces of `s` from position `from` on, cut at each occurrence of `pat`,
/// the occurrences taken from left to right without overlap.
pub open spec fn split_from(s: Seq<char>, pat: Seq<char>, from: int) -> Seq<Seq<char>>
    decreases s.len() - from,
{
    let m = first_match(s, pat, from);
    if pat.len() > 0 && from <= m && m + pat.len() <= s.len() {
        seq![s.subrange(from, m)] + split_from(s, pat, m + pat.len())
    } else {
        seq![s.subrange(from, s.len() as int)]
    }
}

/// The pieces of `s` between the occurrences of `pat`: one more piece than
/// there are occurrences. An empty `pat` cuts nowhere.
pub open spec fn split(s: Seq<char>, pat: Seq<char>) -> Seq<Seq<char>> {
    split_from(s, pat, 0)
}

/// Cuts `s` at each occurrence of `pat`. An empty `pat` cuts nowhere.
pub fn split_text(s: &Vec<char>, pat: &Vec<char>) -> (parts: Vec<Vec<char>>)
    ensures
        views(parts@) == split(s@, pat@),
        parts.len() >= 1,
{
    let mut parts: Vec<Vec<char>> = Vec::new();
    if pat.len() == 0 {
        parts.push(copy_range(s, 0, s.len()));
        assert(views(parts@) =~= split(s@, pat@));
        return parts;
    }
    let mut from: usize = 0;
    loop
        invariant_except_break
            pat.len() > 0,
            from <= s.len(),
            views(parts@) + split_from(s@, pat@, from as int) == split(s@, pat@),
        ensures
            views(parts@) == split(s@, pat@),
            parts.len() >= 1,
        decreases s.len() - from,
    {
        let ghost before = views(parts@);
        match find_from(s, pat, from) {
            Some(m) => {
                parts.push(copy_range(s, from, m));
                assert(views(parts@) =~= before + seq![s@.subrange(from as int, m as int)]);
                assert(views(parts@) + split_from(s@, pat@, m + pat.len()) =~= before + split_from(
                    s@,
                    pat@,
                    from as int,
                ));
                from = m + pat.len();
            },
            None => {
                parts.push(copy_range(s, from, s.len()));
                assert(views(parts@) =~= before + split_from(s@, pat@, from as int));
                break ;
            },
        }
    }
    parts
}

/// `s` from position `from` on, with each occurrence of `pat` replaced by
/// `with`, the occurrences taken from left to right without overlap.
pub open spec fn replace_from(s: Seq<char>, pat: Seq<char>, with: Seq<char>, from: int) -> Seq<
    char,
>
    decreases s.len() - from,
{
    let m = first_match(s, pat, from);
    if pat.len() > 0 && from <= m && m + pat.len() <= s.len() {
        s.subrange(from, m) + with + replace_from(s, pat, with, m + pat.len())
    } else {
        s.subrange(from, s.len() as int)
    }
}

/// `s` with each occurrence of `pat` replaced by `with`. An empty `pat` is
/// replaced nowhere.
pub open spec fn replace(s: Seq<char>, pat: Seq<char>, with: Seq<char>) -> Seq<char> {
    replace_from(s, pat, with, 0)
}

/// Replaces each occurrence of `pat` in `s` by `with`. An empty `pat` is
/// replaced nowhere.
pub fn replace_text(s: &Vec<char>, pat: &Vec<char>, with: &Vec<char>) -> (out: Vec<char>)
    ensures
        out@ == replace(s@, pat@, with@),
{
    if pat.len() == 0 {
        return copy_range(s, 0, s.len());
    }
    let mut out: Vec<char> = Vec::new();
    let mut from: usize = 0;
    loop
        invariant_except_break
            pat.len() > 0,
            from <= s.len(),
            out@ + replace_from(s@, pat@, with@, from as int) == replace(s@, pat@, with@),
        ensures
            out@ == replace(s@, pat@, with@),
        decreases s.len() - from,
    {
        let ghost before = out@;
        match find_from(s, pat, from) {
            Some(m) => {
                let piece = copy_range(s, from, m);
                append_chars(&mut out, &piece);
                append_chars(&mut out, with);
                assert(out@ + replace_from(s@, pat@, with@, m + pat.len()) =~= before
                    + replace_from(s@, pat@, with@, from as int));
                from = m + pat.len();
            },
            None => {
                let piece = copy_range(s, from, s.len());
                append_chars(&mut out, &piece);
                break ;
            },
        }
    }
    out
}

/// Whether `c` is white space: a character with the Unicode property
/// `White_Space`.
pub open spec fn is_space(c: char) -> bool {
    let u = c as u32;
    (0x09 <= u <= 0x0D) || u == 0x20 || u == 0x85 || u == 0xA0 || u == 0x1680 || (0x2000 <= u
        <= 0x200A) || u == 0x2028 || u == 0x2029 || u == 0x202F || u == 0x205F || u == 0x3000
}

/// Whether `c` is white space.
pub fn space(c: char) -> (b: bool)
    ensures
        b == is_space(c),
{
    let u: u32 = c as u32;
    (0x09 <= u && u <= 0x0D) || u == 0x20 || u == 0x85 || u == 0xA0 || u == 0x1680 || (0x2000 <= u
        && u <= 0x200A) || u == 0x2028 || u == 0x2029 || u == 0x202F || u == 0x205F || u == 0x3000
}

/// The first position at or after `from` that holds no white space, or the
/// length of `s`.
pub open spec fn skip_spaces(s: Seq<char>, from: int) -> int
    decreases s.len() - from,
{
    if 0 <= from < s.len() && is_space(s[from]) {
        skip_spaces(s, from + 1)
    } else {
        from
    }
}

/// The first position at or after `from` that holds white space, or the
/// length of `s`.
pub open spec fn word_end(s: Seq<char>, from: int) -> int
    decreases s.len() - from,
{
    if 0 <= from < s.len() && !is_space(s[from]) {
        word_end(s, from + 1)
    } else {
        from
    }
}

/// The words of `s` from position `from` on: the longest runs of characters
/// that are not white space.
pub open spec fn words_from(s: Seq<char>, from: int) -> Seq<Seq<char>>
    decreases s.len() - from,
{
    let start = skip_spaces(s, from);
    let end = word_end(s, start);
    if from <= start < end <= s.len() {
        seq![s.subrange(start, end)] + words_from(s, end)
    } else {
        seq![]
    }
}

/// The words of `s`, in order: what is left when `s` is cut at white space
/// and the empty pieces are dropped.
pub open spec fn words(s: Seq<char>) -> Seq<Seq<char>> {
    words_from(s, 0)
}

/// The words of `s`.
pub fn split_words(s: &Vec<char>) -> (parts: Vec<Vec<char>>)
    ensures
        views(parts@) == words(s@),
{
    let mut parts: Vec<Vec<char>> = Vec::new();
    let mut from: usize = 0;
    loop
        invariant_except_break
            from <= s.len(),
            views(parts@) + words_from(s@, from as int) == words(s@),
        ensures
            views(parts@) == words(s@),
        decreases s.len() - from,
    {
        let mut start: usize = from;
        while start < s.len() && space(s[start])
            invariant
                from <= start <= s.len(),
                skip_spaces(s@, from as int) == skip_spaces(s@, start as int),
            decreases s.len() - start,
        {
            start += 1;
        }
        let mut end: usize = start;
        while end < s.len() && !space(s[end])
            invariant
                start <= end <= s.len(),
                word_end(s@, start as int) == word_end(s@, end as int),
            decreases s.len() - end,
        {
            end += 1;
        }
        if start < end {
            let ghost before = views(parts@);
            parts.push(copy_range(s, start, end));
            assert(views(parts@) =~= before + seq![s@.subrange(start as int, end as int)]);
            assert(views(parts@) + words_from(s@, end as int) =~= before + words_from(
                s@,
                from as int,
            ));
            from = end;
        } else {
            assert(words_from(s@, from as int) =~= seq![]);
            assert(views(parts@) + words_from(s@, from as int) =~= views(parts@));
            break ;
        }
    }
    parts
}

/// `s` without the characters equal to `c` at its end.
pub open spec fn trim_end(s: Seq<char>, c: char) -> Seq<char>
    decreases s.len(),
{
    if s.len() > 0 && s.last() == c {
        trim_end(s.drop_last(), c)
    } else {
        s
    }
}

/// Removes every `c` from the end of `s`.
pub fn trim_end_text(s: &Vec<char>, c: char) -> (out: Vec<char>)
    ensures
        out@ == trim_end(s@, c),
{
    let mut end: usize = s.len();
    assert(s@.subrange(0, end as int) =~= s@);
    while end > 0 && s[end - 1] == c
        invariant
            end <= s.len(),
            trim_end(s@.subrange(0, end as int), c) == trim_end(s@, c),
        decreases end,
    {
        assert(s@.subrange(0, end as int).drop_last() =~= s@.subrange(0, end - 1));
        end -= 1;
    }
    copy_range(s, 0, end)
}

/// `s` without `prefix` at its start; `s` itself where it does not start
/// with `prefix`.
pub open spec fn without_prefix(s: Seq<char>, prefix: Seq<char>) -> Seq<char> {
    if occurs_at(s, prefix, 0) {
        s.subrange(prefix.len() as int, s.len() as int)
    } else {
        s
    }
}

/// Removes `prefix` from the start of `s`, if `s` starts with it.
pub fn strip_prefix_text(s: &Vec<char>, prefix: &Vec<char>) -> (out: Vec<char>)
    ensures
        out@ == without_prefix(s@, prefix@),
{
    if prefix.len() <= s.len() && matches_at(s, prefix, 0) {
        copy_range(s, prefix.len(), s.len())
    } else {
        let out = copy_range(s, 0, s.len());
        assert(s@.subrange(0, s.len() as int) =~= s@);
        out
    }
}

/// Whether `c` is one of the ten decimal digits `0` to `9`.
pub open spec fn is_digit(c: char) -> bool {
    0x30 <= c as u32 <= 0x39
}

/// Whether `c` is a decimal digit.
pub fn digit(c: char) -> (b: bool)
    ensures
        b == is_digit(c),
{
    let u: u32 = c as u32;
    0x30 <= u && u <= 0x39
}

/// The number that the digit `c` stands for.
pub open spec fn digit_value(c: char) -> nat {
    if is_digit(c) {
        (c as u32 - 0x30) as nat
    } else {
        0
    }
}

/// The first position at or after `from` that holds a digit, or the length
/// of `s`.
pub open spec fn skip_non_digits(s: Seq<char>, from: int) -> int
    decreases s.len() - from,
{
    if 0 <= from < s.len() && !is_digit(s[from]) {
        skip_non_digits(s, from + 1)
    } else {
        from
    }
}

/// The first position at or after `from` that holds no digit, or the length
/// of `s`.
pub open spec fn digits_end(s: Seq<char>, from: int) -> int
    decreases s.len() - from,
{
    if 0 <= from < s.len() && is_digit(s[from]) {
        digits_end(s, from + 1)
    } else {
        from
    }
}

/// The first run of digits in `s`, as long as it can be; empty where `s`
/// holds no digit.
pub open spec fn first_digits(s: Seq<char>) -> Seq<char> {
    let start = skip_non_digits(s, 0);
    s.subrange(start, digits_end(s, start))
}

/// The first run of digits in `s`.
pub fn first_digit_run(s: &Vec<char>) -> (run: Vec<char>)
    ensures
        run@ == first_digits(s@),
{
    let mut start: usize = 0;
    while start < s.len() && !digit(s[start])
        invariant
            start <= s.len(),
            skip_non_digits(s@, 0) == skip_non_digits(s@, start as int),
        decreases s.len() - start,
    {
        start += 1;
    }
    let mut end: usize = start;
    while end < s.len() && digit(s[end])
        invariant
            start <= end <= s.len(),
            digits_end(s@, start as int) == digits_end(s@, end as int),
        decreases s.len() - end,
    {
        end += 1;
    }
    copy_range(s, start, end)
}

/// Whether `s` holds decimal digits only.
pub open spec fn all_digits(s: Seq<char>) -> bool {
    forall|i: int| 0 <= i < s.len() ==> is_digit(#[trigger] s[i])
}

/// The number that `s` spells in base ten, most significant digit first.
pub open spec fn decimal(s: Seq<char>) -> nat
    decreases s.len(),
{
    if s.len() == 0 {
        0
    } else {
        decimal(s.drop_last()) * 10 + digit_value(s.last())
    }
}

/// The number that `s` spells, where it is at most `max`: `s` is one or more
/// decimal digits, which a single `+` may precede. Any other text, and any
/// larger number, gives `None`.
pub open spec fn parse_unsigned(s: Seq<char>, max: nat) -> Option<nat> {
    let digits = if s.len() > 0 && s[0] == '+' {
        s.subrange(1, s.len() as int)
    } else {
        s
    };
    if digits.len() > 0 && all_digits(digits) && decimal(digits) <= max {
        Some(decimal(digits))
    } else {
        None
    }
}

/// A number is at least the number that any of its leading digits spell.
pub proof fn lemma_decimal_prefix(s: Seq<char>, k: int)
    requires
        0 <= k <= s.len(),
    ensures
        decimal(s.subrange(0, k)) <= decimal(s),
    decreases s.len(),
{
    if k == s.len() {
        assert(s.subrange(0, k) =~= s);
    } else {
        lemma_decimal_prefix(s.drop_last(), k);
        assert(s.drop_last().subrange(0, k) =~= s.subrange(0, k));
    }
}

/// Reads `s` as an unsigned decimal number of at most `max`.
pub fn parse_number(s: &Vec<char>, max: u64) -> (number: Option<u64>)
    ensures
        match number {
            Some(v) => parse_unsigned(s@, max as nat) == Some(v as nat),
            None => parse_unsigned(s@, max as nat) is None,
        },
{
    let start: usize = if s.len() > 0 && s[0] == '+' {
        1
    } else {
        0
    };
    let ghost digits = s@.subrange(start as int, s.len() as int);
    assert(start == 0 ==> digits =~= s@);
    if start == s.len() {
        return None;
    }
    let mut acc: u64 = 0;
    let mut i: usize = start;
    assert(digits.subrange(0, 0) =~= Seq::<char>::empty());
    assert(start == 1 ==> digits =~= s@.subrange(1, s.len() as int));
    while i < s.len()
        invariant
            start <= i <= s.len(),
            digits == s@.subrange(start as int, s.len() as int),
            digits.len() > 0,
            parse_unsigned(s@, max as nat) == (if all_digits(digits) && decimal(digits) <= max {
                Some(decimal(digits))
            } else {
                None
            }),
            all_digits(digits.subrange(0, i - start)),
            acc == decimal(digits.subrange(0, i - start)),
            acc <= max,
        decreases s.len() - i,
    {
        let c: char = s[i];
        assert(digits[i - start] == c);
        if !digit(c) {
            return None;
        }
        let d: u64 = (c as u32 - 0x30) as u64;
        let next: u128 = acc as u128 * 10 + d as u128;
        proof {
            let longer = digits.subrange(0, i - start + 1);
            assert(longer.drop_last() =~= digits.subrange(0, i - start));
            assert(longer.last() == c);
            assert(decimal(longer) == next);
            assert forall|j: int| 0 <= j < longer.len() implies is_digit(#[trigger] longer[j]) by {
                if j < i - start {
                    assert(digits.subrange(0, i - start)[j] == longer[j]);
                }
            }
            lemma_decimal_prefix(digits, i - start + 1);
        }
        if next > max as u128 {
            return None;
        }
        acc = next as u64;
        i += 1;
    }
    assert(digits.subrange(0, i - start) =~= digits);
    Some(acc)
}

/// Where `pat` stands in `s` at one position only, replacing it puts `with`
/// in its place and leaves the rest.
pub proof fn lemma_replace_once(s: Seq<char>, pat: Seq<char>, with: Seq<char>, at: int)
    requires
        pat.len() > 0,
        occurs_at(s, pat, at),
        forall|i: int| i != at ==> !occurs_at(s, pat, i),
    ensures
        replace(s, pat, with) == s.subrange(0, at) + with + s.subrange(
            at + pat.len(),
            s.len() as int,
        ),
{
    lemma_first_match(s, pat, 0);
    lemma_first_match(s, pat, at + pat.len());
    assert(first_match(s, pat, 0) == at);
    assert(first_match(s, pat, at + pat.len()) == -1);
    assert(replace_from(s, pat, with, at + pat.len()) == s.subrange(
        at + pat.len(),
        s.len() as int,
    ));
}

/// A run of characters that are not white space, which white space or the
/// end of the text follows, ends where `word_end` says.
pub proof fn lemma_word_end(s: Seq<char>, from: int, end: int)
    requires
        0 <= from <= end <= s.len(),
        forall|k: int| from <= k < end ==> !is_space(#[trigger] s[k]),
        end == s.len() || is_space(s[end]),
    ensures
        word_end(s, from) == end,
    decreases end - from,
{
    if from < end {
        assert(!is_space(s[from]));
        lemma_word_end(s, from + 1, end);
    }
}

/// Where a word starts at `from` and ends before `end`, it is the first of
/// the words from `from` on, and the others are the words from `end` on.
pub proof fn lemma_first_word(s: Seq<char>, from: int, end: int)
    requires
        0 <= from < end <= s.len(),
        forall|k: int| from <= k < end ==> !is_space(#[trigger] s[k]),
        end == s.len() || is_space(s[end]),
    ensures
        words_from(s, from) == seq![s.subrange(from, end)] + words_from(s, end),
{
    assert(!is_space(s[from]));
    assert(skip_spaces(s, from) == from);
    lemma_word_end(s, from, end);
}

/// White space before a word is passed over: the words from the white space
/// on are the words from the word on.
pub proof fn lemma_space_before_word(s: Seq<char>, at: int)
    requires
        0 <= at,
        at + 1 < s.len(),
        is_space(s[at]),
        !is_space(s[at + 1]),
    ensures
        words_from(s, at) == words_from(s, at + 1),
{
    assert(skip_spaces(s, at + 1) == at + 1);
    assert(skip_spaces(s, at) == at + 1);
}

/// No word is left at the end of a text.
pub proof fn lemma_no_word_at_end(s: Seq<char>)
    ensures
        words_from(s, s.len() as int) == Seq::<Seq<char>>::empty(),
{
    assert(skip_spaces(s, s.len() as int) == s.len());
    assert(word_end(s, s.len() as int) == s.len());
}

} // verus!
