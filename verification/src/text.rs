//! Sequences of characters and bytes: searching, splitting, joining and the
//! conversions between `String` and `Vec<char>` that the rest of the crate is
//! built on.
//!
//! Every contract here is stated over `Seq<char>` or `Seq<u8>`.

use vstd::prelude::*;

verus! {

/// Index of the first element at or after `from` that equals `x`, if there is one.
pub open spec fn first_index_from<T>(s: Seq<T>, x: T, from: int) -> Option<int>
    decreases s.len() - from,
{
    if from < 0 || from >= s.len() {
        None
    } else if s[from] == x {
        Some(from)
    } else {
        first_index_from(s, x, from + 1)
    }
}

/// Index of the first element that equals `x`, if there is one.
pub open spec fn first_index<T>(s: Seq<T>, x: T) -> Option<int> {
    first_index_from(s, x, 0)
}

/// `pat` stands in `s` at index `i`.
pub open spec fn occurs_at<T>(s: Seq<T>, pat: Seq<T>, i: int) -> bool {
    0 <= i && i + pat.len() <= s.len() && s.subrange(i, i + pat.len()) == pat
}

/// Index of the first occurrence of `pat` in `s` at or after `from`, if there is one.
pub open spec fn first_match_from<T>(s: Seq<T>, pat: Seq<T>, from: int) -> Option<int>
    decreases s.len() + 1 - from,
{
    if from < 0 || from + pat.len() > s.len() {
        None
    } else if occurs_at(s, pat, from) {
        Some(from)
    } else {
        first_match_from(s, pat, from + 1)
    }
}

/// Index of the first occurrence of `pat` in `s`, if there is one.
pub open spec fn first_match<T>(s: Seq<T>, pat: Seq<T>) -> Option<int> {
    first_match_from(s, pat, 0)
}

/// The pieces of `s` from index `from` on, cut at every `x`: one more piece than
/// there are `x` at or after `from`, each piece free of `x`.
pub open spec fn split_from<T>(s: Seq<T>, x: T, from: int) -> Seq<Seq<T>>
    decreases s.len() - from,
{
    match first_index_from(s, x, from) {
        Some(i) => if from <= i < s.len() {
            seq![s.subrange(from, i)] + split_from(s, x, i + 1)
        } else {
            seq![s.subrange(from, s.len() as int)]
        },
        None => seq![s.subrange(from, s.len() as int)],
    }
}

/// The pieces of `s`, cut at every `x`.
pub open spec fn split<T>(s: Seq<T>, x: T) -> Seq<Seq<T>> {
    split_from(s, x, 0)
}

/// `parts` written one after the other with `sep` between each two.
pub open spec fn join<T>(parts: Seq<Seq<T>>, sep: Seq<T>) -> Seq<T>
    decreases parts.len(),
{
    if parts.len() == 0 {
        Seq::empty()
    } else if parts.len() == 1 {
        parts[0]
    } else {
        join(parts.drop_last(), sep) + sep + parts.last()
    }
}

/// The character that writes the digit `d`.
pub open spec fn digit_char(d: int) -> char {
    ((48 + d) as u8) as char
}

/// A natural number written in decimal, without leading zeros.
pub open spec fn decimal(n: nat) -> Seq<char>
    decreases n,
{
    if n < 10 {
        seq![digit_char(n as int)]
    } else {
        decimal(n / 10).push(digit_char((n % 10) as int))
    }
}

/// An integer written in decimal, with a leading `-` when it is negative.
pub open spec fn signed_decimal(i: int) -> Seq<char> {
    if i < 0 {
        seq!['-'] + decimal((-i) as nat)
    } else {
        decimal(i as nat)
    }
}

/// Where the run of elements satisfying `skip` that begins at `from` ends.
pub open spec fn skip_while_from<T>(s: Seq<T>, skip: spec_fn(T) -> bool, from: int) -> int
    decreases s.len() - from,
{
    if 0 <= from < s.len() && skip(s[from]) {
        skip_while_from(s, skip, from + 1)
    } else {
        from
    }
}

/// Where the run of elements satisfying `skip` that ends at `to` begins, not
/// going below `floor`.
pub open spec fn skip_back_while<T>(s: Seq<T>, skip: spec_fn(T) -> bool, floor: int, to: int) -> int
    decreases to,
{
    if 0 <= floor < to <= s.len() && skip(s[to - 1]) {
        skip_back_while(s, skip, floor, to - 1)
    } else {
        to
    }
}

/// `s` without the elements at its start and at its end that satisfy `skip`.
pub open spec fn trim_matching<T>(s: Seq<T>, skip: spec_fn(T) -> bool) -> Seq<T> {
    let start = skip_while_from(s, skip, 0);
    let end = skip_back_while(s, skip, start, s.len() as int);
    s.subrange(start, end)
}

/// `s` without the elements at its end that satisfy `skip`.
pub open spec fn trim_end_matching<T>(s: Seq<T>, skip: spec_fn(T) -> bool) -> Seq<T> {
    s.take(skip_back_while(s, skip, 0, s.len() as int))
}

/// Whether a character is whitespace: below U+0080 these are tab, line feed,
/// vertical tab, form feed, carriage return and space; of any other character
/// the Unicode property White_Space decides.
pub open spec fn whitespace(c: char) -> bool {
    if (c as u32) < 0x80 {
        crate::bridge::ascii_whitespace(c)
    } else {
        crate::bridge::is_whitespace(c)
    }
}

/// `s` without leading and trailing whitespace.
pub open spec fn trim(s: Seq<char>) -> Seq<char> {
    trim_matching(s, |c: char| whitespace(c))
}

/// `s` without the NUL characters at its end.
pub open spec fn trim_end_nul(s: Seq<char>) -> Seq<char> {
    trim_end_matching(s, |c: char| c == '\0')
}

/// `s` without the copies of `pat` at its end, however many there are.
pub open spec fn trim_end_pattern<T>(s: Seq<T>, pat: Seq<T>) -> Seq<T>
    decreases s.len(),
{
    if pat.len() > 0 && pat.is_suffix_of(s) {
        trim_end_pattern(s.take(s.len() - pat.len()), pat)
    } else {
        s
    }
}

/// A line without the carriage return at its end, if it has one.
pub open spec fn strip_cr(line: Seq<char>) -> Seq<char> {
    if line.len() > 0 && line.last() == '\r' {
        line.drop_last()
    } else {
        line
    }
}

/// The lines of a text. A line ends at a line feed, or at a carriage return
/// that a line feed follows; neither belongs to the line. What follows the
/// last line feed is a line too, unless it is empty.
pub open spec fn lines(text: Seq<char>) -> Seq<Seq<char>> {
    let pieces = split(text, '\n');
    let ended = Seq::new((pieces.len() - 1) as nat, |i: int| strip_cr(pieces[i]));
    if pieces.last().len() == 0 {
        ended
    } else {
        ended.push(pieces.last())
    }
}

/// The views of a list of pairs of strings.
pub open spec fn pairs_view(pairs: Seq<(String, String)>) -> Seq<(Seq<char>, Seq<char>)> {
    pairs.map_values(|p: (String, String)| (p.0@, p.1@))
}

/// Whether `c` is one of the ten decimal digits.
pub open spec fn is_digit(c: char) -> bool {
    '0' <= c <= '9'
}

/// Whether `s` holds decimal digits only.
pub open spec fn all_digits(s: Seq<char>) -> bool {
    forall|i: int| 0 <= i < s.len() ==> is_digit(#[trigger] s[i])
}

/// The number that a run of decimal digits writes; leading zeros count for nothing.
pub open spec fn digits_value(s: Seq<char>) -> nat
    decreases s.len(),
{
    if s.len() == 0 {
        0
    } else {
        (digits_value(s.drop_last()) * 10 + (s.last() as nat - 48)) as nat
    }
}

/// The natural number that `s` writes, if it writes one that is at most
/// `max`: an optional `+`, then at least one decimal digit, and nothing else.
pub open spec fn parse_unsigned(s: Seq<char>, max: nat) -> Option<nat> {
    let digits = if s.len() > 0 && s[0] == '+' {
        s.skip(1)
    } else {
        s
    };
    if digits.len() > 0 && all_digits(digits) && digits_value(digits) <= max {
        Some(digits_value(digits))
    } else {
        None
    }
}

/// The integer that `s` writes, if it writes one between `min` and `max`: an
/// optional `+` or `-`, then at least one decimal digit, and nothing else.
pub open spec fn parse_signed(s: Seq<char>, min: int, max: int) -> Option<int> {
    let negative = s.len() > 0 && s[0] == '-';
    let digits = if s.len() > 0 && (s[0] == '+' || s[0] == '-') {
        s.skip(1)
    } else {
        s
    };
    let value = if negative {
        -(digits_value(digits) as int)
    } else {
        digits_value(digits) as int
    };
    if digits.len() > 0 && all_digits(digits) && min <= value <= max {
        Some(value)
    } else {
        None
    }
}

/// Why a text that is no integer of 64 bits is none: it is empty; or the
/// digits at its start, after the sign, already write a number that is too
/// large or too small; or it holds something that is no digit.
pub open spec fn integer_error(s: Seq<char>) -> Seq<char> {
    let negative = s.len() > 0 && s[0] == '-';
    let from: int = if s.len() > 0 && (s[0] == '+' || s[0] == '-') {
        1
    } else {
        0
    };
    let leading = s.subrange(from, skip_while_from(s, |c: char| is_digit(c), from));
    if s.len() == 0 {
        "cannot parse integer from empty string"@
    } else if negative && digits_value(leading) > 0x8000_0000_0000_0000 {
        "number too small to fit in target type"@
    } else if !negative && digits_value(leading) > 0x7fff_ffff_ffff_ffff {
        "number too large to fit in target type"@
    } else {
        "invalid digit found in string"@
    }
}

/// What `first_index_from` finds is the least index at or after `from` that holds `x`.
pub proof fn lemma_first_index_from<T>(s: Seq<T>, x: T, from: int)
    requires
        0 <= from,
    ensures
        match first_index_from(s, x, from) {
            Some(i) => from <= i < s.len() && s[i] == x && forall|j: int|
                from <= j < i ==> s[j] != x,
            None => forall|j: int| from <= j < s.len() ==> s[j] != x,
        },
    decreases s.len() - from,
{
    if from < s.len() && s[from] != x {
        lemma_first_index_from(s, x, from + 1);
    }
}

/// An index that holds `x` with none before it is the one `first_index_from` finds.
pub proof fn lemma_first_index_from_is<T>(s: Seq<T>, x: T, from: int, i: int)
    requires
        0 <= from <= i < s.len(),
        s[i] == x,
        forall|j: int| from <= j < i ==> s[j] != x,
    ensures
        first_index_from(s, x, from) == Some(i),
    decreases i - from,
{
    if from < i {
        lemma_first_index_from_is(s, x, from + 1, i);
    }
}

/// Where no element at or after `from` equals `x`, `first_index_from` finds nothing.
pub proof fn lemma_first_index_from_none<T>(s: Seq<T>, x: T, from: int)
    requires
        0 <= from,
        forall|j: int| from <= j < s.len() ==> s[j] != x,
    ensures
        first_index_from(s, x, from) is None,
    decreases s.len() - from,
{
    if from < s.len() {
        lemma_first_index_from_none(s, x, from + 1);
    }
}

/// Searching a sequence from `from` on is searching what is left after
/// `from` elements were skipped.
pub proof fn lemma_first_index_skip<T>(s: Seq<T>, x: T, from: int)
    requires
        0 <= from <= s.len(),
    ensures
        first_index(s.skip(from), x) == match first_index_from(s, x, from) {
            Some(i) => Some(i - from),
            None => None,
        },
{
    let t = s.skip(from);
    lemma_first_index_from(s, x, from);
    match first_index_from(s, x, from) {
        Some(i) => {
            lemma_first_index_from_is(t, x, 0, i - from);
        },
        None => {
            lemma_first_index_from_none(t, x, 0);
        },
    }
}

/// What `first_match_from` finds is the least index at or after `from` where `pat` stands.
pub proof fn lemma_first_match_from<T>(s: Seq<T>, pat: Seq<T>, from: int)
    requires
        0 <= from,
    ensures
        match first_match_from(s, pat, from) {
            Some(i) => from <= i && occurs_at(s, pat, i) && forall|j: int|
                from <= j < i ==> !occurs_at(s, pat, j),
            None => forall|j: int| from <= j ==> !occurs_at(s, pat, j),
        },
    decreases s.len() + 1 - from,
{
    if from + pat.len() <= s.len() && !occurs_at(s, pat, from) {
        lemma_first_match_from(s, pat, from + 1);
    }
}

/// An index where `pat` stands with none before it is the one `first_match_from` finds.
pub proof fn lemma_first_match_from_is<T>(s: Seq<T>, pat: Seq<T>, from: int, i: int)
    requires
        0 <= from <= i,
        occurs_at(s, pat, i),
        forall|j: int| from <= j < i ==> !occurs_at(s, pat, j),
    ensures
        first_match_from(s, pat, from) == Some(i),
    decreases i - from,
{
    if from < i {
        lemma_first_match_from_is(s, pat, from + 1, i);
    }
}

/// Where `pat` stands nowhere at or after `from`, `first_match_from` finds nothing.
pub proof fn lemma_first_match_from_none<T>(s: Seq<T>, pat: Seq<T>, from: int)
    requires
        0 <= from,
        forall|j: int| from <= j ==> !occurs_at(s, pat, j),
    ensures
        first_match_from(s, pat, from) is None,
    decreases s.len() + 1 - from,
{
    if from + pat.len() <= s.len() {
        lemma_first_match_from_none(s, pat, from + 1);
    }
}

/// Unfolds `split_from` once at a position where the next `x` is known.
pub proof fn lemma_split_from_step<T>(s: Seq<T>, x: T, from: int)
    requires
        0 <= from <= s.len(),
    ensures
        match first_index_from(s, x, from) {
            Some(i) => from <= i < s.len() && split_from(s, x, from) == seq![
                s.subrange(from, i),
            ] + split_from(s, x, i + 1),
            None => split_from(s, x, from) == seq![s.subrange(from, s.len() as int)],
        },
{
    lemma_first_index_from(s, x, from);
}

/// `split_from` yields at least one piece.
pub proof fn lemma_split_from_nonempty<T>(s: Seq<T>, x: T, from: int)
    requires
        0 <= from <= s.len(),
    ensures
        split_from(s, x, from).len() >= 1,
{
    lemma_first_index_from(s, x, from);
}

/// The number that a run of digits writes is at least the number that any
/// shorter run at its start writes.
pub proof fn lemma_digits_value_grows(s: Seq<char>, k: int)
    requires
        0 <= k <= s.len(),
        all_digits(s),
    ensures
        digits_value(s.take(k)) <= digits_value(s),
    decreases s.len(),
{
    if k < s.len() {
        lemma_digits_value_grows(s.drop_last(), k);
        assert(s.drop_last().take(k) =~= s.take(k));
    } else {
        assert(s.take(k) =~= s);
    }
}

/// A text that neither begins nor ends with whitespace is left as it is.
pub proof fn lemma_trim_keeps(s: Seq<char>)
    requires
        s.len() > 0 ==> !whitespace(s[0]) && !whitespace(s.last()),
    ensures
        trim(s) == s,
{
}

/// What is left of a text that holds whitespace only at its start and at its
/// end is what stands between.
pub proof fn lemma_trim_between(before: Seq<char>, kept: Seq<char>, after: Seq<char>)
    requires
        forall|i: int| 0 <= i < before.len() ==> whitespace(#[trigger] before[i]),
        forall|i: int| 0 <= i < after.len() ==> whitespace(#[trigger] after[i]),
        kept.len() > 0 ==> !whitespace(kept[0]) && !whitespace(kept.last()),
    ensures
        trim(before + kept + after) == kept,
{
    let s = before + kept + after;
    let skip = |c: char| whitespace(c);
    lemma_skip_while_run(s, skip, 0, before.len() as int);
    if kept.len() == 0 {
        lemma_skip_while_run(s, skip, before.len() as int, s.len() as int);
        assert(trim(s) =~= kept);
    } else {
        lemma_skip_back_run(s, skip, before.len() as int, (before.len() + kept.len()) as int, s.len() as int);
        assert(trim(s) =~= kept);
    }
}

/// A run of elements to skip is skipped whole: from its start the skipping
/// reaches its end, and goes on from there.
pub proof fn lemma_skip_while_run<T>(s: Seq<T>, skip: spec_fn(T) -> bool, from: int, to: int)
    requires
        0 <= from <= to <= s.len(),
        forall|i: int| from <= i < to ==> skip(#[trigger] s[i]),
    ensures
        skip_while_from(s, skip, from) == skip_while_from(s, skip, to),
    decreases to - from,
{
    if from < to {
        lemma_skip_while_run(s, skip, from + 1, to);
    }
}

/// A run of elements to skip at the end is skipped whole, going backwards.
pub proof fn lemma_skip_back_run<T>(
    s: Seq<T>,
    skip: spec_fn(T) -> bool,
    floor: int,
    from: int,
    to: int,
)
    requires
        0 <= floor < from <= to <= s.len(),
        forall|i: int| from <= i < to ==> skip(#[trigger] s[i]),
    ensures
        skip_back_while(s, skip, floor, to) == skip_back_while(s, skip, floor, from),
    decreases to - from,
{
    if from < to {
        lemma_skip_back_run(s, skip, floor, from, to - 1);
    }
}

/// Decimal text holds digits only, and writes the number it was made from.
pub proof fn lemma_decimal_digits(n: nat)
    ensures
        decimal(n).len() > 0,
        all_digits(decimal(n)),
        digits_value(decimal(n)) == n,
        decimal(n)[0] != '+',
    decreases n,
{
    if n < 10 {
        let s = decimal(n);
        assert(digits_value(s.drop_last()) == 0);
    } else {
        lemma_decimal_digits(n / 10);
        let front = decimal(n / 10);
        let s = decimal(n);
        assert(s.drop_last() =~= front);
    }
}

/// Reading back the decimal text of a number gives the number.
pub proof fn lemma_parse_decimal(n: nat, max: nat)
    requires
        n <= max,
    ensures
        parse_unsigned(decimal(n), max) == Some(n),
{
    lemma_decimal_digits(n);
}

/// The bytes of two texts written one after the other are the bytes of the
/// first followed by the bytes of the second.
pub proof fn lemma_encode_concat(a: Seq<char>, b: Seq<char>)
    ensures
        vstd::utf8::encode_utf8(a + b) == vstd::utf8::encode_utf8(a) + vstd::utf8::encode_utf8(b),
    decreases a.len(),
{
    if a.len() > 0 {
        lemma_encode_concat(a.drop_first(), b);
        assert((a + b).drop_first() =~= a.drop_first() + b);
    }
}

/// What is found first in a sequence is found first in every sequence that
/// begins with it.
pub proof fn lemma_first_match_extend<T>(s: Seq<T>, pat: Seq<T>, more: Seq<T>)
    requires
        first_match(s, pat) is Some,
    ensures
        first_match(s + more, pat) == first_match(s, pat),
{
    let i = first_match(s, pat).unwrap();
    let t = s + more;
    lemma_first_match_from(s, pat, 0);
    assert(t.subrange(i, i + pat.len()) =~= s.subrange(i, i + pat.len()));
    assert forall|j: int| 0 <= j < i implies !occurs_at(t, pat, j) by {
        assert(t.subrange(j, j + pat.len()) =~= s.subrange(j, j + pat.len()));
        assert(!occurs_at(s, pat, j));
    }
    lemma_first_match_from_is(t, pat, 0, i);
}

/// The characters of a string slice.
pub fn chars_of(s: &str) -> (v: Vec<char>)
    ensures
        v@ == s@,
{
    let mut v: Vec<char> = Vec::new();
    for c in it: s.chars()
        invariant
            v@ == it.seq().take(it.index() as int),
            it.seq() == s@,
    {
        v.push(c);
    }
    v
}

/// The string made of the characters of `chars[from..to]`.
pub fn string_of_range(chars: &[char], from: usize, to: usize) -> (s: String)
    requires
        from <= to <= chars@.len(),
    ensures
        s@ == chars@.subrange(from as int, to as int),
{
    let mut s = String::new();
    let mut i: usize = from;
    while i < to
        invariant
            from <= i <= to <= chars@.len(),
            s@ == chars@.subrange(from as int, i as int),
        decreases to - i,
    {
        s.push(chars[i]);
        i += 1;
    }
    s
}

/// The string made of the characters of `chars`.
pub fn string_of(chars: &[char]) -> (s: String)
    ensures
        s@ == chars@,
{
    let s = string_of_range(chars, 0, chars.len());
    s
}

/// Index of the first `x` in `s` at or after `from`.
pub fn find_char(s: &[char], x: char, from: usize) -> (r: Option<usize>)
    ensures
        match r {
            Some(i) => first_index_from(s@, x, from as int) == Some(i as int) && from <= i
                < s@.len() && s@[i as int] == x,
            None => first_index_from(s@, x, from as int) is None,
        },
{
    let mut i: usize = from;
    while i < s.len()
        invariant
            from <= i,
            forall|j: int| from <= j < i && j < s@.len() ==> s@[j] != x,
        decreases s.len() - i,
    {
        if s[i] == x {
            proof {
                lemma_first_index_from_is(s@, x, from as int, i as int);
            }
            return Some(i);
        }
        i += 1;
    }
    proof {
        lemma_first_index_from_none(s@, x, from as int);
    }
    None
}

/// Index of the first `x` in `s` at or after `from`.
pub fn find_byte(s: &[u8], x: u8, from: usize) -> (r: Option<usize>)
    ensures
        match r {
            Some(i) => first_index_from(s@, x, from as int) == Some(i as int) && from <= i
                < s@.len() && s@[i as int] == x,
            None => first_index_from(s@, x, from as int) is None,
        },
{
    let mut i: usize = from;
    while i < s.len()
        invariant
            from <= i,
            forall|j: int| from <= j < i && j < s@.len() ==> s@[j] != x,
        decreases s.len() - i,
    {
        if s[i] == x {
            proof {
                lemma_first_index_from_is(s@, x, from as int, i as int);
            }
            return Some(i);
        }
        i += 1;
    }
    proof {
        lemma_first_index_from_none(s@, x, from as int);
    }
    None
}

/// Whether `pat` stands in `s` at index `at`.
pub fn chars_match_at(s: &[char], pat: &[char], at: usize) -> (r: bool)
    ensures
        r == occurs_at(s@, pat@, at as int),
{
    if pat.len() > s.len() || at > s.len() - pat.len() {
        return false;
    }
    let mut k: usize = 0;
    while k < pat.len()
        invariant
            k <= pat.len(),
            at + pat.len() <= s.len(),
            forall|j: int| 0 <= j < k ==> s@[at + j] == pat@[j],
        decreases pat.len() - k,
    {
        if s[at + k] != pat[k] {
            return false;
        }
        k += 1;
    }
    assert(s@.subrange(at as int, at + pat@.len()) =~= pat@);
    true
}

/// Whether `pat` stands in `s` at index `at`.
pub fn bytes_match_at(s: &[u8], pat: &[u8], at: usize) -> (r: bool)
    ensures
        r == occurs_at(s@, pat@, at as int),
{
    if pat.len() > s.len() || at > s.len() - pat.len() {
        return false;
    }
    let mut k: usize = 0;
    while k < pat.len()
        invariant
            k <= pat.len(),
            at + pat.len() <= s.len(),
            forall|j: int| 0 <= j < k ==> s@[at + j] == pat@[j],
        decreases pat.len() - k,
    {
        if s[at + k] != pat[k] {
            return false;
        }
        k += 1;
    }
    assert(s@.subrange(at as int, at + pat@.len()) =~= pat@);
    true
}

/// Whether two runs of characters are the same.
pub fn chars_eq(a: &[char], b: &[char]) -> (r: bool)
    ensures
        r == (a@ == b@),
{
    if a.len() != b.len() {
        return false;
    }
    let r = chars_match_at(a, b, 0);
    assert(a@.subrange(0, a@.len() as int) == a@);
    r
}

/// Index of the first occurrence of `pat` in `s`.
pub fn find_chars(s: &[char], pat: &[char]) -> (r: Option<usize>)
    ensures
        match r {
            Some(i) => first_match(s@, pat@) == Some(i as int),
            None => first_match(s@, pat@) is None,
        },
{
    if pat.len() > s.len() {
        proof {
            lemma_first_match_from_none(s@, pat@, 0);
        }
        return None;
    }
    let last: usize = s.len() - pat.len();
    let mut i: usize = 0;
    while i < last
        invariant
            i <= last,
            last == s.len() - pat.len(),
            forall|j: int| 0 <= j < i ==> !occurs_at(s@, pat@, j),
        decreases last - i,
    {
        if chars_match_at(s, pat, i) {
            proof {
                lemma_first_match_from_is(s@, pat@, 0, i as int);
            }
            return Some(i);
        }
        i += 1;
    }
    if chars_match_at(s, pat, last) {
        proof {
            lemma_first_match_from_is(s@, pat@, 0, last as int);
        }
        Some(last)
    } else {
        proof {
            lemma_first_match_from_none(s@, pat@, 0);
        }
        None
    }
}

/// Index of the first occurrence of `pat` in `s`.
pub fn find_bytes(s: &[u8], pat: &[u8]) -> (r: Option<usize>)
    ensures
        match r {
            Some(i) => first_match(s@, pat@) == Some(i as int),
            None => first_match(s@, pat@) is None,
        },
{
    if pat.len() > s.len() {
        proof {
            lemma_first_match_from_none(s@, pat@, 0);
        }
        return None;
    }
    let last: usize = s.len() - pat.len();
    let mut i: usize = 0;
    while i < last
        invariant
            i <= last,
            last == s.len() - pat.len(),
            forall|j: int| 0 <= j < i ==> !occurs_at(s@, pat@, j),
        decreases last - i,
    {
        if bytes_match_at(s, pat, i) {
            proof {
                lemma_first_match_from_is(s@, pat@, 0, i as int);
            }
            return Some(i);
        }
        i += 1;
    }
    if bytes_match_at(s, pat, last) {
        proof {
            lemma_first_match_from_is(s@, pat@, 0, last as int);
        }
        Some(last)
    } else {
        proof {
            lemma_first_match_from_none(s@, pat@, 0);
        }
        None
    }
}

/// Appends `n` in decimal to `s`.
pub fn push_decimal(s: &mut String, n: u64)
    ensures
        final(s)@ == old(s)@ + decimal(n as nat),
    decreases n,
{
    if n >= 10 {
        push_decimal(s, n / 10);
    }
    let d: u8 = (n % 10) as u8;
    s.push((48u8 + d) as char);
}

/// `n` written in decimal.
pub fn u64_to_string(n: u64) -> (s: String)
    ensures
        s@ == decimal(n as nat),
{
    let mut s = String::new();
    push_decimal(&mut s, n);
    s
}

/// `n` written in decimal.
pub fn usize_to_string(n: usize) -> (s: String)
    ensures
        s@ == decimal(n as nat),
{
    u64_to_string(n as u64)
}

/// `i` written in decimal, with a leading `-` when it is negative.
pub fn i64_to_string(i: i64) -> (s: String)
    ensures
        s@ == signed_decimal(i as int),
{
    let mut s = String::new();
    if i < 0 {
        s.push('-');
        let magnitude: u64 = ((-(i + 1)) as u64) + 1;
        push_decimal(&mut s, magnitude);
    } else {
        push_decimal(&mut s, i as u64);
    }
    s
}

/// Whether two string slices hold the same characters.
pub fn str_eq(a: &str, b: &str) -> (r: bool)
    ensures
        r == (a@ == b@),
{
    let x = chars_of(a);
    let y = chars_of(b);
    chars_eq(x.as_slice(), y.as_slice())
}

/// The bounds of `s` without leading and trailing whitespace.
pub fn trim_bounds(s: &[char]) -> (r: (usize, usize))
    ensures
        r.0 <= r.1 <= s@.len(),
        s@.subrange(r.0 as int, r.1 as int) == trim(s@),
{
    let ghost skip = |c: char| whitespace(c);
    let mut start: usize = 0;
    while start < s.len() && crate::bridge::char_is_whitespace(s[start])
        invariant
            start <= s@.len(),
            skip == |c: char| whitespace(c),
            skip_while_from(s@, skip, 0) == skip_while_from(s@, skip, start as int),
        decreases s.len() - start,
    {
        start += 1;
    }
    let mut end: usize = s.len();
    while end > start && crate::bridge::char_is_whitespace(s[end - 1])
        invariant
            start <= end <= s@.len(),
            skip == |c: char| whitespace(c),
            skip_back_while(s@, skip, start as int, s@.len() as int) == skip_back_while(
                s@,
                skip,
                start as int,
                end as int,
            ),
        decreases end,
    {
        end -= 1;
    }
    (start, end)
}

/// The length of `s` without the NUL characters at its end.
pub fn trim_end_nul_len(s: &[char]) -> (end: usize)
    ensures
        end <= s@.len(),
        s@.take(end as int) == trim_end_nul(s@),
{
    let ghost skip = |c: char| c == '\0';
    let mut end: usize = s.len();
    while end > 0 && s[end - 1] == '\0'
        invariant
            end <= s@.len(),
            skip == |c: char| c == '\0',
            skip_back_while(s@, skip, 0, s@.len() as int) == skip_back_while(
                s@,
                skip,
                0,
                end as int,
            ),
        decreases end,
    {
        end -= 1;
    }
    end
}

/// The length of `s[..len]` without the copies of `pat` at its end.
pub fn trim_end_pattern_len(s: &[char], len: usize, pat: &[char]) -> (end: usize)
    requires
        len <= s@.len(),
    ensures
        end <= len,
        s@.take(end as int) == trim_end_pattern(s@.take(len as int), pat@),
{
    let mut end: usize = len;
    if pat.len() == 0 {
        return end;
    }
    while end >= pat.len() && chars_match_at(s, pat, end - pat.len())
        invariant
            end <= len <= s@.len(),
            pat@.len() > 0,
            trim_end_pattern(s@.take(len as int), pat@) == trim_end_pattern(
                s@.take(end as int),
                pat@,
            ),
        decreases end,
    {
        proof {
            let cur = s@.take(end as int);
            assert(cur.take(cur.len() - pat@.len()) =~= s@.take(end - pat@.len()));
        }
        end -= pat.len();
    }
    proof {
        let cur = s@.take(end as int);
        if end >= pat@.len() {
            assert(cur.subrange(cur.len() - pat@.len(), cur.len() as int) =~= s@.subrange(
                end - pat@.len(),
                end as int,
            ));
        }
    }
    end
}

/// The number that the digits `s[from..]` write, if there is at least one
/// digit, nothing but digits, and the number is at most `max`.
fn parse_digits(s: &[char], from: usize, max: u64) -> (r: Option<u64>)
    requires
        from <= s@.len(),
    ensures
        match r {
            Some(n) => s@.len() > from && all_digits(s@.skip(from as int)) && digits_value(
                s@.skip(from as int),
            ) == n && n <= max,
            None => !(s@.len() > from && all_digits(s@.skip(from as int)) && digits_value(
                s@.skip(from as int),
            ) <= max),
        },
{
    let n = s.len();
    if from >= n {
        return None;
    }
    let ghost digits = s@.skip(from as int);
    let mut value: u64 = 0;
    let mut i: usize = from;
    while i < n
        invariant
            from <= i <= n == s@.len(),
            digits == s@.skip(from as int),
            all_digits(digits.take(i - from)),
            value == digits_value(digits.take(i - from)),
            value <= max,
        decreases n - i,
    {
        let c = s[i];
        let ghost next = digits.take(i - from + 1);
        proof {
            assert(next.drop_last() =~= digits.take(i - from));
            assert(next.last() == c);
        }
        if c < '0' || c > '9' {
            return None;
        }
        let d: u64 = (c as u32 - 48) as u64;
        let grown = match value.checked_mul(10) {
            Some(tens) => tens.checked_add(d),
            None => None,
        };
        match grown {
            Some(v) => {
                if v > max {
                    proof {
                        if all_digits(digits) {
                            lemma_digits_value_grows(digits, i - from + 1);
                        }
                    }
                    return None;
                }
                value = v;
            },
            None => {
                proof {
                    if all_digits(digits) {
                        lemma_digits_value_grows(digits, i - from + 1);
                    }
                }
                return None;
            },
        }
        i += 1;
    }
    assert(digits.take(n - from) =~= digits);
    Some(value)
}

/// Reads a `usize` written in decimal: an optional `+`, then digits.
pub fn parse_usize(s: &[char]) -> (r: Option<usize>)
    ensures
        match r {
            Some(n) => parse_unsigned(s@, usize::MAX as nat) == Some(n as nat),
            None => parse_unsigned(s@, usize::MAX as nat) is None,
        },
{
    let from: usize = if s.len() > 0 && s[0] == '+' {
        1
    } else {
        0
    };
    assert(s@.skip(0) =~= s@);
    match parse_digits(s, from, usize::MAX as u64) {
        Some(n) => Some(n as usize),
        None => None,
    }
}

/// Reads an `i64` written in decimal: an optional `+` or `-`, then digits.
pub fn parse_i64(s: &[char]) -> (r: Option<i64>)
    ensures
        match r {
            Some(n) => parse_signed(s@, i64::MIN as int, i64::MAX as int) == Some(n as int),
            None => parse_signed(s@, i64::MIN as int, i64::MAX as int) is None,
        },
{
    let negative = s.len() > 0 && s[0] == '-';
    let from: usize = if s.len() > 0 && (s[0] == '+' || s[0] == '-') {
        1
    } else {
        0
    };
    assert(s@.skip(0) =~= s@);
    if negative {
        match parse_digits(s, from, 0x8000_0000_0000_0000u64) {
            Some(n) => {
                if n == 0x8000_0000_0000_0000u64 {
                    Some(i64::MIN)
                } else {
                    Some(-(n as i64))
                }
            },
            None => None,
        }
    } else {
        match parse_digits(s, from, 0x7fff_ffff_ffff_ffffu64) {
            Some(n) => Some(n as i64),
            None => None,
        }
    }
}

/// Where the run of digits that begins at `from` ends.
fn digits_end(s: &[char], from: usize) -> (end: usize)
    requires
        from <= s@.len(),
    ensures
        from <= end <= s@.len(),
        end == skip_while_from(s@, |c: char| is_digit(c), from as int),
        all_digits(s@.subrange(from as int, end as int)),
{
    let ghost skip = |c: char| is_digit(c);
    let n = s.len();
    let mut end: usize = from;
    while end < n && s[end] >= '0' && s[end] <= '9'
        invariant
            from <= end <= n == s@.len(),
            skip == |c: char| is_digit(c),
            skip_while_from(s@, skip, from as int) == skip_while_from(s@, skip, end as int),
            forall|j: int| from <= j < end ==> is_digit(#[trigger] s@[j]),
        decreases n - end,
    {
        end += 1;
    }
    end
}

/// Reads an `i64` written in decimal, or says why the text is none.
pub fn read_i64(s: &str) -> (r: Result<i64, String>)
    ensures
        match r {
            Ok(n) => parse_signed(s@, i64::MIN as int, i64::MAX as int) == Some(n as int),
            Err(reason) => parse_signed(s@, i64::MIN as int, i64::MAX as int) is None
                && reason@ == integer_error(s@),
        },
{
    let chars = chars_of(s);
    match parse_i64(chars.as_slice()) {
        Some(n) => Ok(n),
        None => {
            let n = chars.len();
            if n == 0 {
                return Err(String::from_str("cannot parse integer from empty string"));
            }
            let negative = chars[0] == '-';
            let from: usize = if chars[0] == '+' || chars[0] == '-' {
                1
            } else {
                0
            };
            let end = digits_end(chars.as_slice(), from);
            let bound: u64 = if negative {
                0x8000_0000_0000_0000u64
            } else {
                0x7fff_ffff_ffff_ffffu64
            };
            let leading = vstd::slice::slice_subrange(chars.as_slice(), 0, end);
            assert(leading@.skip(from as int) =~= chars@.subrange(from as int, end as int));
            let fits = end == from || parse_digits(leading, from, bound).is_some();
            if fits {
                Err(String::from_str("invalid digit found in string"))
            } else if negative {
                Err(String::from_str("number too small to fit in target type"))
            } else {
                Err(String::from_str("number too large to fit in target type"))
            }
        },
    }
}


} // verus!
