//! Character-level text handling: the parsing and formatting of command
//! output on which the rest of the library builds. Every function works on
//! sequences of Unicode scalar values and is specified over `Seq<char>`.
use vstd::prelude::*;

verus! {

// ---------------------------------------------------------------------------
// Specifications
// ---------------------------------------------------------------------------

/// Unicode `White_Space`, the property that `char::is_whitespace` tests.
pub open spec fn is_space(c: char) -> bool {
    let u = c as u32;
    (0x09 <= u && u <= 0x0D) || u == 0x20 || u == 0x85 || u == 0xA0 || u == 0x1680 || (0x2000
        <= u && u <= 0x200A) || u == 0x2028 || u == 0x2029 || u == 0x202F || u == 0x205F || u
        == 0x3000
}

/// The first index `j >= i` with `s[j] == c`, or `s.len()` when there is none.
pub open spec fn next_index_of(s: Seq<char>, i: int, c: char) -> int
    decreases s.len() - i,
{
    if i >= s.len() {
        s.len() as int
    } else if s[i] == c {
        i
    } else {
        next_index_of(s, i + 1, c)
    }
}

/// The first index `j >= i` at which `s[j]` is whitespace, or `s.len()`.
pub open spec fn next_space(s: Seq<char>, i: int) -> int
    decreases s.len() - i,
{
    if i >= s.len() {
        s.len() as int
    } else if is_space(s[i]) {
        i
    } else {
        next_space(s, i + 1)
    }
}

/// `s` without its leading whitespace.
pub open spec fn trim_start(s: Seq<char>) -> Seq<char>
    decreases s.len(),
{
    if s.len() > 0 && is_space(s[0]) {
        trim_start(s.drop_first())
    } else {
        s
    }
}

/// `s` without its trailing whitespace.
pub open spec fn trim_end(s: Seq<char>) -> Seq<char>
    decreases s.len(),
{
    if s.len() > 0 && is_space(s.last()) {
        trim_end(s.drop_last())
    } else {
        s
    }
}

/// `s` without leading and trailing whitespace, as `str::trim` gives it.
pub open spec fn trim(s: Seq<char>) -> Seq<char> {
    trim_end(trim_start(s))
}

/// A line without the carriage return that ended it, if any.
pub open spec fn strip_cr(s: Seq<char>) -> Seq<char> {
    if s.len() > 0 && s.last() == '\r' {
        s.drop_last()
    } else {
        s
    }
}

pub proof fn lemma_next_index_of_bounds(s: Seq<char>, i: int, c: char)
    requires
        0 <= i <= s.len(),
    ensures
        i <= next_index_of(s, i, c) <= s.len(),
        next_index_of(s, i, c) < s.len() ==> s[next_index_of(s, i, c)] == c,
    decreases s.len() - i,
{
    if i < s.len() && s[i] != c {
        lemma_next_index_of_bounds(s, i + 1, c);
    }
}

pub proof fn lemma_next_space_bounds(s: Seq<char>, i: int)
    requires
        0 <= i <= s.len(),
    ensures
        i <= next_space(s, i) <= s.len(),
        next_space(s, i) < s.len() ==> is_space(s[next_space(s, i)]),
        forall|k: int| i <= k < next_space(s, i) ==> !is_space(#[trigger] s[k]),
    decreases s.len() - i,
{
    if i < s.len() && !is_space(s[i]) {
        lemma_next_space_bounds(s, i + 1);
    }
}

/// The lines of `s` from index `i` on, as `str::lines` splits them: at each
/// `'\n'`, with a `'\r'` just before it dropped, and no empty line after a
/// final line ending.
pub open spec fn lines_from(s: Seq<char>, i: int) -> Seq<Seq<char>>
    decreases s.len() - i,
{
    if i < 0 || i >= s.len() {
        Seq::empty()
    } else {
        let j = next_index_of(s, i, '\n');
        if j < i || j > s.len() {
            Seq::empty()
        } else if j == s.len() {
            seq![strip_line(s, i, j)]
        } else {
            seq![strip_line(s, i, j)] + lines_from(s, j + 1)
        }
    }
}

/// The line `s[i..j]`; its carriage return is dropped only where a `'\n'`
/// follows it.
pub open spec fn strip_line(s: Seq<char>, i: int, j: int) -> Seq<char> {
    if j < s.len() {
        strip_cr(s.subrange(i, j))
    } else {
        s.subrange(i, j)
    }
}

/// The character sequences held by a vector of character vectors.
pub open spec fn views(v: Seq<Vec<char>>) -> Seq<Seq<char>> {
    v.map_values(|l: Vec<char>| l@)
}

/// The lines of `s`, as `str::lines` yields them.
pub open spec fn lines(s: Seq<char>) -> Seq<Seq<char>> {
    lines_from(s, 0)
}

/// The whitespace-separated words of `s` from index `i` on.
pub open spec fn words_from(s: Seq<char>, i: int) -> Seq<Seq<char>>
    decreases s.len() - i,
{
    if i < 0 || i >= s.len() {
        Seq::empty()
    } else if is_space(s[i]) {
        words_from(s, i + 1)
    } else {
        let j = next_space(s, i);
        if j <= i || j > s.len() {
            Seq::empty()
        } else {
            seq![s.subrange(i, j)] + words_from(s, j)
        }
    }
}

/// The whitespace-separated words of `s`, as `str::split_whitespace` yields them.
pub open spec fn words(s: Seq<char>) -> Seq<Seq<char>> {
    words_from(s, 0)
}

/// The pieces of `s` from index `i` on, split at every `sep`, empty pieces
/// included, as `str::split` yields them.
pub open spec fn fields_from(s: Seq<char>, i: int, sep: char) -> Seq<Seq<char>>
    decreases s.len() + 1 - i,
{
    if i < 0 || i > s.len() {
        Seq::empty()
    } else {
        let j = next_index_of(s, i, sep);
        if j < i || j >= s.len() {
            seq![s.subrange(i, s.len() as int)]
        } else {
            seq![s.subrange(i, j)] + fields_from(s, j + 1, sep)
        }
    }
}

/// The pieces of `s` split at every `sep`.
pub open spec fn fields(s: Seq<char>, sep: char) -> Seq<Seq<char>> {
    fields_from(s, 0, sep)
}

/// The piece after the first `sep` of `s` and before the next one:
/// `s.split(sep).nth(1)`.
pub open spec fn second_field(s: Seq<char>, sep: char) -> Option<Seq<char>> {
    if fields(s, sep).len() > 1 {
        Some(fields(s, sep)[1])
    } else {
        None
    }
}

/// Whether `needle` occurs in `hay` at index `i`.
pub open spec fn occurs_at(hay: Seq<char>, needle: Seq<char>, i: int) -> bool {
    0 <= i && i + needle.len() <= hay.len() && hay.subrange(i, i + needle.len()) == needle
}

/// Whether `needle` occurs anywhere in `hay`: `str::contains`.
pub open spec fn contains(hay: Seq<char>, needle: Seq<char>) -> bool {
    exists|i: int| occurs_at(hay, needle, i)
}

/// `str::starts_with`.
pub open spec fn starts_with(s: Seq<char>, p: Seq<char>) -> bool {
    occurs_at(s, p, 0)
}

/// `str::ends_with`.
pub open spec fn ends_with(s: Seq<char>, p: Seq<char>) -> bool {
    p.len() <= s.len() && occurs_at(s, p, s.len() - p.len())
}

/// `s` with every trailing copy of the non-empty suffix `p` removed:
/// `str::trim_end_matches`.
pub open spec fn trim_end_matches(s: Seq<char>, p: Seq<char>) -> Seq<char>
    decreases s.len(),
{
    if p.len() > 0 && ends_with(s, p) {
        trim_end_matches(s.subrange(0, s.len() - p.len()), p)
    } else {
        s
    }
}

/// Once every trailing copy of `p` is removed, `s` no longer ends with `p`.
pub proof fn lemma_trim_end_matches_done(s: Seq<char>, p: Seq<char>)
    requires
        p.len() > 0,
    ensures
        !ends_with(trim_end_matches(s, p), p),
        trim_end_matches(s, p).len() <= s.len(),
    decreases s.len(),
{
    if ends_with(s, p) {
        lemma_trim_end_matches_done(s.subrange(0, s.len() - p.len()), p);
    }
}

/// The decimal digit for `d < 10`.
pub open spec fn digit_char(d: nat) -> char {
    if d == 0 {
        '0'
    } else if d == 1 {
        '1'
    } else if d == 2 {
        '2'
    } else if d == 3 {
        '3'
    } else if d == 4 {
        '4'
    } else if d == 5 {
        '5'
    } else if d == 6 {
        '6'
    } else if d == 7 {
        '7'
    } else if d == 8 {
        '8'
    } else {
        '9'
    }
}

/// The decimal representation of `n`, without sign or leading zeros.
pub open spec fn decimal(n: nat) -> Seq<char>
    decreases n,
{
    if n < 10 {
        seq![digit_char(n)]
    } else {
        decimal(n / 10).push(digit_char(n % 10))
    }
}

/// Whether `c` is one of `'0'..='9'`.
pub open spec fn is_digit(c: char) -> bool {
    '0' <= c && c <= '9'
}

/// The value of an ASCII digit.
pub open spec fn digit_value(c: char) -> nat {
    (c as u32 - '0' as u32) as nat
}

/// The value of a sequence of decimal digits, most significant first.
pub open spec fn digits_value(s: Seq<char>) -> nat
    decreases s.len(),
{
    if s.len() == 0 {
        0
    } else {
        digits_value(s.drop_last()) * 10 + digit_value(s.last())
    }
}

/// The digits that `u64::from_str` reads: `s` without one leading `'+'`.
pub open spec fn unsigned_body(s: Seq<char>) -> Seq<char> {
    if s.len() > 0 && s[0] == '+' {
        s.drop_first()
    } else {
        s
    }
}

/// The value that `str::parse::<u64>` (or `u32` with `max == u32::MAX`)
/// accepts: an optional `'+'`, then at least one ASCII digit, and no more
/// than `max`.
pub open spec fn parse_unsigned(s: Seq<char>, max: nat) -> Option<nat> {
    let b = unsigned_body(s);
    if b.len() > 0 && (forall|i: int| 0 <= i < b.len() ==> is_digit(#[trigger] b[i]))
        && digits_value(b) <= max {
        Some(digits_value(b))
    } else {
        None
    }
}

/// `s` with every `from` replaced by `to`.
pub open spec fn replace_char(s: Seq<char>, from: char, to: char) -> Seq<char> {
    s.map_values(|c: char| if c == from { to } else { c })
}

/// The first `n` characters of `s`, or all of them.
pub open spec fn take_chars(s: Seq<char>, n: nat) -> Seq<char> {
    if n <= s.len() {
        s.take(n as int)
    } else {
        s
    }
}

/// The ASCII upper-case form of `c`: `'a'..='z'` become `'A'..='Z'`,
/// other characters are kept.
pub open spec fn ascii_upper(c: char) -> char {
    if 'a' <= c && c <= 'z' {
        ((c as u32) - 32) as char
    } else {
        c
    }
}

/// Whether `c` is an ASCII character.
pub open spec fn is_ascii_char(c: char) -> bool {
    (c as u32) < 128
}

/// The ASCII lower-case form of `c`: `'A'..='Z'` mapped to `'a'..='z'`,
/// every other character unchanged.
pub open spec fn ascii_lower(c: char) -> char {
    if 'A' <= c && c <= 'Z' {
        ((c as u32) + 32) as char
    } else {
        c
    }
}

/// Whether every character of `s` is ASCII.
pub open spec fn is_ascii_text(s: Seq<char>) -> bool {
    forall|i: int| 0 <= i < s.len() ==> is_ascii_char(#[trigger] s[i])
}

/// `s` with each character in ASCII lower case.
pub open spec fn ascii_lowercase(s: Seq<char>) -> Seq<char> {
    s.map_values(|c: char| ascii_lower(c))
}

/// Whether `c` is a lower-case hexadecimal digit.
pub open spec fn is_lower_hex(c: char) -> bool {
    is_digit(c) || ('a' <= c && c <= 'f')
}

/// The lines of `ls` joined with `sep` between them.
pub open spec fn join(parts: Seq<Seq<char>>, sep: Seq<char>) -> Seq<char>
    decreases parts.len(),
{
    if parts.len() == 0 {
        Seq::empty()
    } else if parts.len() == 1 {
        parts[0]
    } else {
        join(parts.drop_last(), sep) + sep + parts.last()
    }
}

proof fn lemma_all_space_trim_start(s: Seq<char>)
    requires
        forall|k: int| 0 <= k < s.len() ==> is_space(#[trigger] s[k]),
    ensures
        trim_start(s).len() == 0,
    decreases s.len(),
{
    if s.len() > 0 {
        assert(is_space(s[0]));
        lemma_all_space_trim_start(s.drop_first());
    }
}

proof fn lemma_words_from_nonempty(s: Seq<char>, i: int, k: int)
    requires
        0 <= i <= k < s.len(),
        !is_space(s[k]),
    ensures
        words_from(s, i).len() > 0,
    decreases s.len() - i,
{
    if is_space(s[i]) {
        lemma_words_from_nonempty(s, i + 1, k);
    } else {
        lemma_next_space_bounds(s, i + 1);
    }
}

/// A line that is not blank has a first word.
pub proof fn lemma_not_blank_has_word(l: Seq<char>)
    requires
        trim(l).len() > 0,
    ensures
        words(l).len() > 0,
{
    if forall|k: int| 0 <= k < l.len() ==> is_space(#[trigger] l[k]) {
        lemma_all_space_trim_start(l);
        assert(trim_start(l) =~= Seq::<char>::empty());
        assert(trim(l).len() == 0);
    } else {
        let k = choose|k: int| 0 <= k < l.len() && !is_space(#[trigger] l[k]);
        lemma_words_from_nonempty(l, 0, k);
    }
}

/// The first `n` items of `s`, or all of them: `Iterator::take`.
pub open spec fn take_at_most<A>(s: Seq<A>, n: int) -> Seq<A> {
    if 0 <= n <= s.len() {
        s.take(n)
    } else if n < 0 {
        Seq::empty()
    } else {
        s
    }
}

/// `s` without its first `n` items, or empty: `Iterator::skip`.
pub open spec fn drop_at_most<A>(s: Seq<A>, n: int) -> Seq<A> {
    if 0 <= n <= s.len() {
        s.skip(n)
    } else if n < 0 {
        s
    } else {
        Seq::empty()
    }
}

/// The item at `n`, if any: `Iterator::nth` and `slice::get`.
pub open spec fn nth<A>(s: Seq<A>, n: int) -> Option<A> {
    if 0 <= n < s.len() {
        Some(s[n])
    } else {
        None
    }
}

/// The characters of `o`, or none.
pub open spec fn or_empty(o: Option<Seq<char>>) -> Seq<char> {
    match o {
        Some(t) => t,
        None => Seq::empty(),
    }
}

/// The number of bytes `c` takes in UTF-8: `char::len_utf8`.
pub open spec fn utf8_width(c: char) -> nat {
    let u = c as u32;
    if u < 0x80 {
        1
    } else if u < 0x800 {
        2
    } else if u < 0x10000 {
        3
    } else {
        4
    }
}

/// The number of bytes `s` takes in UTF-8: `str::len`.
pub open spec fn utf8_len(s: Seq<char>) -> nat
    decreases s.len(),
{
    if s.len() == 0 {
        0
    } else {
        utf8_len(s.drop_last()) + utf8_width(s.last())
    }
}

pub proof fn lemma_utf8_len_prefix(s: Seq<char>, i: int, j: int)
    requires
        0 <= i <= j <= s.len(),
    ensures
        utf8_len(s.take(i)) <= utf8_len(s.take(j)),
    decreases j - i,
{
    if i < j {
        lemma_utf8_len_prefix(s, i, j - 1);
        assert(s.take(j).drop_last() =~= s.take(j - 1));
    }
}

/// A test that a line of command output is searched with.
pub enum LineTest {
    /// The line contains the text.
    Contains(String),
    /// The line contains the first text and not the second.
    ContainsButNot(String, String),
    /// The line contains the first text or the second.
    ContainsEither(String, String),
    /// The line starts with the text.
    StartsWith(String),
    /// The line ends with the text.
    EndsWith(String),
    /// The line holds a character that is not whitespace.
    NotBlank,
    /// The line, trimmed, takes more than five bytes in UTF-8.
    LongerThanFiveBytes,
}

/// A line test, over the characters of its texts.
pub enum LineTestView {
    Contains(Seq<char>),
    ContainsButNot(Seq<char>, Seq<char>),
    ContainsEither(Seq<char>, Seq<char>),
    StartsWith(Seq<char>),
    EndsWith(Seq<char>),
    NotBlank,
    LongerThanFiveBytes,
}

impl View for LineTest {
    type V = LineTestView;

    open spec fn view(&self) -> LineTestView {
        match self {
            LineTest::Contains(p) => LineTestView::Contains(p@),
            LineTest::ContainsButNot(p, q) => LineTestView::ContainsButNot(p@, q@),
            LineTest::ContainsEither(p, q) => LineTestView::ContainsEither(p@, q@),
            LineTest::StartsWith(p) => LineTestView::StartsWith(p@),
            LineTest::EndsWith(p) => LineTestView::EndsWith(p@),
            LineTest::NotBlank => LineTestView::NotBlank,
            LineTest::LongerThanFiveBytes => LineTestView::LongerThanFiveBytes,
        }
    }
}

/// Whether line `l` passes test `t`.
pub open spec fn passes(t: LineTestView, l: Seq<char>) -> bool {
    match t {
        LineTestView::Contains(p) => contains(l, p),
        LineTestView::ContainsButNot(p, q) => contains(l, p) && !contains(l, q),
        LineTestView::ContainsEither(p, q) => contains(l, p) || contains(l, q),
        LineTestView::StartsWith(p) => starts_with(l, p),
        LineTestView::EndsWith(p) => ends_with(l, p),
        LineTestView::NotBlank => trim(l).len() > 0,
        LineTestView::LongerThanFiveBytes => utf8_len(trim(l)) > 5,
    }
}

/// Test `t` as a predicate on lines.
pub open spec fn line_pred(t: LineTestView) -> spec_fn(Seq<char>) -> bool {
    |l: Seq<char>| passes(t, l)
}

/// The index of the first line from `i` on that satisfies `pred`, or -1.
pub open spec fn first_index_from(ls: Seq<Seq<char>>, pred: spec_fn(Seq<char>) -> bool, i: int) -> int
    decreases ls.len() - i,
{
    if i < 0 || i >= ls.len() {
        -1
    } else if pred(ls[i]) {
        i
    } else {
        first_index_from(ls, pred, i + 1)
    }
}

/// The first line that satisfies `pred`: `Iterator::find`.
pub open spec fn find_line(ls: Seq<Seq<char>>, pred: spec_fn(Seq<char>) -> bool) -> Option<
    Seq<char>,
> {
    let k = first_index_from(ls, pred, 0);
    if 0 <= k < ls.len() {
        Some(ls[k])
    } else {
        None
    }
}

/// The trimmed text after the first `':'` of a line and before the next:
/// `l.split(':').nth(1).unwrap_or("").trim()`.
pub open spec fn colon_value(l: Seq<char>) -> Seq<char> {
    trim(or_empty(second_field(l, ':')))
}

// ---------------------------------------------------------------------------
// Conversions between strings and character vectors
// ---------------------------------------------------------------------------

/// Calls `String::push`. Claimed, as its documentation says: the string's
/// characters afterwards are those before, followed by `c`.
#[verifier::external_body]
pub(crate) fn push_char(s: &mut String, c: char)
    ensures
        final(s)@ == old(s)@.push(c),
{
    s.push(c);
}

/// Collects the characters of a string slice into a vector.
pub fn chars_of(s: &str) -> (v: Vec<char>)
    ensures
        v@ == s@,
{
    let mut v: Vec<char> = Vec::new();
    for c in it: s.chars()
        invariant
            v@ == it.seq().take(it.index() as int),
    {
        v.push(c);
    }
    v
}

/// The string made of `v[from..to]`.
pub fn string_of_range(v: &Vec<char>, from: usize, to: usize) -> (s: String)
    requires
        from <= to <= v.len(),
    ensures
        s@ == v@.subrange(from as int, to as int),
{
    let mut s = String::new();
    let mut i = from;
    while i < to
        invariant
            from <= i <= to <= v.len(),
            s@ == v@.subrange(from as int, i as int),
        decreases to - i,
    {
        push_char(&mut s, v[i]);
        i = i + 1;
        assert(s@ =~= v@.subrange(from as int, i as int));
    }
    s
}

/// The string made of all of `v`.
pub fn string_of(v: &Vec<char>) -> (s: String)
    ensures
        s@ == v@,
{
    let s = string_of_range(v, 0, v.len());
    assert(v@.subrange(0, v@.len() as int) =~= v@);
    s
}

/// A copy of `s`.
pub fn copy_string(s: &String) -> (r: String)
    ensures
        r@ == s@,
{
    s.clone()
}

/// The string literal `s` as an owned string.
pub fn owned(s: &str) -> (r: String)
    ensures
        r@ == s@,
{
    let v = chars_of(s);
    string_of(&v)
}

/// Appends `t` to `s`.
pub fn append_str(s: &mut String, t: &str)
    ensures
        final(s)@ == old(s)@ + t@,
{
    s.append(t);
}

/// `a` followed by `b`.
pub fn concat2(a: &str, b: &str) -> (r: String)
    ensures
        r@ == a@ + b@,
{
    let mut r = owned(a);
    r.append(b);
    r
}

/// `a`, `b` and `c` one after the other.
pub fn concat3(a: &str, b: &str, c: &str) -> (r: String)
    ensures
        r@ == a@ + b@ + c@,
{
    let mut r = owned(a);
    r.append(b);
    r.append(c);
    r
}

// ---------------------------------------------------------------------------
// Character tests
// ---------------------------------------------------------------------------

/// `char::is_whitespace`.
pub fn is_space_char(c: char) -> (b: bool)
    ensures
        b == is_space(c),
{
    let u = c as u32;
    (0x09 <= u && u <= 0x0D) || u == 0x20 || u == 0x85 || u == 0xA0 || u == 0x1680 || (0x2000
        <= u && u <= 0x200A) || u == 0x2028 || u == 0x2029 || u == 0x202F || u == 0x205F || u
        == 0x3000
}

// ---------------------------------------------------------------------------
// Trimming
// ---------------------------------------------------------------------------

proof fn lemma_trim_start_skip(s: Seq<char>, i: int)
    requires
        0 <= i < s.len(),
        is_space(s[i]),
    ensures
        trim_start(s.subrange(i, s.len() as int)) == trim_start(s.subrange(i + 1, s.len() as int)),
{
    assert(s.subrange(i, s.len() as int).drop_first() =~= s.subrange(i + 1, s.len() as int));
}

proof fn lemma_trim_end_skip(s: Seq<char>, j: int)
    requires
        0 < j <= s.len(),
        is_space(s[j - 1]),
    ensures
        trim_end(s.subrange(0, j)) == trim_end(s.subrange(0, j - 1)),
{
    assert(s.subrange(0, j).drop_last() =~= s.subrange(0, j - 1));
}

/// The bounds `(lo, hi)` of `v` without its leading and trailing whitespace.
pub fn trim_bounds(v: &Vec<char>) -> (r: (usize, usize))
    ensures
        r.0 <= r.1 <= v.len(),
        v@.subrange(r.0 as int, r.1 as int) == trim(v@),
{
    let n = v.len();
    let mut lo: usize = 0;
    assert(v@.subrange(0, n as int) =~= v@);
    while lo < n && is_space_char(v[lo])
        invariant
            lo <= n == v.len(),
            trim_start(v@) == trim_start(v@.subrange(lo as int, n as int)),
        decreases n - lo,
    {
        proof {
            lemma_trim_start_skip(v@, lo as int);
        }
        lo = lo + 1;
    }
    let ghost t = v@.subrange(lo as int, n as int);
    assert(trim_start(v@) == t);
    let mut hi: usize = n;
    assert(t.subrange(0, (n - lo) as int) =~= t);
    while hi > lo && is_space_char(v[hi - 1])
        invariant
            lo <= hi <= n == v.len(),
            t == v@.subrange(lo as int, n as int),
            trim_end(t) == trim_end(t.subrange(0, (hi - lo) as int)),
        decreases hi,
    {
        proof {
            lemma_trim_end_skip(t, (hi - lo) as int);
        }
        hi = hi - 1;
    }
    assert(t.subrange(0, (hi - lo) as int) =~= v@.subrange(lo as int, hi as int));
    (lo, hi)
}

/// `str::trim` on a character vector's range `v[from..to]`.
pub fn trim_range(v: &Vec<char>, from: usize, to: usize) -> (s: String)
    requires
        from <= to <= v.len(),
    ensures
        s@ == trim(v@.subrange(from as int, to as int)),
{
    let mut w: Vec<char> = Vec::new();
    let mut i = from;
    while i < to
        invariant
            from <= i <= to <= v.len(),
            w@ == v@.subrange(from as int, i as int),
        decreases to - i,
    {
        w.push(v[i]);
        i = i + 1;
        assert(w@ =~= v@.subrange(from as int, i as int));
    }
    let (lo, hi) = trim_bounds(&w);
    string_of_range(&w, lo, hi)
}

/// `str::trim`, giving an owned string.
pub fn trim_str(s: &str) -> (r: String)
    ensures
        r@ == trim(s@),
{
    let v = chars_of(s);
    let (lo, hi) = trim_bounds(&v);
    string_of_range(&v, lo, hi)
}

// ---------------------------------------------------------------------------
// Searching
// ---------------------------------------------------------------------------

/// Whether `needle` occurs in `hay` at index `i`.
pub fn occurs_at_exec(hay: &Vec<char>, needle: &Vec<char>, i: usize) -> (b: bool)
    ensures
        b == occurs_at(hay@, needle@, i as int),
{
    if i > hay.len() || needle.len() > hay.len() - i {
        return false;
    }
    let mut k: usize = 0;
    while k < needle.len()
        invariant
            i + needle.len() <= hay.len(),
            k <= needle.len(),
            forall|m: int| 0 <= m < k ==> hay@[i + m] == needle@[m],
        decreases needle.len() - k,
    {
        if hay[i + k] != needle[k] {
            assert(hay@.subrange(i as int, i + needle.len())[k as int] != needle@[k as int]);
            return false;
        }
        k = k + 1;
    }
    assert(hay@.subrange(i as int, i + needle.len()) =~= needle@);
    true
}

/// `str::contains` on character vectors.
pub fn contains_exec(hay: &Vec<char>, needle: &Vec<char>) -> (b: bool)
    ensures
        b == contains(hay@, needle@),
{
    if needle.len() > hay.len() {
        assert forall|i: int| !occurs_at(hay@, needle@, i) by {}
        return false;
    }
    let last = hay.len() - needle.len();
    let mut i: usize = 0;
    loop
        invariant
            last + needle.len() == hay.len(),
            i <= last,
            forall|j: int| 0 <= j < i ==> !occurs_at(hay@, needle@, j),
        ensures
            forall|j: int| 0 <= j <= last ==> !occurs_at(hay@, needle@, j),
        decreases last - i,
    {
        if occurs_at_exec(hay, needle, i) {
            return true;
        }
        if i == last {
            break;
        }
        i = i + 1;
    }
    assert forall|j: int| !occurs_at(hay@, needle@, j) by {
        if occurs_at(hay@, needle@, j) {
            assert(0 <= j <= last);
        }
    }
    false
}

/// `str::contains`.
pub fn str_contains(hay: &str, needle: &str) -> (b: bool)
    ensures
        b == contains(hay@, needle@),
{
    let h = chars_of(hay);
    let n = chars_of(needle);
    contains_exec(&h, &n)
}

/// `str::starts_with` on character vectors.
pub fn starts_with_exec(s: &Vec<char>, p: &Vec<char>) -> (b: bool)
    ensures
        b == starts_with(s@, p@),
{
    occurs_at_exec(s, p, 0)
}

/// `str::ends_with` on character vectors.
pub fn ends_with_exec(s: &Vec<char>, p: &Vec<char>) -> (b: bool)
    ensures
        b == ends_with(s@, p@),
{
    if p.len() > s.len() {
        false
    } else {
        occurs_at_exec(s, p, s.len() - p.len())
    }
}

/// `str::ends_with`.
pub fn str_ends_with(s: &str, p: &str) -> (b: bool)
    ensures
        b == ends_with(s@, p@),
{
    let sv = chars_of(s);
    let pv = chars_of(p);
    ends_with_exec(&sv, &pv)
}

/// `str::starts_with`.
pub fn str_starts_with(s: &str, p: &str) -> (b: bool)
    ensures
        b == starts_with(s@, p@),
{
    let sv = chars_of(s);
    let pv = chars_of(p);
    starts_with_exec(&sv, &pv)
}

/// Whether two strings hold the same characters.
pub fn str_eq(a: &str, b: &str) -> (r: bool)
    ensures
        r == (a@ == b@),
{
    let av = chars_of(a);
    let bv = chars_of(b);
    if av.len() != bv.len() {
        assert(av@.len() != bv@.len());
        return false;
    }
    let mut i: usize = 0;
    while i < av.len()
        invariant
            av.len() == bv.len(),
            av@ == a@,
            bv@ == b@,
            i <= av.len(),
            forall|k: int| 0 <= k < i ==> av@[k] == bv@[k],
        decreases av.len() - i,
    {
        if av[i] != bv[i] {
            assert(av@[i as int] != bv@[i as int]);
            return false;
        }
        i = i + 1;
    }
    assert(av@ =~= bv@);
    true
}

// ---------------------------------------------------------------------------
// Lines, words and fields
// ---------------------------------------------------------------------------

/// The index of the next `c` in `v` from `i` on, or `v.len()`.
pub fn find_char_from(v: &Vec<char>, i: usize, c: char) -> (j: usize)
    requires
        i <= v.len(),
    ensures
        j == next_index_of(v@, i as int, c),
        i <= j <= v.len(),
{
    let mut j = i;
    while j < v.len() && v[j] != c
        invariant
            i <= j <= v.len(),
            next_index_of(v@, i as int, c) == next_index_of(v@, j as int, c),
        decreases v.len() - j,
    {
        j = j + 1;
    }
    j
}

/// The line `v[i..j]`, its carriage return dropped where `j` holds a `'\n'`.
fn line_at(v: &Vec<char>, i: usize, j: usize) -> (l: Vec<char>)
    requires
        i <= j <= v.len(),
    ensures
        l@ == strip_line(v@, i as int, j as int),
{
    let mut end = j;
    if j < v.len() && j > i && v[j - 1] == '\r' {
        end = j - 1;
    }
    let mut l: Vec<char> = Vec::new();
    let mut k = i;
    while k < end
        invariant
            i <= k <= end <= j <= v.len(),
            l@ == v@.subrange(i as int, k as int),
        decreases end - k,
    {
        l.push(v[k]);
        k = k + 1;
        assert(l@ =~= v@.subrange(i as int, k as int));
    }
    assert(l@ =~= strip_line(v@, i as int, j as int));
    l
}

/// The lines of `v`, as `str::lines` yields them.
pub fn lines_of(v: &Vec<char>) -> (out: Vec<Vec<char>>)
    ensures
        views(out@) == lines(v@),
{
    let mut out: Vec<Vec<char>> = Vec::new();
    let mut i: usize = 0;
    while i < v.len()
        invariant
            i <= v.len(),
            lines(v@) == views(out@) + lines_from(v@, i as int),
        decreases v.len() - i,
    {
        let j = find_char_from(v, i, '\n');
        let l = line_at(v, i, j);
        let ghost before = views(out@);
        out.push(l);
        assert(views(out@) =~= before.push(l@));
        if j == v.len() {
            assert(lines_from(v@, i as int) == seq![l@]);
            assert(lines(v@) =~= views(out@) + lines_from(v@, j as int));
            i = j;
        } else {
            assert(lines_from(v@, i as int) == seq![l@] + lines_from(v@, j + 1));
            assert(lines(v@) =~= views(out@) + lines_from(v@, j + 1));
            i = j + 1;
        }
    }
    assert(lines_from(v@, i as int) =~= Seq::<Seq<char>>::empty());
    assert(lines(v@) =~= views(out@));
    out
}

/// The index of the next whitespace in `v` from `i` on, or `v.len()`.
fn find_space_from(v: &Vec<char>, i: usize) -> (j: usize)
    requires
        i <= v.len(),
    ensures
        j == next_space(v@, i as int),
        i <= j <= v.len(),
{
    let mut j = i;
    while j < v.len() && !is_space_char(v[j])
        invariant
            i <= j <= v.len(),
            next_space(v@, i as int) == next_space(v@, j as int),
        decreases v.len() - j,
    {
        j = j + 1;
    }
    j
}

/// The whitespace-separated words of `v`, as `str::split_whitespace`
/// yields them.
pub fn words_of(v: &Vec<char>) -> (out: Vec<Vec<char>>)
    ensures
        views(out@) == words(v@),
{
    let mut out: Vec<Vec<char>> = Vec::new();
    let mut i: usize = 0;
    while i < v.len()
        invariant
            i <= v.len(),
            words(v@) == views(out@) + words_from(v@, i as int),
        decreases v.len() - i,
    {
        if is_space_char(v[i]) {
            i = i + 1;
        } else {
            let j = find_space_from(v, i);
            proof {
                lemma_next_space_bounds(v@, i + 1);
            }
            let mut w: Vec<char> = Vec::new();
            let mut k = i;
            while k < j
                invariant
                    i <= k <= j <= v.len(),
                    w@ == v@.subrange(i as int, k as int),
                decreases j - k,
            {
                w.push(v[k]);
                k = k + 1;
                assert(w@ =~= v@.subrange(i as int, k as int));
            }
            let ghost before = views(out@);
            out.push(w);
            assert(views(out@) =~= before.push(w@));
            assert(words(v@) =~= views(out@) + words_from(v@, j as int));
            i = j;
        }
    }
    assert(words_from(v@, i as int) =~= Seq::<Seq<char>>::empty());
    assert(words(v@) =~= views(out@));
    out
}

/// `s.split(sep).nth(1)` on a character vector.
pub fn second_field_of(v: &Vec<char>, sep: char) -> (r: Option<Vec<char>>)
    ensures
        r matches Some(f) ==> second_field(v@, sep) == Some(f@),
        r is None ==> second_field(v@, sep) is None,
{
    let p = find_char_from(v, 0, sep);
    if p == v.len() {
        assert(fields(v@, sep) =~= seq![v@.subrange(0, v@.len() as int)]);
        return None;
    }
    let q = find_char_from(v, p + 1, sep);
    let mut f: Vec<char> = Vec::new();
    let mut k = p + 1;
    while k < q
        invariant
            p + 1 <= k <= q <= v.len(),
            f@ == v@.subrange(p + 1, k as int),
        decreases q - k,
    {
        f.push(v[k]);
        k = k + 1;
        assert(f@ =~= v@.subrange(p + 1, k as int));
    }
    assert(fields(v@, sep) == seq![v@.subrange(0, p as int)] + fields_from(v@, p + 1, sep));
    assert(fields_from(v@, p + 1, sep)[0] == v@.subrange(p + 1, q as int));
    Some(f)
}

// ---------------------------------------------------------------------------
// Numbers
// ---------------------------------------------------------------------------

/// The digit character for `d < 10`.
pub fn digit_of(d: u64) -> (c: char)
    requires
        d < 10,
    ensures
        c == digit_char(d as nat),
{
    if d == 0 {
        '0'
    } else if d == 1 {
        '1'
    } else if d == 2 {
        '2'
    } else if d == 3 {
        '3'
    } else if d == 4 {
        '4'
    } else if d == 5 {
        '5'
    } else if d == 6 {
        '6'
    } else if d == 7 {
        '7'
    } else if d == 8 {
        '8'
    } else {
        '9'
    }
}

/// Appends the decimal representation of `n` to `s`.
pub fn push_decimal(s: &mut String, n: u64)
    ensures
        final(s)@ == old(s)@ + decimal(n as nat),
    decreases n,
{
    if n < 10 {
        push_char(s, digit_of(n));
        assert(final(s)@ =~= old(s)@ + decimal(n as nat)) by {
            assert(decimal(n as nat) == seq![digit_char(n as nat)]);
        }
    } else {
        push_decimal(s, n / 10);
        push_char(s, digit_of(n % 10));
        assert(final(s)@ =~= old(s)@ + decimal(n as nat)) by {
            assert(decimal(n as nat) == decimal((n / 10) as nat).push(digit_char((n % 10) as nat)));
        }
    }
}

/// The decimal representation of `n`: `u64::to_string`.
pub fn decimal_string(n: u64) -> (s: String)
    ensures
        s@ == decimal(n as nat),
{
    let mut s = String::new();
    push_decimal(&mut s, n);
    assert(s@ =~= decimal(n as nat));
    s
}

proof fn lemma_digits_value_prefix(b: Seq<char>, i: int, j: int)
    requires
        0 <= i <= j <= b.len(),
    ensures
        digits_value(b.take(i)) <= digits_value(b.take(j)),
    decreases j - i,
{
    if i < j {
        lemma_digits_value_prefix(b, i, j - 1);
        assert(b.take(j).drop_last() =~= b.take(j - 1));
    }
}

/// `str::parse::<u64>` (with `max == u64::MAX`) or `str::parse::<u32>`
/// (with `max == u32::MAX`), on a character vector.
pub fn parse_unsigned_exec(v: &Vec<char>, max: u64) -> (r: Option<u64>)
    ensures
        r matches Some(n) ==> parse_unsigned(v@, max as nat) == Some(n as nat),
        r is None ==> parse_unsigned(v@, max as nat) is None,
{
    let start: usize = if v.len() > 0 && v[0] == '+' {
        1
    } else {
        0
    };
    let ghost b = unsigned_body(v@);
    assert(b =~= v@.subrange(start as int, v@.len() as int));
    if start == v.len() {
        return None;
    }
    let mut acc: u64 = 0;
    let mut i = start;
    while i < v.len()
        invariant
            start <= i <= v.len(),
            start < v.len(),
            b == v@.subrange(start as int, v@.len() as int),
            b == unsigned_body(v@),
            forall|k: int| 0 <= k < i - start ==> is_digit(#[trigger] b[k]),
            acc as nat == digits_value(b.take(i - start)),
            acc <= max,
        decreases v.len() - i,
    {
        let c = v[i];
        assert(b[i - start] == v@[i as int]);
        if !('0' <= c && c <= '9') {
            assert(!is_digit(b[i - start]));
            return None;
        }
        let d = (c as u32 - '0' as u32) as u64;
        assert(b.take(i + 1 - start).drop_last() =~= b.take(i - start));
        assert(b.take(i + 1 - start).last() == c);
        if d > max || acc > (max - d) / 10 {
            proof {
                assert(digits_value(b.take(i + 1 - start)) == acc * 10 + d);
                assert(acc * 10 + d > max) by (nonlinear_arith)
                    requires
                        d > max || acc > (max - d) / 10,
                        d <= 9,
                ;
                lemma_digits_value_prefix(b, i + 1 - start, b.len() as int);
                assert(b.take(b.len() as int) =~= b);
            }
            return None;
        }
        assert(acc * 10 + d <= max) by (nonlinear_arith)
            requires
                acc <= (max - d) / 10,
                d <= 9,
                d <= max,
        ;
        acc = acc * 10 + d;
        i = i + 1;
    }
    assert(b.take(b.len() as int) =~= b);
    Some(acc)
}

// ---------------------------------------------------------------------------
// Other transformations
// ---------------------------------------------------------------------------

/// `s.trim_end_matches(p)` for a non-empty pattern `p`.
pub fn trim_end_matches_exec(s: &Vec<char>, p: &Vec<char>) -> (r: Vec<char>)
    requires
        p.len() > 0,
    ensures
        r@ == trim_end_matches(s@, p@),
{
    let mut end = s.len();
    assert(s@.subrange(0, end as int) =~= s@);
    loop
        invariant
            end <= s.len(),
            p.len() > 0,
            trim_end_matches(s@, p@) == trim_end_matches(s@.subrange(0, end as int), p@),
        ensures
            end <= s.len(),
            trim_end_matches(s@, p@) == s@.subrange(0, end as int),
        decreases end,
    {
        let ghost cur = s@.subrange(0, end as int);
        if p.len() > end {
            assert(!ends_with(cur, p@));
            break;
        }
        let k = end - p.len();
        if !occurs_at_exec(s, p, k) {
            assert(!ends_with(cur, p@)) by {
                if ends_with(cur, p@) {
                    assert(cur.subrange(k as int, end as int) =~= s@.subrange(k as int, k + p.len()));
                }
            }
            break;
        }
        assert(ends_with(cur, p@)) by {
            assert(cur.subrange(k as int, end as int) =~= s@.subrange(k as int, k + p.len()));
        }
        assert(cur.subrange(0, k as int) =~= s@.subrange(0, k as int));
        end = k;
    }
    let mut r: Vec<char> = Vec::new();
    let mut i: usize = 0;
    while i < end
        invariant
            end <= s.len(),
            i <= end,
            r@ == s@.subrange(0, i as int),
        decreases end - i,
    {
        r.push(s[i]);
        i = i + 1;
        assert(r@ =~= s@.subrange(0, i as int));
    }
    r
}

/// `s` with every `from` replaced by `to`.
pub fn replace_char_exec(s: &Vec<char>, from: char, to: char) -> (r: Vec<char>)
    ensures
        r@ == replace_char(s@, from, to),
{
    let mut r: Vec<char> = Vec::new();
    let mut i: usize = 0;
    while i < s.len()
        invariant
            i <= s.len(),
            r@ == replace_char(s@.subrange(0, i as int), from, to),
        decreases s.len() - i,
    {
        let c = if s[i] == from {
            to
        } else {
            s[i]
        };
        r.push(c);
        i = i + 1;
        assert(r@ =~= replace_char(s@.subrange(0, i as int), from, to));
    }
    assert(s@.subrange(0, i as int) =~= s@);
    r
}

/// `char::to_ascii_uppercase`.
pub fn ascii_upper_char(c: char) -> (r: char)
    ensures
        r == ascii_upper(c),
{
    if 'a' <= c && c <= 'z' {
        let b = (c as u32 - 32) as u8;
        assert(b as u32 == c as u32 - 32);
        b as char
    } else {
        c
    }
}

/// `s` joined with `sep` between its parts.
pub fn join_exec(parts: &Vec<Vec<char>>, sep: &Vec<char>) -> (r: Vec<char>)
    ensures
        r@ == join(views(parts@), sep@),
{
    let mut r: Vec<char> = Vec::new();
    let mut i: usize = 0;
    while i < parts.len()
        invariant
            i <= parts.len(),
            r@ == join(views(parts@).take(i as int), sep@),
        decreases parts.len() - i,
    {
        let ghost prev = r@;
        if i > 0 {
            let mut k: usize = 0;
            while k < sep.len()
                invariant
                    k <= sep.len(),
                    r@ == prev + sep@.take(k as int),
                decreases sep.len() - k,
            {
                r.push(sep[k]);
                k = k + 1;
                assert(r@ =~= prev + sep@.take(k as int));
            }
            assert(sep@.take(sep.len() as int) =~= sep@);
        }
        let ghost mid = r@;
        let part = &parts[i];
        let mut k: usize = 0;
        while k < part.len()
            invariant
                k <= part.len(),
                r@ == mid + part@.take(k as int),
            decreases part.len() - k,
        {
            r.push(part[k]);
            k = k + 1;
            assert(r@ =~= mid + part@.take(k as int));
        }
        assert(part@.take(part.len() as int) =~= part@);
        let ghost dv = views(parts@);
        assert(dv.take(i + 1).drop_last() =~= dv.take(i as int));
        assert(dv.take(i + 1).last() == part@);
        if i == 0 {
            assert(r@ =~= join(dv.take(1), sep@));
        }
        i = i + 1;
    }
    assert(views(parts@).take(i as int) =~= views(parts@));
    r
}


// ---------------------------------------------------------------------------
// Searching lines
// ---------------------------------------------------------------------------

/// Whether line `l` passes test `t`.
pub fn passes_exec(t: &LineTest, l: &Vec<char>) -> (b: bool)
    ensures
        b == passes(t@, l@),
{
    match t {
        LineTest::Contains(p) => contains_exec(l, &chars_of(p.as_str())),
        LineTest::ContainsButNot(p, q) => contains_exec(l, &chars_of(p.as_str())) && !contains_exec(
            l,
            &chars_of(q.as_str()),
        ),
        LineTest::ContainsEither(p, q) => contains_exec(l, &chars_of(p.as_str())) || contains_exec(
            l,
            &chars_of(q.as_str()),
        ),
        LineTest::StartsWith(p) => starts_with_exec(l, &chars_of(p.as_str())),
        LineTest::EndsWith(p) => ends_with_exec(l, &chars_of(p.as_str())),
        LineTest::NotBlank => {
            let (lo, hi) = trim_bounds(l);
            lo < hi
        },
        LineTest::LongerThanFiveBytes => {
            let (lo, hi) = trim_bounds(l);
            utf8_len_exceeds(l, lo, hi, 5)
        },
    }
}

/// Whether `v[lo..hi]` takes more than `limit` bytes in UTF-8.
pub fn utf8_len_exceeds(v: &Vec<char>, lo: usize, hi: usize, limit: u64) -> (b: bool)
    requires
        lo <= hi <= v.len(),
    ensures
        b == (utf8_len(v@.subrange(lo as int, hi as int)) > limit),
{
    let ghost t = v@.subrange(lo as int, hi as int);
    let mut n: u64 = 0;
    let mut i = lo;
    while i < hi
        invariant
            lo <= i <= hi <= v.len(),
            t == v@.subrange(lo as int, hi as int),
            n as nat == utf8_len(t.take(i - lo)),
            n <= limit,
        decreases hi - i,
    {
        let u = v[i] as u32;
        let w: u64 = if u < 0x80 {
            1
        } else if u < 0x800 {
            2
        } else if u < 0x10000 {
            3
        } else {
            4
        };
        assert(t.take(i + 1 - lo).drop_last() =~= t.take(i - lo));
        assert(t.take(i + 1 - lo).last() == v@[i as int]);
        if w > limit - n {
            proof {
                lemma_utf8_len_prefix(t, i + 1 - lo, t.len() as int);
                assert(t.take(t.len() as int) =~= t);
            }
            return true;
        }
        n = n + w;
        i = i + 1;
    }
    assert(t.take(i - lo) =~= t);
    false
}

/// The index of the first line that passes `t`.
pub fn first_passing(ls: &Vec<Vec<char>>, t: &LineTest) -> (r: Option<usize>)
    ensures
        r matches Some(k) ==> k < ls.len() && first_index_from(views(ls@), line_pred(t@), 0) == k,
        r is None ==> first_index_from(views(ls@), line_pred(t@), 0) == -1,
        find_line(views(ls@), line_pred(t@)) == (match r {
            Some(k) => Some(ls@[k as int]@),
            None => None,
        }),
{
    let ghost v = views(ls@);
    let mut i: usize = 0;
    while i < ls.len()
        invariant
            i <= ls.len(),
            v == views(ls@),
            first_index_from(v, line_pred(t@), 0) == first_index_from(v, line_pred(t@), i as int),
        decreases ls.len() - i,
    {
        if passes_exec(t, &ls[i]) {
            assert(v[i as int] == ls@[i as int]@);
            return Some(i);
        }
        assert(v[i as int] == ls@[i as int]@);
        i = i + 1;
    }
    None
}

/// The lines that pass `t`: `Iterator::filter`.
pub fn filter_passing(ls: &Vec<Vec<char>>, t: &LineTest) -> (r: Vec<Vec<char>>)
    ensures
        views(r@) == views(ls@).filter(line_pred(t@)),
{
    let ghost v = views(ls@);
    let mut r: Vec<Vec<char>> = Vec::new();
    let mut i: usize = 0;
    while i < ls.len()
        invariant
            i <= ls.len(),
            v == views(ls@),
            views(r@) == v.take(i as int).filter(line_pred(t@)),
        decreases ls.len() - i,
    {
        let l = &ls[i];
        let ghost before = r@;
        proof {
            assert(v.take(i + 1).drop_last() =~= v.take(i as int));
            assert(v.take(i + 1).last() == l@);
            reveal_with_fuel(Seq::<_>::filter, 1);
        }
        if passes_exec(t, l) {
            r.push(copy_chars(l));
            assert(views(r@) =~= views(before).push(l@));
        }
        i = i + 1;
    }
    assert(v.take(i as int) =~= v);
    r
}

/// A copy of a character vector.
pub fn copy_chars(v: &Vec<char>) -> (r: Vec<char>)
    ensures
        r@ == v@,
{
    let mut r: Vec<char> = Vec::new();
    let mut i: usize = 0;
    while i < v.len()
        invariant
            i <= v.len(),
            r@ == v@.take(i as int),
        decreases v.len() - i,
    {
        r.push(v[i]);
        i = i + 1;
        assert(r@ =~= v@.take(i as int));
    }
    assert(v@.take(i as int) =~= v@);
    r
}

/// Lines `from..to` of `ls`, copied.
pub fn copy_range(ls: &Vec<Vec<char>>, from: usize, to: usize) -> (r: Vec<Vec<char>>)
    requires
        from <= to <= ls.len(),
    ensures
        views(r@) == views(ls@).subrange(from as int, to as int),
{
    let mut r: Vec<Vec<char>> = Vec::new();
    let mut i = from;
    while i < to
        invariant
            from <= i <= to <= ls.len(),
            views(r@) == views(ls@).subrange(from as int, i as int),
        decreases to - i,
    {
        let ghost before = r@;
        let c = copy_chars(&ls[i]);
        r.push(c);
        assert(views(r@) =~= views(before).push(ls@[i as int]@));
        assert(views(r@) =~= views(ls@).subrange(from as int, i + 1));
        i = i + 1;
    }
    r
}

/// The lines of `ls` after the first `skip`, at most `take` of them:
/// `.skip(skip).take(take)`.
pub fn skip_take(ls: &Vec<Vec<char>>, skip: usize, take: usize) -> (r: Vec<Vec<char>>)
    ensures
        views(r@) == take_at_most(drop_at_most(views(ls@), skip as int), take as int),
{
    if skip >= ls.len() {
        let r: Vec<Vec<char>> = Vec::new();
        assert(views(r@) =~= take_at_most(drop_at_most(views(ls@), skip as int), take as int));
        return r;
    }
    let avail = ls.len() - skip;
    let n = if take < avail {
        take
    } else {
        avail
    };
    let r = copy_range(ls, skip, skip + n);
    assert(views(r@) =~= take_at_most(drop_at_most(views(ls@), skip as int), take as int));
    r
}

/// The value after the colon in a line: `l.split(':').nth(1).unwrap_or("").trim()`.
pub fn colon_value_exec(l: &Vec<char>) -> (r: String)
    ensures
        r@ == colon_value(l@),
{
    match second_field_of(l, ':') {
        Some(f) => {
            let (lo, hi) = trim_bounds(&f);
            string_of_range(&f, lo, hi)
        },
        None => {
            let e: Vec<char> = Vec::new();
            assert(e@ =~= Seq::<char>::empty());
            let (lo, hi) = trim_bounds(&e);
            string_of_range(&e, lo, hi)
        },
    }
}

/// The lines of a string.
pub fn lines_of_str(s: &str) -> (r: Vec<Vec<char>>)
    ensures
        views(r@) == lines(s@),
{
    let v = chars_of(s);
    lines_of(&v)
}

/// The trimmed characters of a string.
pub fn trimmed_chars(s: &str) -> (r: Vec<char>)
    ensures
        r@ == trim(s@),
{
    let v = chars_of(s);
    let (lo, hi) = trim_bounds(&v);
    let mut r: Vec<char> = Vec::new();
    let mut i = lo;
    while i < hi
        invariant
            lo <= i <= hi <= v.len(),
            r@ == v@.subrange(lo as int, i as int),
        decreases hi - i,
    {
        r.push(v[i]);
        i = i + 1;
        assert(r@ =~= v@.subrange(lo as int, i as int));
    }
    r
}

/// Item `n` of `ls`, copied, if there is one.
pub fn nth_chars(ls: &Vec<Vec<char>>, n: usize) -> (r: Option<Vec<char>>)
    ensures
        (match r {
            Some(l) => Some(l@),
            None => None,
        }) == nth(views(ls@), n as int),
{
    if n < ls.len() {
        Some(copy_chars(&ls[n]))
    } else {
        None
    }
}

/// `str::parse::<u64>` of an optional word, or 0: `.and_then(|s| s.parse().ok()).unwrap_or(0)`.
pub fn parse_or_zero(w: &Option<Vec<char>>, max: u64) -> (r: u64)
    ensures
        r as nat == parse_or_zero_spec(
            match w {
                Some(l) => Some(l@),
                None => None,
            },
            max as nat,
        ),
{
    match w {
        Some(l) => match parse_unsigned_exec(l, max) {
            Some(n) => n,
            None => 0,
        },
        None => 0,
    }
}

/// The number a word holds, or 0 when there is no word or it is no number.
pub open spec fn parse_or_zero_spec(w: Option<Seq<char>>, max: nat) -> nat {
    match w {
        Some(l) => match parse_unsigned(l, max) {
            Some(n) => n,
            None => 0,
        },
        None => 0,
    }
}

} // verus!
