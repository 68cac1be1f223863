//! Character-level text utilities.
//!
//! Every routine is specified over `Seq<char>`, the view of `str` and
//! `String`, so that contracts elsewhere in the crate can speak about text
//! mathematically.

use vstd::prelude::*;

verus! {

/// `String::push` appends one character to the end of the string.
pub assume_specification[ String::push ](s: &mut String, c: char)
    ensures
        final(s)@ == old(s)@.push(c),
;

/// What `str::to_lowercase` yields for a text: the Unicode lower-case mapping,
/// which depends on nothing but the characters.
pub uninterp spec fn lowercase_of(s: Seq<char>) -> Seq<char>;

/// `str::to_lowercase` returns the lower-case equivalent of the slice as a new
/// string.
pub assume_specification[ str::to_lowercase ](s: &str) -> (out: String)
    ensures
        out@ == lowercase_of(s@),
;

/// The characters with the Unicode `White_Space` property.
pub open spec fn is_whitespace(c: char) -> bool {
    let n = c as u32;
    ||| 0x09 <= n <= 0x0D
    ||| n == 0x20
    ||| n == 0x85
    ||| n == 0xA0
    ||| n == 0x1680
    ||| 0x2000 <= n <= 0x200A
    ||| n == 0x2028
    ||| n == 0x2029
    ||| n == 0x202F
    ||| n == 0x205F
    ||| n == 0x3000
}

/// ASCII whitespace: space, tab, line feed, form feed, carriage return.
pub open spec fn is_ascii_whitespace(c: char) -> bool {
    c == ' ' || c == '\t' || c == '\n' || c == '\x0C' || c == '\r'
}

/// ASCII punctuation: the four printable ranges that hold neither letters,
/// digits nor the space.
pub open spec fn is_ascii_punctuation(c: char) -> bool {
    let n = c as u32;
    ||| 0x21 <= n <= 0x2F
    ||| 0x3A <= n <= 0x40
    ||| 0x5B <= n <= 0x60
    ||| 0x7B <= n <= 0x7E
}

/// A text is blank when it is empty or holds whitespace only.
pub open spec fn blank(s: Seq<char>) -> bool {
    forall|i: int| 0 <= i < s.len() ==> is_whitespace(#[trigger] s[i])
}

/// First index at or after `i` that holds no whitespace (`s.len()` if none).
pub open spec fn skip_whitespace(s: Seq<char>, i: int) -> int
    decreases s.len() - i,
{
    if 0 <= i < s.len() && is_whitespace(s[i]) {
        skip_whitespace(s, i + 1)
    } else {
        i
    }
}

/// Smallest end `j' <= j` such that `s[j' - 1]` holds no whitespace, never
/// going below `lo`.
pub open spec fn skip_whitespace_back(s: Seq<char>, lo: int, j: int) -> int
    decreases j,
{
    if 0 <= lo < j <= s.len() && is_whitespace(s[j - 1]) {
        skip_whitespace_back(s, lo, j - 1)
    } else {
        j
    }
}

/// The text without its leading and trailing whitespace.
pub open spec fn trimmed(s: Seq<char>) -> Seq<char> {
    let lo = skip_whitespace(s, 0);
    let hi = skip_whitespace_back(s, lo, s.len() as int);
    s.subrange(lo, hi)
}

/// First index at or after `i` that holds a line feed (`s.len()` if none).
pub open spec fn line_end(s: Seq<char>, i: int) -> int
    decreases s.len() - i,
{
    if 0 <= i < s.len() && s[i] != '\n' {
        line_end(s, i + 1)
    } else {
        i
    }
}

/// The text up to, and without, its first line feed.
pub open spec fn first_line(s: Seq<char>) -> Seq<char> {
    s.subrange(0, line_end(s, 0))
}

/// The text with every run of whitespace replaced by a single hyphen.
pub open spec fn hyphenated(s: Seq<char>) -> Seq<char>
    decreases s.len(),
{
    if s.len() == 0 {
        Seq::empty()
    } else {
        let init = s.drop_last();
        let c = s.last();
        if !is_whitespace(c) {
            hyphenated(init).push(c)
        } else if init.len() > 0 && is_whitespace(init.last()) {
            hyphenated(init)
        } else {
            hyphenated(init).push('-')
        }
    }
}

/// Code point of a character after folding `A`..`Z` onto `a`..`z`.
pub open spec fn ascii_folded(c: char) -> u32 {
    let n = c as u32;
    if 0x41 <= n <= 0x5A {
        (n + 0x20) as u32
    } else {
        n
    }
}

/// Two texts match when they agree character by character up to ASCII case.
pub open spec fn eq_ignoring_ascii_case(a: Seq<char>, b: Seq<char>) -> bool {
    &&& a.len() == b.len()
    &&& forall|i: int| 0 <= i < a.len() ==> ascii_folded(#[trigger] a[i]) == ascii_folded(b[i])
}

/// The decimal digit for a value below ten.
pub open spec fn digit(d: nat) -> char
    recommends
        d < 10,
{
    (0x30 + d) as char
}

/// Decimal notation of a natural number, without leading zeros.
pub open spec fn decimal(n: nat) -> Seq<char>
    decreases n,
{
    if n < 10 {
        seq![digit(n)]
    } else {
        decimal(n / 10).push(digit(n % 10))
    }
}

/// The views of a list of strings.
pub open spec fn texts(v: Seq<String>) -> Seq<Seq<char>> {
    Seq::new(v.len(), |i: int| v[i]@)
}

/// The view of an optional string.
pub open spec fn opt_text(o: Option<String>) -> Option<Seq<char>> {
    match o {
        Some(s) => Some(s@),
        None => None,
    }
}

/// [`skip_whitespace`] stays within the text, passes whitespace only and
/// stops at a character that is none.
pub proof fn lemma_skip_whitespace_bounds(s: Seq<char>, i: int)
    requires
        0 <= i <= s.len(),
    ensures
        i <= skip_whitespace(s, i) <= s.len(),
        forall|k: int| i <= k < skip_whitespace(s, i) ==> is_whitespace(#[trigger] s[k]),
        skip_whitespace(s, i) < s.len() ==> !is_whitespace(s[skip_whitespace(s, i)]),
    decreases s.len() - i,
{
    if i < s.len() && is_whitespace(s[i]) {
        lemma_skip_whitespace_bounds(s, i + 1);
    }
}

/// [`skip_whitespace_back`] stays between `lo` and `j`, passes whitespace
/// only and stops behind a character that is none.
pub proof fn lemma_skip_whitespace_back_bounds(s: Seq<char>, lo: int, j: int)
    requires
        0 <= lo <= j <= s.len(),
    ensures
        lo <= skip_whitespace_back(s, lo, j) <= j,
        forall|k: int| skip_whitespace_back(s, lo, j) <= k < j ==> is_whitespace(#[trigger] s[k]),
        skip_whitespace_back(s, lo, j) > lo ==> !is_whitespace(
            s[skip_whitespace_back(s, lo, j) - 1],
        ),
    decreases j,
{
    if lo < j && is_whitespace(s[j - 1]) {
        lemma_skip_whitespace_back_bounds(s, lo, j - 1);
    }
}

/// Trimming leaves nothing exactly when the text is blank, and what it
/// leaves neither starts nor ends with whitespace.
pub proof fn lemma_trimmed(s: Seq<char>)
    ensures
        trimmed(s).len() <= s.len(),
        trimmed(s).len() == 0 <==> blank(s),
        trimmed(s).len() > 0 ==> !is_whitespace(trimmed(s).first()) && !is_whitespace(
            trimmed(s).last(),
        ),
{
    let lo = skip_whitespace(s, 0);
    lemma_skip_whitespace_bounds(s, 0);
    let hi = skip_whitespace_back(s, lo, s.len() as int);
    lemma_skip_whitespace_back_bounds(s, lo, s.len() as int);
    if lo < s.len() {
        assert(!is_whitespace(s[lo]));
        assert(!blank(s));
        assert(hi > lo) by {
            if hi == lo {
                assert(is_whitespace(s[lo]));
            }
        }
    } else {
        assert(blank(s));
    }
}

/// [`line_end`] stays within the text, passes no line feed and stops at
/// one.
pub proof fn lemma_line_end_bounds(s: Seq<char>, i: int)
    requires
        0 <= i <= s.len(),
    ensures
        i <= line_end(s, i) <= s.len(),
        forall|k: int| i <= k < line_end(s, i) ==> #[trigger] s[k] != '\n',
        line_end(s, i) < s.len() ==> s[line_end(s, i)] == '\n',
    decreases s.len() - i,
{
    if i < s.len() && s[i] != '\n' {
        lemma_line_end_bounds(s, i + 1);
    }
}

/// Hyphenation leaves no whitespace behind, and nothing at all only of an
/// empty text.
pub proof fn lemma_hyphenated(s: Seq<char>)
    ensures
        forall|i: int| 0 <= i < hyphenated(s).len() ==> !is_whitespace(#[trigger] hyphenated(s)[i]),
        hyphenated(s).len() <= s.len(),
        hyphenated(s).len() == 0 <==> s.len() == 0,
    decreases s.len(),
{
    if s.len() > 0 {
        lemma_hyphenated(s.drop_last());
    }
}

/// Tells whether a character has the Unicode `White_Space` property.
pub fn is_whitespace_char(c: char) -> (r: bool)
    ensures
        r == is_whitespace(c),
{
    let n: u32 = c as u32;
    (0x09 <= n && n <= 0x0D) || n == 0x20 || n == 0x85 || n == 0xA0 || n == 0x1680 || (0x2000 <= n
        && n <= 0x200A) || n == 0x2028 || n == 0x2029 || n == 0x202F || n == 0x205F || n == 0x3000
}

/// Tells whether a character separates tokens: ASCII whitespace or ASCII
/// punctuation.
pub fn is_token_separator_char(c: char) -> (r: bool)
    ensures
        r == is_token_separator(c),
{
    let n: u32 = c as u32;
    n == 0x20 || n == 0x09 || n == 0x0A || n == 0x0C || n == 0x0D || (0x21 <= n && n <= 0x2F) || (
    0x3A <= n && n <= 0x40) || (0x5B <= n && n <= 0x60) || (0x7B <= n && n <= 0x7E)
}

/// A token ends at ASCII whitespace and at ASCII punctuation.
pub open spec fn is_token_separator(c: char) -> bool {
    is_ascii_whitespace(c) || is_ascii_punctuation(c)
}

/// The run of non-separator characters that the text ends with.
pub open spec fn open_token(s: Seq<char>) -> Seq<char>
    decreases s.len(),
{
    if s.len() == 0 || is_token_separator(s.last()) {
        Seq::empty()
    } else {
        open_token(s.drop_last()).push(s.last())
    }
}

/// The tokens of the text that a separator has already closed.
pub open spec fn closed_tokens(s: Seq<char>) -> Seq<Seq<char>>
    decreases s.len(),
{
    if s.len() == 0 {
        Seq::empty()
    } else if is_token_separator(s.last()) && open_token(s.drop_last()).len() > 0 {
        closed_tokens(s.drop_last()).push(open_token(s.drop_last()))
    } else {
        closed_tokens(s.drop_last())
    }
}

/// The tokens of a text: its maximal runs of characters that are neither
/// ASCII whitespace nor ASCII punctuation, in order.
pub open spec fn tokens(s: Seq<char>) -> Seq<Seq<char>> {
    if open_token(s).len() > 0 {
        closed_tokens(s).push(open_token(s))
    } else {
        closed_tokens(s)
    }
}

/// Every token is non-empty and free of separators.
pub proof fn lemma_tokens(s: Seq<char>)
    ensures
        forall|k: int|
            0 <= k < tokens(s).len() ==> (#[trigger] tokens(s)[k]).len() > 0 && forall|i: int|
                0 <= i < tokens(s)[k].len() ==> !is_token_separator(#[trigger] tokens(s)[k][i]),
        tokens(s).len() <= s.len(),
{
    lemma_open_token(s);
    lemma_closed_tokens(s);
}

proof fn lemma_open_token(s: Seq<char>)
    ensures
        forall|i: int| 0 <= i < open_token(s).len() ==> !is_token_separator(#[trigger] open_token(s)[i]),
        open_token(s).len() <= s.len(),
    decreases s.len(),
{
    if s.len() > 0 && !is_token_separator(s.last()) {
        lemma_open_token(s.drop_last());
    }
}

proof fn lemma_closed_tokens(s: Seq<char>)
    ensures
        forall|k: int|
            0 <= k < closed_tokens(s).len() ==> (#[trigger] closed_tokens(s)[k]).len() > 0
                && forall|i: int|
                0 <= i < closed_tokens(s)[k].len() ==> !is_token_separator(
                    #[trigger] closed_tokens(s)[k][i],
                ),
        closed_tokens(s).len() + (if open_token(s).len() > 0 { 1int } else { 0int }) <= s.len(),
    decreases s.len(),
{
    if s.len() > 0 {
        lemma_closed_tokens(s.drop_last());
        lemma_open_token(s.drop_last());
        lemma_open_token(s);
    }
}

/// Lexicographic order by code points: the order of `str`.
pub open spec fn text_before(a: Seq<char>, b: Seq<char>) -> bool
    decreases a.len(),
{
    if b.len() == 0 {
        false
    } else if a.len() == 0 {
        true
    } else if a[0] != b[0] {
        (a[0] as u32) < (b[0] as u32)
    } else {
        text_before(a.drop_first(), b.drop_first())
    }
}

/// No text comes before itself.
pub proof fn lemma_text_before_irreflexive(a: Seq<char>)
    ensures
        !text_before(a, a),
    decreases a.len(),
{
    if a.len() > 0 {
        lemma_text_before_irreflexive(a.drop_first());
    }
}

/// Of two different texts, one comes before the other.
pub proof fn lemma_text_before_total(a: Seq<char>, b: Seq<char>)
    ensures
        text_before(a, b) || text_before(b, a) || a == b,
    decreases a.len(),
{
    if a.len() > 0 && b.len() > 0 && a[0] == b[0] {
        lemma_text_before_total(a.drop_first(), b.drop_first());
        if a.drop_first() == b.drop_first() {
            assert(a =~= seq![a[0]] + a.drop_first());
            assert(b =~= seq![b[0]] + b.drop_first());
        }
    } else if a.len() == 0 && b.len() == 0 {
        assert(a =~= b);
    } else if a.len() > 0 && b.len() > 0 {
        vstd::utf8::char_u32_cast(a[0], a[0] as u32);
        vstd::utf8::char_u32_cast(b[0], b[0] as u32);
    }
}

/// The order is transitive.
pub proof fn lemma_text_before_transitive(a: Seq<char>, b: Seq<char>, c: Seq<char>)
    requires
        text_before(a, b),
        text_before(b, c),
    ensures
        text_before(a, c),
    decreases a.len(),
{
    if a.len() > 0 && b.len() > 0 && c.len() > 0 && a[0] == b[0] && b[0] == c[0] {
        lemma_text_before_transitive(a.drop_first(), b.drop_first(), c.drop_first());
    }
}

/// Tells whether `a` comes before `b` in the order of `str`.
pub fn precedes(a: &str, b: &str) -> (r: bool)
    ensures
        r == text_before(a@, b@),
{
    let x = chars_of(a);
    let y = chars_of(b);
    let mut i: usize = 0;
    proof {
        assert(a@.skip(0) =~= a@);
        assert(b@.skip(0) =~= b@);
    }
    while i < x.len() && i < y.len()
        invariant
            i <= x.len(),
            i <= y.len(),
            x@ == a@,
            y@ == b@,
            text_before(a@, b@) == text_before(a@.skip(i as int), b@.skip(i as int)),
        decreases x.len() - i,
    {
        proof {
            assert(a@.skip(i as int)[0] == x@[i as int]);
            assert(b@.skip(i as int)[0] == y@[i as int]);
            assert(a@.skip(i as int).drop_first() =~= a@.skip(i + 1));
            assert(b@.skip(i as int).drop_first() =~= b@.skip(i + 1));
        }
        let cx: char = x[i];
        let cy: char = y[i];
        if cx != cy {
            return (cx as u32) < (cy as u32);
        }
        i += 1;
    }
    i < y.len()
}

/// The characters `0` to `9`.
pub open spec fn is_digit(c: char) -> bool {
    0x30 <= c as u32 <= 0x39
}

/// The number that a text of digits writes in decimal notation.
pub open spec fn digits_value(s: Seq<char>) -> nat
    decreases s.len(),
{
    if s.len() == 0 {
        0
    } else {
        digits_value(s.drop_last()) * 10 + (s.last() as u32 - 0x30) as nat
    }
}

/// What parsing a text as an unsigned number of at most `max` gives: the
/// text must be one or more digits, after an optional plus sign, and write
/// a number within the bound.
pub open spec fn parsed_number(s: Seq<char>, max: nat) -> Option<nat> {
    let body = unsigned(s);
    if body.len() > 0 && all_digits(body) && digits_value(body) <= max {
        Some(digits_value(body))
    } else {
        None
    }
}

/// The text without the plus sign that it may start with.
pub open spec fn unsigned(s: Seq<char>) -> Seq<char> {
    if s.len() > 0 && s[0] == '+' {
        s.drop_first()
    } else {
        s
    }
}

/// The text holds digits only.
pub open spec fn all_digits(s: Seq<char>) -> bool {
    forall|i: int| 0 <= i < s.len() ==> is_digit(#[trigger] s[i])
}

/// A text of digits writes no smaller number than any of its beginnings.
pub proof fn lemma_digits_value_monotonic(s: Seq<char>, j: int)
    requires
        0 <= j <= s.len(),
        all_digits(s),
    ensures
        digits_value(s.subrange(0, j)) <= digits_value(s),
    decreases s.len(),
{
    if j == s.len() {
        assert(s.subrange(0, j) =~= s);
    } else {
        let init = s.drop_last();
        assert(init.subrange(0, j) =~= s.subrange(0, j));
        assert(all_digits(init)) by {
            assert forall|i: int| 0 <= i < init.len() implies is_digit(#[trigger] init[i]) by {
                assert(init[i] == s[i]);
            }
        }
        lemma_digits_value_monotonic(init, j);
        assert(is_digit(s[s.len() - 1]));
    }
}

/// Parses an unsigned decimal number of at most `max`.
pub fn parse_number(s: &str, max: u64) -> (r: Option<u64>)
    ensures
        match parsed_number(s@, max as nat) {
            Some(n) => r == Some(n as u64),
            None => r is None,
        },
{
    let chars = chars_of(s);
    let start: usize = if chars.len() > 0 && chars[0] == '+' {
        1
    } else {
        0
    };
    let ghost body = s@.subrange(start as int, s@.len() as int);
    proof {
        if start == 1 {
            assert(body =~= s@.drop_first());
        } else {
            assert(body =~= s@);
        }
    }
    if start >= chars.len() {
        return None;
    }
    let mut value: u64 = 0;
    let mut i: usize = start;
    while i < chars.len()
        invariant
            start <= i <= chars.len(),
            chars@ == s@,
            body == s@.subrange(start as int, s@.len() as int),
            body == unsigned(s@),
            forall|k: int| 0 <= k < i - start ==> is_digit(#[trigger] body[k]),
            value == digits_value(body.subrange(0, i - start)),
            value <= max,
        decreases chars.len() - i,
    {
        let c: char = chars[i];
        let n: u32 = c as u32;
        assert(body[i - start] == c);
        if n < 0x30 || n > 0x39 {
            return None;
        }
        let d: u64 = (n - 0x30) as u64;
        proof {
            let next = body.subrange(0, i - start + 1);
            assert(next.drop_last() =~= body.subrange(0, i - start));
            assert(next.last() == c);
        }
        if d > max || value > (max - d) / 10 {
            proof {
                if all_digits(body) {
                    lemma_digits_value_monotonic(body, i - start + 1);
                }
            }
            return None;
        }
        value = value * 10 + d;
        i += 1;
    }
    proof {
        assert(body.subrange(0, body.len() as int) =~= body);
        assert(all_digits(body));
    }
    Some(value)
}

/// Collects the characters of a string slice, in order.
pub fn chars_of(s: &str) -> (out: Vec<char>)
    ensures
        out@ == s@,
{
    let mut out: Vec<char> = Vec::new();
    for c in it: s.chars()
        invariant
            it.seq() == s@,
            out@ == s@.subrange(0, it.index() as int),
    {
        out.push(c);
    }
    out
}

/// Builds a string from the characters `chars[lo..hi]`.
pub fn string_of_range(chars: &Vec<char>, lo: usize, hi: usize) -> (out: String)
    requires
        lo <= hi <= chars.len(),
    ensures
        out@ == chars@.subrange(lo as int, hi as int),
{
    let mut out = String::new();
    let mut i: usize = lo;
    while i < hi
        invariant
            lo <= i <= hi <= chars.len(),
            out@ == chars@.subrange(lo as int, i as int),
        decreases hi - i,
    {
        out.push(chars[i]);
        i += 1;
    }
    out
}

/// Builds a string from a list of characters.
pub fn string_of(chars: &Vec<char>) -> (out: String)
    ensures
        out@ == chars@,
{
    let out = string_of_range(chars, 0, chars.len());
    assert(chars@.subrange(0, chars.len() as int) == chars@);
    out
}

/// Joins two texts.
pub fn join(a: &str, b: &str) -> (out: String)
    ensures
        out@ == a@ + b@,
{
    let mut out = a.to_owned();
    out.append(b);
    out
}

/// Joins three texts.
pub fn join3(a: &str, b: &str, c: &str) -> (out: String)
    ensures
        out@ == a@ + b@ + c@,
{
    let mut out = a.to_owned();
    out.append(b);
    out.append(c);
    out
}

/// Tells whether two string slices hold the same text.
pub fn same_text(a: &str, b: &str) -> (r: bool)
    ensures
        r == (a@ == b@),
{
    let x = a.to_owned();
    let y = b.to_owned();
    x == y
}

/// Tells whether a text is empty or holds whitespace only.
pub fn is_blank(s: &str) -> (r: bool)
    ensures
        r == blank(s@),
{
    let mut all: bool = true;
    for c in it: s.chars()
        invariant
            it.seq() == s@,
            all == blank(s@.subrange(0, it.index() as int)),
    {
        proof {
            let i = it.index() as int;
            let before = s@.subrange(0, i);
            let after = s@.subrange(0, i + 1);
            if blank(after) {
                assert forall|k: int| 0 <= k < before.len() implies is_whitespace(
                    #[trigger] before[k],
                ) by {
                    assert(before[k] == after[k]);
                }
                assert(after[i] == c);
            } else if blank(before) && is_whitespace(c) {
                assert forall|k: int| 0 <= k < after.len() implies is_whitespace(
                    #[trigger] after[k],
                ) by {
                    if k < i {
                        assert(after[k] == before[k]);
                    }
                }
            }
        }
        all = all && is_whitespace_char(c);
    }
    assert(s@.subrange(0, s@.len() as int) == s@);
    all
}

/// Removes leading and trailing whitespace.
pub fn trim(s: &str) -> (out: String)
    ensures
        out@ == trimmed(s@),
        out@.len() == 0 <==> blank(s@),
{
    let chars = chars_of(s);
    let n = chars.len();
    let mut lo: usize = 0;
    while lo < n && is_whitespace_char(chars[lo])
        invariant
            n == chars.len(),
            lo <= n,
            skip_whitespace(chars@, lo as int) == skip_whitespace(chars@, 0),
        decreases n - lo,
    {
        lo += 1;
    }
    let mut hi: usize = n;
    while lo < hi && is_whitespace_char(chars[hi - 1])
        invariant
            n == chars.len(),
            lo <= hi <= n,
            skip_whitespace_back(chars@, lo as int, hi as int) == skip_whitespace_back(
                chars@,
                lo as int,
                n as int,
            ),
        decreases hi,
    {
        hi -= 1;
    }
    proof {
        lemma_trimmed(s@);
    }
    string_of_range(&chars, lo, hi)
}

/// Keeps what stands before the first line feed.
pub fn take_first_line(s: &str) -> (out: String)
    ensures
        out@ == first_line(s@),
        forall|i: int| 0 <= i < out@.len() ==> out@[i] != '\n',
{
    proof {
        lemma_line_end_bounds(s@, 0);
    }
    let chars = chars_of(s);
    let n = chars.len();
    let mut end: usize = 0;
    while end < n && chars[end] != '\n'
        invariant
            n == chars.len(),
            end <= n,
            line_end(chars@, end as int) == line_end(chars@, 0),
        decreases n - end,
    {
        end += 1;
    }
    string_of_range(&chars, 0, end)
}

/// Replaces every run of whitespace by a single hyphen.
pub fn hyphenate(s: &str) -> (out: String)
    ensures
        out@ == hyphenated(s@),
{
    let chars = chars_of(s);
    let mut out = String::new();
    let mut i: usize = 0;
    while i < chars.len()
        invariant
            i <= chars.len(),
            chars@ == s@,
            out@ == hyphenated(s@.subrange(0, i as int)),
        decreases chars.len() - i,
    {
        let c = chars[i];
        proof {
            let next = s@.subrange(0, i + 1);
            assert(next.drop_last() == s@.subrange(0, i as int));
            assert(next.last() == c);
            if i > 0 {
                assert(s@.subrange(0, i as int).last() == chars@[i - 1]);
            }
        }
        if !is_whitespace_char(c) {
            out.push(c);
        } else if i > 0 && is_whitespace_char(chars[i - 1]) {
        } else {
            out.push('-');
        }
        i += 1;
    }
    assert(s@.subrange(0, chars.len() as int) == s@);
    out
}

/// Code point of a character with `A`..`Z` folded onto `a`..`z`.
fn fold_ascii_case(c: char) -> (n: u32)
    ensures
        n == ascii_folded(c),
{
    let n: u32 = c as u32;
    if 0x41 <= n && n <= 0x5A {
        n + 0x20
    } else {
        n
    }
}

/// Compares two texts, ignoring the case of ASCII letters.
pub fn eq_ignore_ascii_case(a: &str, b: &str) -> (r: bool)
    ensures
        r == eq_ignoring_ascii_case(a@, b@),
{
    let x = chars_of(a);
    let y = chars_of(b);
    if x.len() != y.len() {
        return false;
    }
    let mut i: usize = 0;
    while i < x.len()
        invariant
            i <= x.len(),
            x.len() == y.len(),
            x@ == a@,
            y@ == b@,
            forall|k: int| 0 <= k < i ==> ascii_folded(#[trigger] a@[k]) == ascii_folded(b@[k]),
        decreases x.len() - i,
    {
        if fold_ascii_case(x[i]) != fold_ascii_case(y[i]) {
            return false;
        }
        i += 1;
    }
    true
}

/// Splits a text into its tokens.
pub fn tokenize(s: &str) -> (out: Vec<String>)
    ensures
        texts(out@) == tokens(s@),
        forall|k: int|
            0 <= k < out@.len() ==> (#[trigger] out@[k])@.len() > 0 && forall|i: int|
                0 <= i < out@[k]@.len() ==> !is_token_separator(#[trigger] out@[k]@[i]),
{
    proof {
        lemma_tokens(s@);
    }
    let chars = chars_of(s);
    let mut out: Vec<String> = Vec::new();
    let mut start: usize = 0;
    let mut i: usize = 0;
    while i < chars.len()
        invariant
            start <= i <= chars.len(),
            chars@ == s@,
            texts(out@) == closed_tokens(s@.subrange(0, i as int)),
            s@.subrange(start as int, i as int) == open_token(s@.subrange(0, i as int)),
        decreases chars.len() - i,
    {
        let c = chars[i];
        proof {
            let next = s@.subrange(0, i + 1);
            assert(next.drop_last() == s@.subrange(0, i as int));
            assert(next.last() == c);
        }
        if is_token_separator_char(c) {
            if start < i {
                let token = string_of_range(&chars, start, i);
                let ghost before = out@;
                out.push(token);
                assert(texts(out@) == texts(before).push(token@));
            }
            start = i + 1;
            assert(s@.subrange(start as int, i + 1) == Seq::<char>::empty());
        } else {
            assert(s@.subrange(start as int, i + 1) == s@.subrange(start as int, i as int).push(c));
        }
        i += 1;
    }
    assert(s@.subrange(0, chars.len() as int) == s@);
    if start < i {
        let token = string_of_range(&chars, start, i);
        let ghost before = out@;
        out.push(token);
        assert(texts(out@) == texts(before).push(token@));
    }
    proof {
        assert forall|k: int| 0 <= k < out@.len() implies (#[trigger] out@[k])@.len() > 0
            && forall|i: int|
            0 <= i < out@[k]@.len() ==> !is_token_separator(#[trigger] out@[k]@[i]) by {
            assert(texts(out@)[k] == out@[k]@);
            assert(tokens(s@)[k] == out@[k]@);
        }
    }
    out
}

/// Writes a number in decimal notation.
pub fn decimal_string(n: usize) -> (out: String)
    ensures
        out@ == decimal(n as nat),
    decreases n,
{
    if n < 10 {
        let mut out = String::new();
        out.push(digit_char(n));
        assert(out@ =~= seq![digit(n as nat)]);
        out
    } else {
        let mut out = decimal_string(n / 10);
        out.push(digit_char(n % 10));
        out
    }
}

/// The character for a decimal digit.
fn digit_char(d: usize) -> (c: char)
    requires
        d < 10,
    ensures
        c == digit(d as nat),
{
    let code: u8 = 0x30 + d as u8;
    code as char
}

} // verus!
