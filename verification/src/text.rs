//! Character-level string helpers: the character classes the parsers use,
//! building strings from characters and decimal rendering of integers.
use vstd::prelude::*;
use vstd::string::StrSliceExecFns;

verus! {

/// Whether `char::is_alphanumeric` holds of a character outside ASCII
/// (Unicode Alphabetic or Numeric there).
pub uninterp spec fn non_ascii_alphanumeric(c: char) -> bool;

/// `char::is_whitespace`: the Unicode White_Space property, which holds of
/// tab, line feed, vertical tab, form feed, carriage return and space in
/// ASCII, and outside it of U+0085, U+00A0, U+1680, U+2000 to U+200A,
/// U+2028, U+2029, U+202F, U+205F and U+3000.
pub open spec fn char_is_whitespace(c: char) -> bool {
    let u = c as u32;
    ||| 9 <= u <= 13
    ||| u == 32
    ||| u == 0x85
    ||| u == 0xA0
    ||| u == 0x1680
    ||| 0x2000 <= u <= 0x200A
    ||| u == 0x2028
    ||| u == 0x2029
    ||| u == 0x202F
    ||| u == 0x205F
    ||| u == 0x3000
}

/// `char::is_alphanumeric`: in ASCII exactly the letters and the digits.
pub open spec fn char_is_alphanumeric(c: char) -> bool {
    if (c as u32) < 128 {
        ('a' <= c && c <= 'z') || ('A' <= c && c <= 'Z') || ('0' <= c && c <= '9')
    } else {
        non_ascii_alphanumeric(c)
    }
}

/// Whether `c` has the Unicode White_Space property.
pub(crate) fn is_whitespace(c: char) -> (b: bool)
    ensures
        b == char_is_whitespace(c),
{
    let u = c as u32;
    (9 <= u && u <= 13) || u == 32 || u == 0x85 || u == 0xA0 || u == 0x1680 || (0x2000 <= u && u
        <= 0x200A) || u == 0x2028 || u == 0x2029 || u == 0x202F || u == 0x205F || u == 0x3000
}

/// Calls `char::is_alphanumeric`, which the standard library defines as
/// Unicode Alphabetic or Numeric; for ASCII these are the letters and the
/// digits, the rest of Unicode is left to the named class.
#[verifier::external_body]
pub(crate) fn is_alphanumeric(c: char) -> (b: bool)
    ensures
        b == char_is_alphanumeric(c),
        (c as u32) >= 128 ==> b == non_ascii_alphanumeric(c),
{
    c.is_alphanumeric()
}

/// Calls `String::push`, which appends one character.
#[verifier::external_body]
pub(crate) fn push_char(s: &mut String, c: char)
    ensures
        final(s)@ == old(s)@.push(c),
{
    s.push(c)
}

/// The characters of a string slice.
pub fn chars_of(s: &str) -> (v: Vec<char>)
    ensures
        v@ == s@,
{
    let n = s.unicode_len();
    let mut v: Vec<char> = Vec::new();
    let mut i: usize = 0;
    while i < n
        invariant
            n == s@.len(),
            i <= n,
            v@ == s@.subrange(0, i as int),
        decreases n - i,
    {
        let c = s.get_char(i);
        v.push(c);
        assert(s@.subrange(0, i + 1) =~= s@.subrange(0, i as int).push(c));
        i = i + 1;
    }
    assert(s@.subrange(0, n as int) =~= s@);
    v
}

/// The string made of `chars[from..to]`.
pub fn string_from_range(chars: &Vec<char>, from: usize, to: usize) -> (s: String)
    requires
        from <= to <= chars@.len(),
    ensures
        s@ == chars@.subrange(from as int, to as int),
{
    let mut s = String::new();
    let mut i: usize = from;
    while i < to
        invariant
            from <= i <= to,
            to <= chars@.len(),
            s@ == chars@.subrange(from as int, i as int),
        decreases to - i,
    {
        push_char(&mut s, chars[i]);
        assert(chars@.subrange(from as int, i + 1) =~= chars@.subrange(from as int, i as int).push(
            chars@[i as int],
        ));
        i = i + 1;
    }
    s
}

/// The decimal digits of a natural number, most significant first.
pub open spec fn decimal(n: nat) -> Seq<char>
    decreases n,
{
    if n < 10 {
        seq![digit_char(n)]
    } else {
        decimal(n / 10).push(digit_char(n % 10))
    }
}

/// The character of a decimal digit.
pub open spec fn digit_char(d: nat) -> char {
    if d == 0 {
        '0'
    } else if d == 1 {
        '1'
    } else if d == 2 {
        '2'
    } else if d == 3 {
        '3'
    } else if d == 4 {
        '4'
    } else if d == 5 {
        '5'
    } else if d == 6 {
        '6'
    } else if d == 7 {
        '7'
    } else if d == 8 {
        '8'
    } else {
        '9'
    }
}

fn digit(d: u64) -> (c: char)
    requires
        d < 10,
    ensures
        c == digit_char(d as nat),
{
    if d == 0 {
        '0'
    } else if d == 1 {
        '1'
    } else if d == 2 {
        '2'
    } else if d == 3 {
        '3'
    } else if d == 4 {
        '4'
    } else if d == 5 {
        '5'
    } else if d == 6 {
        '6'
    } else if d == 7 {
        '7'
    } else if d == 8 {
        '8'
    } else {
        '9'
    }
}

/// Appends the decimal rendering of `n` to `s`.
pub fn push_decimal(s: &mut String, n: u64)
    ensures
        final(s)@ == old(s)@ + decimal(n as nat),
    decreases n,
{
    if n < 10 {
        push_char(s, digit(n));
        assert(old(s)@.push(digit_char(n as nat)) =~= old(s)@ + decimal(n as nat));
    } else {
        push_decimal(s, n / 10);
        push_char(s, digit(n % 10));
        assert(old(s)@ + decimal((n / 10) as nat) + seq![digit_char((n % 10) as nat)] =~= old(s)@
            + decimal(n as nat));
    }
}

/// Appends the decimal rendering of a signed integer (with a leading `-`
/// when negative) to `s`.
pub fn push_signed_decimal(s: &mut String, n: i64)
    ensures
        final(s)@ == old(s)@ + (if n < 0 {
            seq!['-'] + decimal((-n) as nat)
        } else {
            decimal(n as nat)
        }),
{
    if n < 0 {
        push_char(s, '-');
        let m: u64 = if n == i64::MIN {
            9223372036854775808u64
        } else {
            (-n) as u64
        };
        push_decimal(s, m);
        assert(old(s)@.push('-') + decimal(m as nat) =~= old(s)@ + (seq!['-'] + decimal(
            (-n) as nat,
        )));
    } else {
        push_decimal(s, n as u64);
    }
}

/// The character classes the line parsers strip or search for.
#[derive(Debug, Clone, Copy, PartialEq, Eq, Structural)]
pub enum CharClass {
    Whitespace,
    Bracket,
    NotSpace,
}

/// Membership in a character class.
pub open spec fn class_pred(k: CharClass) -> spec_fn(char) -> bool {
    match k {
        CharClass::Whitespace => |c: char| char_is_whitespace(c),
        CharClass::Bracket => |c: char| c == '[' || c == ']',
        CharClass::NotSpace => |c: char| c != ' ',
    }
}

/// Whether `c` belongs to class `k`.
pub fn class_holds(k: CharClass, c: char) -> (b: bool)
    ensures
        b == class_pred(k)(c),
{
    match k {
        CharClass::Whitespace => is_whitespace(c),
        CharClass::Bracket => c == '[' || c == ']',
        CharClass::NotSpace => c != ' ',
    }
}

/// `n` is the length of the longest prefix of `s` whose characters satisfy `p`.
pub open spec fn is_lead(s: Seq<char>, p: spec_fn(char) -> bool, n: int) -> bool {
    &&& 0 <= n <= s.len()
    &&& forall|j: int| 0 <= j < n ==> #[trigger] p(s[j])
    &&& n < s.len() ==> !p(s[n])
}

/// `n` is the length of the longest suffix of `s` whose characters satisfy `p`.
pub open spec fn is_trail(s: Seq<char>, p: spec_fn(char) -> bool, n: int) -> bool {
    &&& 0 <= n <= s.len()
    &&& forall|j: int| s.len() - n <= j < s.len() ==> #[trigger] p(s[j])
    &&& n < s.len() ==> !p(s[s.len() - n - 1])
}

/// The length of the longest prefix of `s` in `p`.
pub open spec fn lead(s: Seq<char>, p: spec_fn(char) -> bool) -> int {
    choose|n: int| is_lead(s, p, n)
}

/// The length of the longest suffix of `s` in `p`.
pub open spec fn trail(s: Seq<char>, p: spec_fn(char) -> bool) -> int {
    choose|n: int| is_trail(s, p, n)
}

/// `s` without its longest prefix and suffix in `p` (as `str::trim_matches`).
pub open spec fn strip(s: Seq<char>, p: spec_fn(char) -> bool) -> Seq<char> {
    let rest = s.subrange(lead(s, p), s.len() as int);
    rest.subrange(0, rest.len() - trail(rest, p))
}

/// The prefix length is determined by the characters.
pub proof fn lemma_lead_unique(s: Seq<char>, p: spec_fn(char) -> bool, n: int)
    requires
        is_lead(s, p, n),
    ensures
        lead(s, p) == n,
{
    let m = lead(s, p);
    assert(is_lead(s, p, m));
    if m < n {
        assert(p(s[m]));
    } else if n < m {
        assert(p(s[n]));
    }
}

/// The suffix length is determined by the characters.
pub proof fn lemma_trail_unique(s: Seq<char>, p: spec_fn(char) -> bool, n: int)
    requires
        is_trail(s, p, n),
    ensures
        trail(s, p) == n,
{
    let m = trail(s, p);
    assert(is_trail(s, p, m));
    if m < n {
        assert(p(s[s.len() - m - 1]));
    } else if n < m {
        assert(p(s[s.len() - n - 1]));
    }
}

/// Every sequence has a longest suffix in `p`.
pub proof fn lemma_trail_exists(s: Seq<char>, p: spec_fn(char) -> bool)
    ensures
        is_trail(s, p, trail(s, p)),
    decreases s.len(),
{
    if s.len() == 0 {
        assert(is_trail(s, p, 0));
    } else if !p(s[s.len() - 1]) {
        assert(is_trail(s, p, 0));
    } else {
        let t = s.drop_last();
        lemma_trail_exists(t, p);
        let m = trail(t, p);
        assert forall|j: int| s.len() - (m + 1) <= j < s.len() implies #[trigger] p(s[j]) by {
            if j < s.len() - 1 {
                assert(s[j] == t[j]);
            }
        }
        if m + 1 < s.len() {
            assert(s[s.len() - (m + 1) - 1] == t[t.len() - m - 1]);
        }
        assert(is_trail(s, p, m + 1));
    }
}

/// Counts the characters of `v[from..to]`, from the front, that belong to `k`.
pub fn lead_count(v: &Vec<char>, from: usize, to: usize, k: CharClass) -> (n: usize)
    requires
        from <= to <= v@.len(),
    ensures
        n <= to - from,
        is_lead(v@.subrange(from as int, to as int), class_pred(k), n as int),
        lead(v@.subrange(from as int, to as int), class_pred(k)) == n,
{
    let ghost s = v@.subrange(from as int, to as int);
    let mut i: usize = from;
    while i < to
        invariant
            from <= i <= to,
            to <= v@.len(),
            s == v@.subrange(from as int, to as int),
            forall|j: int| 0 <= j < i - from ==> #[trigger] class_pred(k)(s[j]),
        decreases to - i,
    {
        if !class_holds(k, v[i]) {
            assert(s[i - from] == v@[i as int]);
            proof {
                lemma_lead_unique(s, class_pred(k), i - from);
            }
            return i - from;
        }
        assert(s[i - from] == v@[i as int]);
        i = i + 1;
    }
    proof {
        lemma_lead_unique(s, class_pred(k), i - from);
    }
    i - from
}

/// Counts the characters of `v[from..to]`, from the back, that belong to `k`.
pub fn trail_count(v: &Vec<char>, from: usize, to: usize, k: CharClass) -> (n: usize)
    requires
        from <= to <= v@.len(),
    ensures
        n <= to - from,
        is_trail(v@.subrange(from as int, to as int), class_pred(k), n as int),
        trail(v@.subrange(from as int, to as int), class_pred(k)) == n,
{
    let ghost s = v@.subrange(from as int, to as int);
    let mut i: usize = to;
    while i > from
        invariant
            from <= i <= to,
            to <= v@.len(),
            s == v@.subrange(from as int, to as int),
            forall|j: int| i - from <= j < s.len() ==> #[trigger] class_pred(k)(s[j]),
        decreases i - from,
    {
        if !class_holds(k, v[i - 1]) {
            assert(s[i - 1 - from] == v@[i - 1]);
            proof {
                lemma_trail_unique(s, class_pred(k), (to - i) as int);
            }
            return to - i;
        }
        assert(s[i - 1 - from] == v@[i - 1]);
        i = i - 1;
    }
    proof {
        lemma_trail_unique(s, class_pred(k), (to - i) as int);
    }
    to - i
}

/// The separator `" | "` starts at position `j` of `s`.
pub open spec fn sep_at(s: Seq<char>, j: int) -> bool {
    0 <= j && j + 3 <= s.len() && s[j] == ' ' && s[j + 1] == '|' && s[j + 2] == ' '
}

/// `n` is where the first `" | "` of `s` starts, or the length of `s` when
/// there is none.
pub open spec fn is_first_sep(s: Seq<char>, n: int) -> bool {
    &&& 0 <= n <= s.len()
    &&& forall|j: int| 0 <= j < n ==> !#[trigger] sep_at(s, j)
    &&& n < s.len() ==> sep_at(s, n)
}

/// Where the first `" | "` of `s` starts, or its length when there is none.
pub open spec fn first_sep(s: Seq<char>) -> int {
    choose|n: int| is_first_sep(s, n)
}

/// The first separator is determined by the characters.
pub proof fn lemma_first_sep_unique(s: Seq<char>, n: int)
    requires
        is_first_sep(s, n),
    ensures
        first_sep(s) == n,
{
    let m = first_sep(s);
    assert(is_first_sep(s, m));
    if m < n {
        assert(!sep_at(s, m));
    } else if n < m {
        assert(!sep_at(s, n));
    }
}

/// Finds the first `" | "` in `v[from..to]`, relative to `from`.
pub fn find_sep(v: &Vec<char>, from: usize, to: usize) -> (n: usize)
    requires
        from <= to <= v@.len(),
    ensures
        n <= to - from,
        first_sep(v@.subrange(from as int, to as int)) == n,
{
    let ghost s = v@.subrange(from as int, to as int);
    let mut i: usize = from;
    while i < to && to - i >= 3
        invariant
            from <= i <= to,
            to <= v@.len(),
            s == v@.subrange(from as int, to as int),
            forall|j: int| 0 <= j < i - from ==> !#[trigger] sep_at(s, j),
        decreases to - i,
    {
        if v[i] == ' ' && v[i + 1] == '|' && v[i + 2] == ' ' {
            assert(sep_at(s, i - from));
            proof {
                lemma_first_sep_unique(s, i - from);
            }
            return i - from;
        }
        assert(!sep_at(s, i - from));
        i = i + 1;
    }
    assert forall|j: int| 0 <= j < s.len() implies !#[trigger] sep_at(s, j) by {
        if j >= i - from {
            assert(j + 3 > s.len());
        }
    }
    proof {
        lemma_first_sep_unique(s, s.len() as int);
    }
    to - from
}

/// Whether `v[from..to]` spells `lit`.
pub fn range_equals(v: &Vec<char>, from: usize, to: usize, lit: &str) -> (b: bool)
    requires
        from <= to <= v@.len(),
    ensures
        b == (v@.subrange(from as int, to as int) == lit@),
{
    let ghost s = v@.subrange(from as int, to as int);
    let n = lit.unicode_len();
    if n != to - from {
        assert(s.len() != lit@.len());
        return false;
    }
    let mut i: usize = 0;
    while i < n
        invariant
            n == lit@.len(),
            n == to - from,
            from <= to <= v@.len(),
            s == v@.subrange(from as int, to as int),
            i <= n,
            forall|j: int| 0 <= j < i ==> s[j] == lit@[j],
        decreases n - i,
    {
        if v[from + i] != lit.get_char(i) {
            assert(s[i as int] != lit@[i as int]);
            return false;
        }
        i = i + 1;
    }
    assert(s =~= lit@);
    true
}

/// Whether `c` is an ASCII letter or digit.
pub open spec fn ascii_alnum(c: char) -> bool {
    ('a' <= c && c <= 'z') || ('A' <= c && c <= 'Z') || ('0' <= c && c <= '9')
}

/// `s[i..j]` is one of the pieces `s` splits into at characters that are not
/// ASCII letters or digits (pieces may be empty).
pub open spec fn is_piece(s: Seq<char>, i: int, j: int) -> bool {
    &&& 0 <= i <= j <= s.len()
    &&& (i == 0 || !ascii_alnum(s[i - 1]))
    &&& (j == s.len() || !ascii_alnum(s[j]))
    &&& forall|k: int| i <= k < j ==> #[trigger] ascii_alnum(s[k])
}

/// Whether `token` is one of the pieces of `haystack`.
pub open spec fn has_token(haystack: Seq<char>, token: Seq<char>) -> bool {
    exists|i: int, j: int| #[trigger] is_piece(haystack, i, j) && haystack.subrange(i, j) == token
}

/// Whether `token` is a whole word of `haystack`, words being separated by
/// every character that is not an ASCII letter or digit.
pub fn contains_token(haystack: &str, token: &str) -> (b: bool)
    ensures
        b == has_token(haystack@, token@),
{
    let h = chars_of(haystack);
    let n = h.len();
    let mut start: usize = 0;
    let mut i: usize = 0;
    while i < n
        invariant
            h@ == haystack@,
            n == h@.len(),
            start <= i <= n,
            start == 0 || !ascii_alnum(h@[start - 1]),
            forall|k: int| start <= k < i ==> #[trigger] ascii_alnum(h@[k]),
            forall|a: int, c: int| #[trigger] is_piece(h@, a, c) && c < i ==> h@.subrange(a, c) != token@,
        decreases n - i,
    {
        let c = h[i];
        if !(('a' <= c && c <= 'z') || ('A' <= c && c <= 'Z') || ('0' <= c && c <= '9')) {
            assert(is_piece(h@, start as int, i as int));
            if range_equals(&h, start, i, token) {
                return true;
            }
            proof {
                assert forall|a: int, d: int| #[trigger] is_piece(h@, a, d) && d < i + 1 implies h@.subrange(a, d) != token@ by {
                    if d == i {
                        if a < start {
                            assert(ascii_alnum(h@[start - 1]));
                        } else if a > start {
                            assert(ascii_alnum(h@[a - 1]));
                        }
                    }
                }
            }
            start = i + 1;
        } else {
            proof {
                assert forall|a: int, d: int| #[trigger] is_piece(h@, a, d) && d < i + 1 implies h@.subrange(a, d) != token@ by {
                    if d == i {
                        assert(ascii_alnum(h@[d]));
                    }
                }
            }
        }
        i = i + 1;
    }
    assert(is_piece(h@, start as int, n as int));
    if range_equals(&h, start, n, token) {
        return true;
    }
    assert forall|a: int, d: int| #[trigger] is_piece(h@, a, d) implies h@.subrange(a, d) != token@ by {
        if d == n {
            if a < start {
                assert(ascii_alnum(h@[start - 1]));
            } else if a > start {
                assert(ascii_alnum(h@[a - 1]));
            }
        }
    }
    false
}

} // verus!
