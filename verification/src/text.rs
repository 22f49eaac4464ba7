//! Character-level text operations used by the projection and configuration
//! logic, each stated over `Seq<char>` and proved.
use vstd::prelude::*;

verus! {

/// `String::push` of std appends one character to the string.
pub assume_specification[ String::push ](s: &mut String, ch: char)
    ensures
        final(s)@ == old(s)@.push(ch),
;

/// The text of an optional string.
pub open spec fn view_opt(o: Option<String>) -> Option<Seq<char>> {
    match o {
        Some(s) => Some(s@),
        None => None,
    }
}

/// The characters of `s`, in order.
pub fn chars_of(s: &str) -> (r: Vec<char>)
    ensures
        r@ == s@,
{
    let mut r: Vec<char> = Vec::new();
    for c in it: s.chars()
        invariant
            r@ == it.seq().take(it.index() as int),
    {
        r.push(c);
    }
    r
}

/// A string holding exactly the characters of `cs`.
pub fn string_of(cs: &Vec<char>) -> (r: String)
    ensures
        r@ == cs@,
{
    let mut r = String::new();
    let mut i: usize = 0;
    while i < cs.len()
        invariant
            i <= cs.len(),
            r@ == cs@.take(i as int),
        decreases cs.len() - i,
    {
        r.push(cs[i]);
        i = i + 1;
        assert(cs@.take(i as int) =~= cs@.take(i - 1).push(cs@[i - 1]));
    }
    assert(cs@.take(cs.len() as int) =~= cs@);
    r
}

/// Appends every character of `t` to `s`.
pub fn push_all(s: &mut String, t: &str)
    ensures
        final(s)@ == old(s)@ + t@,
{
    let cs = chars_of(t);
    let ghost start = s@;
    let mut i: usize = 0;
    while i < cs.len()
        invariant
            i <= cs.len(),
            cs@ == t@,
            s@ == start + cs@.take(i as int),
        decreases cs.len() - i,
    {
        s.push(cs[i]);
        i = i + 1;
        assert(cs@.take(i as int) =~= cs@.take(i - 1).push(cs@[i - 1]));
    }
    assert(cs@.take(cs.len() as int) =~= cs@);
}

// ---------------------------------------------------------------------------
// Whitespace and trimming
// ---------------------------------------------------------------------------

/// Unicode `White_Space`, the property that `char::is_whitespace` tests.
pub open spec fn is_white_space(c: char) -> bool {
    let u = c as u32;
    ||| 0x09 <= u <= 0x0d
    ||| u == 0x20
    ||| u == 0x85
    ||| u == 0xa0
    ||| u == 0x1680
    ||| 0x2000 <= u <= 0x200a
    ||| u == 0x2028
    ||| u == 0x2029
    ||| u == 0x202f
    ||| u == 0x205f
    ||| u == 0x3000
}

/// Every character of `s` is white space (so trimming leaves nothing).
pub open spec fn is_blank(s: Seq<char>) -> bool {
    forall|i: int| 0 <= i < s.len() ==> is_white_space(#[trigger] s[i])
}

/// `s` without its leading white space.
pub open spec fn trim_start(s: Seq<char>) -> Seq<char>
    decreases s.len(),
{
    if s.len() > 0 && is_white_space(s[0]) {
        trim_start(s.drop_first())
    } else {
        s
    }
}

/// Trimming a blank text leaves nothing.
pub proof fn lemma_trim_blank(s: Seq<char>)
    requires
        is_blank(s),
    ensures
        trim(s).len() == 0,
    decreases s.len(),
{
    if s.len() > 0 {
        assert(is_white_space(s[0]));
        assert(is_blank(s.drop_first())) by {
            assert forall|i: int| 0 <= i < s.drop_first().len() implies is_white_space(
                #[trigger] s.drop_first()[i],
            ) by {
                assert(s.drop_first()[i] == s[i + 1]);
            }
        }
        lemma_trim_blank(s.drop_first());
        assert(trim(s) == trim(s.drop_first()));
    }
}

/// `s` without its trailing white space.
pub open spec fn trim_end(s: Seq<char>) -> Seq<char>
    decreases s.len(),
{
    if s.len() > 0 && is_white_space(s.last()) {
        trim_end(s.drop_last())
    } else {
        s
    }
}

/// `s` without leading and trailing white space, as `str::trim` gives it.
pub open spec fn trim(s: Seq<char>) -> Seq<char> {
    trim_end(trim_start(s))
}

/// `s` without its trailing copies of `c`, as `str::trim_end_matches(c)` gives it.
pub open spec fn trim_end_char(s: Seq<char>, c: char) -> Seq<char>
    decreases s.len(),
{
    if s.len() > 0 && s.last() == c {
        trim_end_char(s.drop_last(), c)
    } else {
        s
    }
}

pub fn is_white_space_char(c: char) -> (r: bool)
    ensures
        r == is_white_space(c),
{
    let u = c as u32;
    (0x09 <= u && u <= 0x0d) || u == 0x20 || u == 0x85 || u == 0xa0 || u == 0x1680 || (0x2000
        <= u && u <= 0x200a) || u == 0x2028 || u == 0x2029 || u == 0x202f || u == 0x205f || u
        == 0x3000
}

proof fn lemma_trim_start_skip(s: Seq<char>, i: int)
    requires
        0 <= i < s.len(),
        is_white_space(s[i]),
    ensures
        trim_start(s.subrange(i, s.len() as int)) == trim_start(s.subrange(i + 1, s.len() as int)),
{
    assert(s.subrange(i, s.len() as int).drop_first() =~= s.subrange(i + 1, s.len() as int));
}

proof fn lemma_trim_end_skip(s: Seq<char>, j: int, c: char, by_char: bool)
    requires
        0 < j <= s.len(),
        by_char ==> s[j - 1] == c,
        !by_char ==> is_white_space(s[j - 1]),
    ensures
        by_char ==> trim_end_char(s.subrange(0, j), c) == trim_end_char(s.subrange(0, j - 1), c),
        !by_char ==> trim_end(s.subrange(0, j)) == trim_end(s.subrange(0, j - 1)),
{
    assert(s.subrange(0, j).drop_last() =~= s.subrange(0, j - 1));
}

/// Whether every character of `s` is white space.
pub fn blank(s: &str) -> (r: bool)
    ensures
        r == is_blank(s@),
{
    let cs = chars_of(s);
    let mut i: usize = 0;
    while i < cs.len()
        invariant
            i <= cs.len(),
            cs@ == s@,
            forall|k: int| 0 <= k < i ==> is_white_space(#[trigger] cs@[k]),
        decreases cs.len() - i,
    {
        if !is_white_space_char(cs[i]) {
            return false;
        }
        i = i + 1;
    }
    true
}

/// `str::trim` of `s`, as characters.
pub fn trimmed(s: &Vec<char>) -> (r: Vec<char>)
    ensures
        r@ == trim(s@),
{
    let n = s.len();
    let mut a: usize = 0;
    assert(s@.subrange(0, n as int) =~= s@);
    while a < n && is_white_space_char(s[a])
        invariant
            a <= n,
            n == s.len(),
            trim_start(s@) == trim_start(s@.subrange(a as int, n as int)),
        decreases n - a,
    {
        proof {
            lemma_trim_start_skip(s@, a as int);
        }
        a = a + 1;
    }
    let ghost t = s@.subrange(a as int, n as int);
    assert(trim_start(s@) == t) by {
        if a < n {
            assert(!is_white_space(t[0]));
        }
    }
    let mut b: usize = n;
    assert(t.subrange(0, n - a) =~= t);
    while b > a && is_white_space_char(s[b - 1])
        invariant
            a <= b <= n,
            n == s.len(),
            t == s@.subrange(a as int, n as int),
            trim_end(t) == trim_end(t.subrange(0, b - a)),
        decreases b - a,
    {
        proof {
            lemma_trim_end_skip(t, (b - a) as int, ' ', false);
        }
        b = b - 1;
    }
    let mut r: Vec<char> = Vec::new();
    let mut i: usize = a;
    while i < b
        invariant
            a <= i <= b <= n,
            n == s.len(),
            r@ == s@.subrange(a as int, i as int),
        decreases b - i,
    {
        r.push(s[i]);
        i = i + 1;
        assert(r@ =~= s@.subrange(a as int, i as int));
    }
    assert(t.subrange(0, b - a) =~= s@.subrange(a as int, b as int));
    r
}

/// `str::trim_end_matches(c)` of `s`, as characters.
pub fn trimmed_end_char(s: &Vec<char>, c: char) -> (r: Vec<char>)
    ensures
        r@ == trim_end_char(s@, c),
{
    let n = s.len();
    let mut b: usize = n;
    assert(s@.subrange(0, n as int) =~= s@);
    while b > 0 && s[b - 1] == c
        invariant
            b <= n,
            n == s.len(),
            trim_end_char(s@, c) == trim_end_char(s@.subrange(0, b as int), c),
        decreases b,
    {
        proof {
            lemma_trim_end_skip(s@, b as int, c, true);
        }
        b = b - 1;
    }
    let mut r: Vec<char> = Vec::new();
    let mut i: usize = 0;
    while i < b
        invariant
            i <= b <= n,
            n == s.len(),
            r@ == s@.subrange(0, i as int),
        decreases b - i,
    {
        r.push(s[i]);
        i = i + 1;
        assert(r@ =~= s@.subrange(0, i as int));
    }
    r
}

// ---------------------------------------------------------------------------
// ASCII case, prefixes and substrings
// ---------------------------------------------------------------------------

/// `char::to_ascii_lowercase`.
pub open spec fn ascii_lower_char(c: char) -> char {
    if 'A' <= c <= 'Z' {
        ((c as u32) + 32) as char
    } else {
        c
    }
}

/// `str::to_ascii_lowercase`, character by character.
pub open spec fn ascii_lower(s: Seq<char>) -> Seq<char> {
    s.map_values(|c: char| ascii_lower_char(c))
}

/// `s` begins with `p`.
pub open spec fn has_prefix(s: Seq<char>, p: Seq<char>) -> bool {
    p.len() <= s.len() && s.subrange(0, p.len() as int) == p
}

/// `needle` occurs in `s` starting at `i`.
pub open spec fn occurs_at(s: Seq<char>, needle: Seq<char>, i: int) -> bool {
    0 <= i && i + needle.len() <= s.len() && s.subrange(i, i + needle.len()) == needle
}

/// `needle` occurs somewhere in `s`, as `str::contains` tests.
pub open spec fn has_substring(s: Seq<char>, needle: Seq<char>) -> bool {
    exists|i: int| occurs_at(s, needle, i)
}

pub fn lower_ascii_char(c: char) -> (r: char)
    ensures
        r == ascii_lower_char(c),
{
    if 'A' <= c && c <= 'Z' {
        let b = (c as u32 + 32) as u8;
        assert(b as u32 == c as u32 + 32);
        b as char
    } else {
        c
    }
}

/// `to_ascii_lowercase` of `s`, as characters.
pub fn lower_ascii(s: &Vec<char>) -> (r: Vec<char>)
    ensures
        r@ == ascii_lower(s@),
{
    let mut r: Vec<char> = Vec::new();
    let mut i: usize = 0;
    while i < s.len()
        invariant
            i <= s.len(),
            r@ == ascii_lower(s@.take(i as int)),
        decreases s.len() - i,
    {
        r.push(lower_ascii_char(s[i]));
        i = i + 1;
        assert(ascii_lower(s@.take(i as int)) =~= ascii_lower(s@.take(i - 1)).push(
            ascii_lower_char(s@[i - 1]),
        ));
    }
    assert(s@.take(s.len() as int) =~= s@);
    r
}

/// Whether `needle` occurs in `s` starting at `i`.
pub fn matches_at(s: &Vec<char>, needle: &Vec<char>, i: usize) -> (r: bool)
    ensures
        r == occurs_at(s@, needle@, i as int),
{
    if needle.len() > s.len() || i > s.len() - needle.len() {
        return false;
    }
    let mut k: usize = 0;
    while k < needle.len()
        invariant
            k <= needle.len(),
            i + needle.len() <= s.len(),
            forall|j: int| 0 <= j < k ==> s@[i + j] == needle@[j],
        decreases needle.len() - k,
    {
        if s[i + k] != needle[k] {
            assert(s@.subrange(i as int, i + needle.len())[k as int] != needle@[k as int]);
            return false;
        }
        k = k + 1;
    }
    assert(s@.subrange(i as int, i + needle.len()) =~= needle@);
    true
}

/// Whether `s` begins with `p`.
pub fn starts_with(s: &Vec<char>, p: &Vec<char>) -> (r: bool)
    ensures
        r == has_prefix(s@, p@),
{
    matches_at(s, p, 0)
}

/// Whether `needle` occurs somewhere in `s`.
pub fn contains(s: &Vec<char>, needle: &Vec<char>) -> (r: bool)
    ensures
        r == has_substring(s@, needle@),
{
    if needle.len() > s.len() {
        return false;
    }
    let last = s.len() - needle.len();
    let mut i: usize = 0;
    while i < last
        invariant
            last == s.len() - needle.len(),
            i <= last,
            forall|j: int| 0 <= j < i ==> !occurs_at(s@, needle@, j),
        decreases last - i,
    {
        if matches_at(s, needle, i) {
            return true;
        }
        i = i + 1;
    }
    if matches_at(s, needle, last) {
        return true;
    }
    assert forall|j: int| !occurs_at(s@, needle@, j) by {
        if 0 <= j < i {
        }
    }
    false
}

// ---------------------------------------------------------------------------
// Decimal numbers
// ---------------------------------------------------------------------------

/// The digit character for `d < 10`.
pub open spec fn digit_char(d: nat) -> char {
    (('0' as u32) + d) as char
}

/// The decimal digits of `n`, most significant first, with no leading zeros.
pub open spec fn decimal_digits(n: nat) -> Seq<char>
    decreases n,
{
    if n < 10 {
        seq![digit_char(n)]
    } else {
        decimal_digits(n / 10).push(digit_char(n % 10))
    }
}

/// The decimal text of `x`, as `i64::to_string` and `u32::to_string` give it.
pub open spec fn decimal_text(x: int) -> Seq<char> {
    if x < 0 {
        seq!['-'] + decimal_digits((-x) as nat)
    } else {
        decimal_digits(x as nat)
    }
}

fn digit(d: u128) -> (r: char)
    requires
        d < 10,
    ensures
        r == digit_char(d as nat),
{
    let b = (d as u8) + 48;
    assert(b as u32 == ('0' as u32) + d);
    b as char
}

/// Appends the decimal digits of `n` to `s`.
pub fn push_decimal_digits(s: &mut String, n: u128)
    ensures
        final(s)@ == old(s)@ + decimal_digits(n as nat),
    decreases n,
{
    if n >= 10 {
        push_decimal_digits(s, n / 10);
    }
    s.push(digit(n % 10));
    proof {
        if n >= 10 {
            assert(old(s)@ + decimal_digits(n as nat) =~= (old(s)@ + decimal_digits(
                (n / 10) as nat,
            )).push(digit_char((n % 10) as nat)));
        } else {
            assert(old(s)@ + decimal_digits(n as nat) =~= old(s)@.push(digit_char(n as nat)));
        }
    }
}

/// Appends the decimal text of `x` to `s`.
pub fn push_decimal(s: &mut String, x: i64)
    ensures
        final(s)@ == old(s)@ + decimal_text(x as int),
{
    if x < 0 {
        s.push('-');
        let m: i128 = -(x as i128);
        push_decimal_digits(s, m as u128);
        assert(final(s)@ =~= old(s)@ + decimal_text(x as int));
    } else {
        push_decimal_digits(s, x as u128);
    }
}


/// The decimal digits of a number are one or more ASCII digits, two or more
/// from ten on.
pub proof fn lemma_decimal_digits_shape(n: nat)
    ensures
        decimal_digits(n).len() >= 1,
        n >= 10 ==> decimal_digits(n).len() >= 2,
        forall|i: int| 0 <= i < decimal_digits(n).len() ==> '0' <= #[trigger] decimal_digits(n)[i] <= '9',
    decreases n,
{
    if n >= 10 {
        lemma_decimal_digits_shape(n / 10);
    }
}

/// The decimal digits of a number determine it.
pub proof fn lemma_decimal_digits_injective(a: nat, b: nat)
    requires
        decimal_digits(a) == decimal_digits(b),
    ensures
        a == b,
    decreases a,
{
    lemma_decimal_digits_shape(a);
    lemma_decimal_digits_shape(b);
    if a < 10 && b < 10 {
        assert(decimal_digits(a)[0] == digit_char(a));
        assert(decimal_digits(b)[0] == digit_char(b));
    } else if a >= 10 && b >= 10 {
        assert(decimal_digits(a).drop_last() == decimal_digits(a / 10));
        assert(decimal_digits(b).drop_last() == decimal_digits(b / 10));
        lemma_decimal_digits_injective(a / 10, b / 10);
        assert(decimal_digits(a).last() == digit_char(a % 10));
        assert(decimal_digits(b).last() == digit_char(b % 10));
    }
}

/// The decimal text of a number holds no colon.
pub proof fn lemma_decimal_text_has_no_colon(x: int)
    ensures
        forall|i: int| 0 <= i < decimal_text(x).len() ==> #[trigger] decimal_text(x)[i] != ':',
{
    if x < 0 {
        lemma_decimal_digits_shape((-x) as nat);
        assert forall|i: int| 0 <= i < decimal_text(x).len() implies #[trigger] decimal_text(x)[i] != ':' by {
            if i > 0 {
                assert(decimal_text(x)[i] == decimal_digits((-x) as nat)[i - 1]);
            }
        }
    } else {
        lemma_decimal_digits_shape(x as nat);
    }
}

/// The decimal text of a number determines it.
pub proof fn lemma_decimal_text_injective(x: int, y: int)
    requires
        decimal_text(x) == decimal_text(y),
    ensures
        x == y,
{
    if x < 0 && y < 0 {
        assert(decimal_text(x).drop_first() =~= decimal_digits((-x) as nat));
        assert(decimal_text(y).drop_first() =~= decimal_digits((-y) as nat));
        lemma_decimal_digits_injective((-x) as nat, (-y) as nat);
    } else if x >= 0 && y >= 0 {
        lemma_decimal_digits_injective(x as nat, y as nat);
    } else if x < 0 {
        lemma_decimal_digits_shape(y as nat);
        assert(decimal_text(x)[0] == '-');
        assert(decimal_text(y)[0] == decimal_digits(y as nat)[0]);
    } else {
        lemma_decimal_digits_shape(x as nat);
        assert(decimal_text(y)[0] == '-');
        assert(decimal_text(x)[0] == decimal_digits(x as nat)[0]);
    }
}


/// `char::to_ascii_uppercase`.
pub open spec fn ascii_upper_char(c: char) -> char {
    if 'a' <= c <= 'z' {
        ((c as u32) - 32) as char
    } else {
        c
    }
}

/// `str::to_ascii_uppercase`, character by character.
pub open spec fn ascii_upper(s: Seq<char>) -> Seq<char> {
    s.map_values(|c: char| ascii_upper_char(c))
}

proof fn lemma_blank_drop_first(p: Seq<char>)
    requires
        is_blank(p),
        p.len() > 0,
    ensures
        is_blank(p.drop_first()),
{
    assert forall|i: int| 0 <= i < p.drop_first().len() implies is_white_space(
        #[trigger] p.drop_first()[i],
    ) by {
        assert(p.drop_first()[i] == p[i + 1]);
    }
}

proof fn lemma_blank_drop_last(q: Seq<char>)
    requires
        is_blank(q),
        q.len() > 0,
    ensures
        is_blank(q.drop_last()),
{
    assert forall|i: int| 0 <= i < q.drop_last().len() implies is_white_space(
        #[trigger] q.drop_last()[i],
    ) by {
        assert(q.drop_last()[i] == q[i]);
    }
}

/// Leading white space is trimmed away.
proof fn lemma_trim_start_blank_prefix(p: Seq<char>, s: Seq<char>)
    requires
        is_blank(p),
    ensures
        trim_start(p + s) == trim_start(s),
    decreases p.len(),
{
    if p.len() == 0 {
        assert(p + s =~= s);
    } else {
        assert((p + s)[0] == p[0]);
        assert((p + s).drop_first() =~= p.drop_first() + s);
        lemma_blank_drop_first(p);
        lemma_trim_start_blank_prefix(p.drop_first(), s);
    }
}

/// Trailing white space is trimmed away.
proof fn lemma_trim_end_blank_suffix(s: Seq<char>, q: Seq<char>)
    requires
        is_blank(q),
    ensures
        trim_end(s + q) == trim_end(s),
    decreases q.len(),
{
    if q.len() == 0 {
        assert(s + q =~= s);
    } else {
        assert((s + q).last() == q.last());
        assert((s + q).drop_last() =~= s + q.drop_last());
        lemma_blank_drop_last(q);
        lemma_trim_end_blank_suffix(s, q.drop_last());
    }
}

/// Trimming the start of a text that is not blank leaves what follows it untouched.
proof fn lemma_trim_start_append(s: Seq<char>, q: Seq<char>)
    requires
        !is_blank(s),
    ensures
        trim_start(s + q) == trim_start(s) + q,
    decreases s.len(),
{
    assert(s.len() > 0);
    assert((s + q)[0] == s[0]);
    if is_white_space(s[0]) {
        assert(!is_blank(s.drop_first())) by {
            let i = choose|i: int| 0 <= i < s.len() && !is_white_space(s[i]);
            assert(s.drop_first()[i - 1] == s[i]);
        }
        assert((s + q).drop_first() =~= s.drop_first() + q);
        lemma_trim_start_append(s.drop_first(), q);
    }
}

/// Trimming ignores white space around a text.
pub proof fn lemma_trim_ignores_surrounding_space(p: Seq<char>, s: Seq<char>, q: Seq<char>)
    requires
        is_blank(p),
        is_blank(q),
    ensures
        trim(p + s + q) == trim(s),
{
    assert(p + s + q =~= p + (s + q));
    lemma_trim_start_blank_prefix(p, s + q);
    if is_blank(s) {
        lemma_trim_blank(s);
        assert(is_blank(s + q)) by {
            assert forall|i: int| 0 <= i < (s + q).len() implies is_white_space(#[trigger] (s + q)[i]) by {
                if i < s.len() {
                    assert((s + q)[i] == s[i]);
                } else {
                    assert((s + q)[i] == q[i - s.len()]);
                }
            }
        }
        lemma_trim_blank(s + q);
        lemma_trim_start_blank_prefix(s + q, seq![]);
        assert((s + q) + seq![] =~= s + q);
    } else {
        lemma_trim_start_append(s, q);
        lemma_trim_end_blank_suffix(trim_start(s), q);
    }
}

/// `f` maps white space to white space and nothing else to white space.
pub open spec fn keeps_white_space(f: spec_fn(char) -> char) -> bool {
    forall|c: char| #[trigger] is_white_space(f(c)) == is_white_space(c)
}

proof fn lemma_trim_start_map(s: Seq<char>, f: spec_fn(char) -> char)
    requires
        keeps_white_space(f),
    ensures
        trim_start(s.map_values(f)) == trim_start(s).map_values(f),
    decreases s.len(),
{
    if s.len() > 0 {
        assert(s.map_values(f)[0] == f(s[0]));
        assert(is_white_space(f(s[0])) == is_white_space(s[0]));
        assert(s.map_values(f).drop_first() =~= s.drop_first().map_values(f));
        lemma_trim_start_map(s.drop_first(), f);
    } else {
        assert(s.map_values(f) =~= s);
    }
}

proof fn lemma_trim_end_map(s: Seq<char>, f: spec_fn(char) -> char)
    requires
        keeps_white_space(f),
    ensures
        trim_end(s.map_values(f)) == trim_end(s).map_values(f),
    decreases s.len(),
{
    if s.len() > 0 {
        assert(s.map_values(f).last() == f(s.last()));
        assert(is_white_space(f(s.last())) == is_white_space(s.last()));
        assert(s.map_values(f).drop_last() =~= s.drop_last().map_values(f));
        lemma_trim_end_map(s.drop_last(), f);
    } else {
        assert(s.map_values(f) =~= s);
    }
}

/// Upper-casing ASCII letters commutes with trimming, and lower-casing
/// afterwards undoes it.
pub proof fn lemma_lower_trim_upper(s: Seq<char>)
    ensures
        ascii_lower(trim(ascii_upper(s))) == ascii_lower(trim(s)),
{
    let f = |c: char| ascii_upper_char(c);
    assert forall|c: char| #[trigger] is_white_space(f(c)) == is_white_space(c) by {
        if 'a' <= c <= 'z' {
            assert((((c as u32) - 32) as char) as u32 == (c as u32) - 32);
        }
    }
    lemma_trim_start_map(s, f);
    lemma_trim_end_map(trim_start(s), f);
    let t = trim(s);
    assert(ascii_upper(s) == s.map_values(f));
    assert(trim(ascii_upper(s)) == t.map_values(f));
    assert forall|i: int| 0 <= i < t.len() implies #[trigger] ascii_lower_char(f(t[i]))
        == ascii_lower_char(t[i]) by {
        let c = t[i];
        if 'a' <= c <= 'z' {
            assert((((c as u32) - 32) as char) as u32 == (c as u32) - 32);
            assert((((((c as u32) - 32) as char) as u32) + 32) as char == c);
        }
    }
    assert(ascii_lower(t.map_values(f)) =~= ascii_lower(t));
}

} // verus!
