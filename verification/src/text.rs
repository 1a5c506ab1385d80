//! Text operations on `str` and `String`, stated over sequences of characters.
//!
//! Positions are character positions. Whatever the Unicode tables decide (case,
//! letters and digits) goes through a named result.

use vstd::prelude::*;

verus! {

broadcast use {vstd::string::group_string_axioms, vstd::seq::group_seq_axioms};

// ── What std does and vstd does not specify ────────────────────────────────

/// `String::push`: the character goes to the end.
pub assume_specification[ String::push ](s: &mut String, ch: char)
    ensures
        final(s)@ == old(s)@.push(ch),
;

/// What `str::to_lowercase` returns for a text.
pub uninterp spec fn lowercase(s: Seq<char>) -> Seq<char>;

/// `str::to_lowercase`: the Unicode lower-case form, a function of the text alone.
#[verifier::external_body]
pub(crate) fn lower(s: &str) -> (r: String)
    ensures
        r@ == lowercase(s@),
{
    s.to_lowercase()
}

/// What `char::to_lowercase` yields for one character.
pub uninterp spec fn char_lowercase(c: char) -> Seq<char>;

/// `char::to_lowercase`, collected: the lower-case form of one character.
#[verifier::external_body]
pub(crate) fn lower_char(c: char) -> (r: Vec<char>)
    ensures
        r@ == char_lowercase(c),
{
    c.to_lowercase().collect()
}

/// What `char::is_alphanumeric` answers for one character.
pub uninterp spec fn alphanumeric(c: char) -> bool;

/// `char::is_alphanumeric`: the Unicode letter and number classes.
#[verifier::external_body]
pub(crate) fn is_alphanumeric(c: char) -> (r: bool)
    ensures
        r == alphanumeric(c),
{
    c.is_alphanumeric()
}

// ── Views ──────────────────────────────────────────────────────────────────

/// The texts of a list of strings.
pub open spec fn texts(v: Seq<String>) -> Seq<Seq<char>> {
    Seq::new(v.len(), |i: int| v[i]@)
}

/// The characters of `s`, addressable by position.
pub fn chars_of(s: &str) -> (r: Vec<char>)
    ensures
        r@ == s@,
{
    let mut out: Vec<char> = Vec::new();
    for c in it: s.chars()
        invariant
            it.seq() == s@,
            out@ == s@.subrange(0, it.index()),
    {
        out.push(c);
    }
    assert(s@.subrange(0, s@.len() as int) =~= s@);
    out
}

/// The text of characters `from..to`.
pub fn string_of(v: &Vec<char>, from: usize, to: usize) -> (r: String)
    requires
        from <= to <= v.len(),
    ensures
        r@ == v@.subrange(from as int, to as int),
{
    let mut out: String = String::new();
    let mut i: usize = from;
    while i < to
        invariant
            from <= i <= to <= v.len(),
            out@ == v@.subrange(from as int, i as int),
        decreases to - i,
    {
        out.push(v[i]);
        i = i + 1;
        assert(v@.subrange(from as int, i as int) =~= v@.subrange(from as int, i - 1).push(
            v@[i - 1],
        ));
    }
    out
}

/// Do the two texts agree character for character?
pub fn str_eq(a: &str, b: &str) -> (r: bool)
    ensures
        r == (a@ == b@),
{
    let x: String = a.to_owned();
    let y: String = b.to_owned();
    x == y
}

// ── Character classes ──────────────────────────────────────────────────────

/// The characters with the Unicode `White_Space` property.
pub open spec fn white(c: char) -> bool {
    let u = c as u32;
    ||| 0x9 <= u <= 0xd
    ||| u == 0x20
    ||| u == 0x85
    ||| u == 0xa0
    ||| u == 0x1680
    ||| 0x2000 <= u <= 0x200a
    ||| u == 0x2028
    ||| u == 0x2029
    ||| u == 0x202f
    ||| u == 0x205f
    ||| u == 0x3000
}

/// Is `c` white space?
pub fn is_white(c: char) -> (r: bool)
    ensures
        r == white(c),
{
    let u: u32 = c as u32;
    (0x9 <= u && u <= 0xd) || u == 0x20 || u == 0x85 || u == 0xa0 || u == 0x1680 || (0x2000 <= u
        && u <= 0x200a) || u == 0x2028 || u == 0x2029 || u == 0x202f || u == 0x205f || u == 0x3000
}

/// The ASCII digits.
pub open spec fn digit(c: char) -> bool {
    '0' <= c && c <= '9'
}

/// The ASCII letters.
pub open spec fn ascii_letter(c: char) -> bool {
    ('a' <= c && c <= 'z') || ('A' <= c && c <= 'Z')
}

/// The ASCII hexadecimal digits.
pub open spec fn hex_digit(c: char) -> bool {
    digit(c) || ('a' <= c && c <= 'f') || ('A' <= c && c <= 'F')
}

/// One character with its ASCII upper case folded down.
pub open spec fn ascii_low(c: char) -> char {
    if 'A' <= c && c <= 'Z' {
        ((c as u32 + 32) as u32) as char
    } else {
        c
    }
}

/// A text with its ASCII upper case folded down.
pub open spec fn ascii_lower(s: Seq<char>) -> Seq<char> {
    Seq::new(s.len(), |i: int| ascii_low(s[i]))
}

/// `c` with its ASCII upper case folded down.
pub fn low_char(c: char) -> (r: char)
    ensures
        r == ascii_low(c),
{
    if 'A' <= c && c <= 'Z' {
        let u: u8 = c as u8;
        (u + 32) as char
    } else {
        c
    }
}

/// `s` with its ASCII upper case folded down.
pub fn to_ascii_lower(s: &str) -> (r: String)
    ensures
        r@ == ascii_lower(s@),
{
    let v: Vec<char> = chars_of(s);
    let mut out: String = String::new();
    let mut i: usize = 0;
    while i < v.len()
        invariant
            i <= v.len(),
            v@ == s@,
            out@ == ascii_lower(s@.subrange(0, i as int)),
        decreases v.len() - i,
    {
        out.push(low_char(v[i]));
        i = i + 1;
        assert(ascii_lower(s@.subrange(0, i as int)) =~= ascii_lower(s@.subrange(0, i - 1)).push(
            ascii_low(s@[i - 1]),
        ));
    }
    assert(s@.subrange(0, i as int) =~= s@);
    out
}

// ── Trimming ───────────────────────────────────────────────────────────────

/// `s` without its leading white space.
pub open spec fn trim_start(s: Seq<char>) -> Seq<char>
    decreases s.len(),
{
    if s.len() > 0 && white(s[0]) {
        trim_start(s.drop_first())
    } else {
        s
    }
}

/// `s` without its trailing white space.
pub open spec fn trim_end(s: Seq<char>) -> Seq<char>
    decreases s.len(),
{
    if s.len() > 0 && white(s.last()) {
        trim_end(s.drop_last())
    } else {
        s
    }
}

/// `s` without the white space at either end.
pub open spec fn trimmed(s: Seq<char>) -> Seq<char> {
    trim_end(trim_start(s))
}

/// Trimming leaves no white space at either end, and trimming again changes nothing.
pub proof fn trimmed_twice(s: Seq<char>)
    ensures
        trimmed(trimmed(s)) == trimmed(s),
        trimmed(s).len() > 0 ==> !white(trimmed(s)[0]) && !white(trimmed(s).last()),
{
    let a = trim_start(s);
    trim_start_clean(s);
    trim_end_clean(a);
    if trim_end(a).len() > 0 {
        trim_end_prefix(a);
    }
    let t = trimmed(s);
    assert(trim_start(t) == t);
    assert(trim_end(t) == t);
}

proof fn trim_start_clean(s: Seq<char>)
    ensures
        trim_start(s).len() > 0 ==> !white(trim_start(s)[0]),
    decreases s.len(),
{
    if s.len() > 0 && white(s[0]) {
        trim_start_clean(s.drop_first());
    }
}

proof fn trim_end_clean(s: Seq<char>)
    ensures
        trim_end(s).len() > 0 ==> !white(trim_end(s).last()),
    decreases s.len(),
{
    if s.len() > 0 && white(s.last()) {
        trim_end_clean(s.drop_last());
    }
}

/// What trimming the end leaves is a prefix.
pub proof fn trim_end_prefix(s: Seq<char>)
    ensures
        trim_end(s).len() <= s.len(),
        trim_end(s) == s.subrange(0, trim_end(s).len() as int),
    decreases s.len(),
{
    if s.len() > 0 && white(s.last()) {
        trim_end_prefix(s.drop_last());
        assert(s.subrange(0, trim_end(s).len() as int) =~= s.drop_last().subrange(
            0,
            trim_end(s).len() as int,
        ));
    } else {
        assert(s.subrange(0, s.len() as int) =~= s);
    }
}

/// `str::trim`: `s` without the white space at either end.
pub fn trim(s: &str) -> (r: String)
    ensures
        r@ == trimmed(s@),
{
    let v: Vec<char> = chars_of(s);
    let n: usize = v.len();
    let mut a: usize = 0;
    assert(v@.subrange(0, n as int) =~= v@);
    while a < n && is_white(v[a])
        invariant
            n == v.len(),
            a <= n,
            v@ == s@,
            trim_start(v@) == trim_start(v@.subrange(a as int, n as int)),
        decreases n - a,
    {
        assert(v@.subrange(a as int, n as int).drop_first() =~= v@.subrange(a + 1, n as int));
        a = a + 1;
    }
    let ghost t = v@.subrange(a as int, n as int);
    assert(trim_start(t) == t);
    let mut b: usize = n;
    while b > a && is_white(v[b - 1])
        invariant
            n == v.len(),
            a <= b <= n,
            v@ == s@,
            t == v@.subrange(a as int, n as int),
            trim_end(t) == trim_end(v@.subrange(a as int, b as int)),
        decreases b - a,
    {
        assert(v@.subrange(a as int, b as int).drop_last() =~= v@.subrange(a as int, b - 1));
        b = b - 1;
    }
    let ghost u = v@.subrange(a as int, b as int);
    assert(trim_end(u) == u);
    string_of(&v, a, b)
}

/// `str::trim_start`: `s` without its leading white space.
pub fn trim_front(s: &str) -> (r: String)
    ensures
        r@ == trim_start(s@),
{
    let v: Vec<char> = chars_of(s);
    let n: usize = v.len();
    let mut a: usize = 0;
    assert(v@.subrange(0, n as int) =~= v@);
    while a < n && is_white(v[a])
        invariant
            n == v.len(),
            a <= n,
            v@ == s@,
            trim_start(v@) == trim_start(v@.subrange(a as int, n as int)),
        decreases n - a,
    {
        assert(v@.subrange(a as int, n as int).drop_first() =~= v@.subrange(a + 1, n as int));
        a = a + 1;
    }
    let ghost t = v@.subrange(a as int, n as int);
    assert(trim_start(t) == t);
    string_of(&v, a, n)
}

/// `str::trim_end`: `s` without its trailing white space.
pub fn trim_back(s: &str) -> (r: String)
    ensures
        r@ == trim_end(s@),
{
    let v: Vec<char> = chars_of(s);
    let mut b: usize = v.len();
    assert(v@.subrange(0, b as int) =~= v@);
    while b > 0 && is_white(v[b - 1])
        invariant
            b <= v.len(),
            v@ == s@,
            trim_end(s@) == trim_end(v@.subrange(0, b as int)),
        decreases b,
    {
        assert(v@.subrange(0, b as int).drop_last() =~= v@.subrange(0, b - 1));
        b = b - 1;
    }
    let ghost u = v@.subrange(0, b as int);
    assert(trim_end(u) == u);
    string_of(&v, 0, b)
}

// ── Searching ──────────────────────────────────────────────────────────────

/// `n` stands in `h` at position `i`.
pub open spec fn occurs_at(h: Seq<char>, n: Seq<char>, i: int) -> bool {
    0 <= i && i + n.len() <= h.len() && h.subrange(i, i + n.len()) == n
}

/// `n` stands somewhere in `h`.
pub open spec fn occurs(h: Seq<char>, n: Seq<char>) -> bool {
    exists|i: int| occurs_at(h, n, i)
}

/// The first position of `n` in `h`.
pub open spec fn is_first(h: Seq<char>, n: Seq<char>, i: int) -> bool {
    occurs_at(h, n, i) && forall|j: int| 0 <= j < i ==> !occurs_at(h, n, j)
}

/// Where `n` first stands in `h`, if it does.
pub open spec fn find_of(h: Seq<char>, n: Seq<char>) -> Option<int> {
    if occurs(h, n) {
        Some(choose|i: int| is_first(h, n, i))
    } else {
        None
    }
}

/// A first position is the one that `find_of` gives.
pub proof fn find_of_is(h: Seq<char>, n: Seq<char>, i: int)
    requires
        is_first(h, n, i),
    ensures
        find_of(h, n) == Some(i),
{
    let k = choose|k: int| is_first(h, n, k);
    assert(is_first(h, n, k));
    if k < i {
        assert(!occurs_at(h, n, k));
    }
    if i < k {
        assert(!occurs_at(h, n, i));
    }
}

/// `h` starts with `n`.
pub open spec fn starts(h: Seq<char>, n: Seq<char>) -> bool {
    occurs_at(h, n, 0)
}

/// `h` ends with `n`.
pub open spec fn ends(h: Seq<char>, n: Seq<char>) -> bool {
    n.len() <= h.len() && occurs_at(h, n, h.len() - n.len())
}

/// Does `n` stand in `h` at position `i`?
pub fn matches_at(h: &Vec<char>, n: &Vec<char>, i: usize) -> (r: bool)
    requires
        i <= h.len(),
    ensures
        r == occurs_at(h@, n@, i as int),
{
    if n.len() > h.len() - i {
        return false;
    }
    let mut k: usize = 0;
    while k < n.len()
        invariant
            k <= n.len(),
            i + n.len() <= h.len(),
            forall|j: int| 0 <= j < k ==> h@[i + j] == n@[j],
        decreases n.len() - k,
    {
        if h[i + k] != n[k] {
            assert(h@.subrange(i as int, i + n@.len())[k as int] != n@[k as int]);
            return false;
        }
        k = k + 1;
    }
    assert(h@.subrange(i as int, i + n@.len()) =~= n@);
    true
}

/// `str::find` on character positions, from position `from` on.
pub fn find_from(h: &Vec<char>, n: &Vec<char>, from: usize) -> (r: Option<usize>)
    requires
        from <= h.len(),
    ensures
        match r {
            Some(i) => from <= i && occurs_at(h@, n@, i as int) && forall|j: int|
                from <= j < i ==> !occurs_at(h@, n@, j),
            None => forall|j: int| from <= j ==> !occurs_at(h@, n@, j),
        },
{
    let mut i: usize = from;
    while i <= h.len()
        invariant
            from <= i <= h.len() + 1,
            forall|j: int| from <= j < i ==> !occurs_at(h@, n@, j),
        decreases h.len() + 1 - i,
    {
        if matches_at(h, n, i) {
            return Some(i);
        }
        if i == h.len() {
            return None;
        }
        i = i + 1;
    }
    None
}

/// `str::find` on character positions.
pub fn find(h: &str, n: &str) -> (r: Option<usize>)
    ensures
        match r {
            Some(i) => find_of(h@, n@) == Some(i as int) && is_first(h@, n@, i as int),
            None => find_of(h@, n@) == None::<int>,
        },
{
    let hv: Vec<char> = chars_of(h);
    let nv: Vec<char> = chars_of(n);
    let r: Option<usize> = find_from(&hv, &nv, 0);
    proof {
        if let Some(i) = r {
            find_of_is(h@, n@, i as int);
        }
    }
    r
}

/// `str::contains`.
pub fn contains(h: &str, n: &str) -> (r: bool)
    ensures
        r == occurs(h@, n@),
{
    find(h, n).is_some()
}

/// `str::starts_with`.
pub fn starts_with(h: &str, n: &str) -> (r: bool)
    ensures
        r == starts(h@, n@),
{
    let hv: Vec<char> = chars_of(h);
    let nv: Vec<char> = chars_of(n);
    matches_at(&hv, &nv, 0)
}

/// `str::ends_with`.
pub fn ends_with(h: &str, n: &str) -> (r: bool)
    ensures
        r == ends(h@, n@),
{
    let hv: Vec<char> = chars_of(h);
    let nv: Vec<char> = chars_of(n);
    if nv.len() > hv.len() {
        return false;
    }
    matches_at(&hv, &nv, hv.len() - nv.len())
}

/// The first position of `c` in `s` from `from` on, or the length of `s`.
pub open spec fn next_char(s: Seq<char>, c: char, from: int) -> int
    decreases s.len() - from,
{
    if from < 0 || from >= s.len() {
        s.len() as int
    } else if s[from] == c {
        from
    } else {
        next_char(s, c, from + 1)
    }
}

/// The bounds of `next_char`, and what it says.
pub proof fn next_char_bounds(s: Seq<char>, c: char, from: int)
    requires
        0 <= from <= s.len(),
    ensures
        from <= next_char(s, c, from) <= s.len(),
        next_char(s, c, from) < s.len() ==> s[next_char(s, c, from)] == c,
        forall|j: int| from <= j < next_char(s, c, from) ==> s[j] != c,
    decreases s.len() - from,
{
    if from < s.len() && s[from] != c {
        next_char_bounds(s, c, from + 1);
    }
}

/// The first position of `c` in `v` from `from` on, or the length of `v`.
pub fn find_char(v: &Vec<char>, c: char, from: usize) -> (r: usize)
    requires
        from <= v.len(),
    ensures
        r == next_char(v@, c, from as int),
        from <= r <= v.len(),
{
    let mut i: usize = from;
    while i < v.len() && v[i] != c
        invariant
            from <= i <= v.len(),
            next_char(v@, c, from as int) == next_char(v@, c, i as int),
        decreases v.len() - i,
    {
        i = i + 1;
    }
    i
}

} // verus!
