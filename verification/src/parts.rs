//! Cutting texts into parts and putting parts together.

use crate::text;
use vstd::prelude::*;

verus! {

// ── Pieces between separators ──────────────────────────────────────────────

/// The pieces of `s` between the occurrences of `c`, as `str::split` gives them.
pub open spec fn pieces(s: Seq<char>, c: char) -> Seq<Seq<char>>
    decreases s.len(),
{
    let i = text::next_char(s, c, 0);
    if 0 <= i < s.len() {
        seq![s.take(i)] + pieces(s.skip(i + 1), c)
    } else {
        seq![s]
    }
}

/// `str::split` at one character.
pub fn split(s: &str, c: char) -> (r: Vec<String>)
    ensures
        text::texts(r@) == pieces(s@, c),
{
    let v: Vec<char> = text::chars_of(s);
    let mut out: Vec<String> = Vec::new();
    let mut start: usize = 0;
    assert(v@.skip(0) =~= v@);
    assert(text::texts(out@) + pieces(v@, c) =~= pieces(v@, c));
    loop
        invariant
            start <= v.len(),
            v@ == s@,
            text::texts(out@) + pieces(v@.skip(start as int), c) == pieces(s@, c),
        decreases v.len() - start,
    {
        let ghost rest = v@.skip(start as int);
        let at: usize = text::find_char(&v, c, start);
        proof {
            next_char_of_skip(v@, c, start as int);
        }
        let part: String = text::string_of(&v, start, at);
        assert(part@ =~= rest.take(at - start));
        let ghost before = text::texts(out@);
        out.push(part);
        assert(text::texts(out@) =~= before.push(part@));
        if at == v.len() {
            assert(rest.take(at - start) =~= rest);
            assert(pieces(rest, c) =~= seq![rest]);
            assert(before + seq![rest] =~= before.push(part@));
            return out;
        }
        assert(rest.skip(at - start + 1) =~= v@.skip(at + 1));
        assert(before + (seq![part@] + pieces(v@.skip(at + 1), c)) =~= before.push(part@) + pieces(
            v@.skip(at + 1),
            c,
        ));
        start = at + 1;
    }
}

proof fn next_char_of_skip(s: Seq<char>, c: char, from: int)
    requires
        0 <= from <= s.len(),
    ensures
        text::next_char(s, c, from) == from + text::next_char(s.skip(from), c, 0),
{
    text::next_char_bounds(s, c, from);
    text::next_char_bounds(s.skip(from), c, 0);
    let a = text::next_char(s, c, from);
    let b = text::next_char(s.skip(from), c, 0);
    if from + b < a {
        assert(s.skip(from)[b] == c);
        assert(s[from + b] == c);
    }
    if a < from + b {
        assert(s[a] == c);
        assert(s.skip(from)[a - from] == c);
    }
}

/// Is `c` one of the two separators?
pub open spec fn either(c: char, a: char, b: char) -> bool {
    c == a || c == b
}

/// Where the first `a` or `b` stands in `s`, or the length of `s`.
pub open spec fn first_either(s: Seq<char>, a: char, b: char) -> int
    decreases s.len(),
{
    if s.len() == 0 || either(s[0], a, b) {
        0
    } else {
        1 + first_either(s.drop_first(), a, b)
    }
}

/// The text before the first `a` or `b`: the first piece of a split at both.
pub open spec fn before_either(s: Seq<char>, a: char, b: char) -> Seq<char> {
    s.take(first_either(s, a, b))
}

/// Where the piece behind the last `a` or `b` starts.
pub open spec fn tail_start(s: Seq<char>, a: char, b: char) -> int
    decreases s.len(),
{
    if s.len() == 0 || either(s.last(), a, b) {
        s.len() as int
    } else {
        tail_start(s.drop_last(), a, b)
    }
}

/// The text behind the last `a` or `b`: the last piece of a split at both.
pub open spec fn after_either(s: Seq<char>, a: char, b: char) -> Seq<char> {
    s.skip(tail_start(s, a, b))
}

/// The text before the first `a` or `b`.
pub fn head_before(s: &str, a: char, b: char) -> (r: String)
    ensures
        r@ == before_either(s@, a, b),
{
    let v: Vec<char> = text::chars_of(s);
    let mut i: usize = 0;
    assert(v@.skip(0) =~= v@);
    while i < v.len() && v[i] != a && v[i] != b
        invariant
            i <= v.len(),
            v@ == s@,
            first_either(v@, a, b) == i + first_either(v@.skip(i as int), a, b),
        decreases v.len() - i,
    {
        assert(v@.skip(i as int).drop_first() =~= v@.skip(i + 1));
        i = i + 1;
    }
    assert(first_either(v@.skip(i as int), a, b) == 0);
    assert(v@.subrange(0, i as int) =~= v@.take(i as int));
    text::string_of(&v, 0, i)
}

/// The text behind the last `a` or `b`.
pub fn tail_after(s: &str, a: char, b: char) -> (r: String)
    ensures
        r@ == after_either(s@, a, b),
{
    let v: Vec<char> = text::chars_of(s);
    let mut i: usize = v.len();
    assert(v@.take(i as int) =~= v@);
    while i > 0 && v[i - 1] != a && v[i - 1] != b
        invariant
            i <= v.len(),
            v@ == s@,
            tail_start(v@, a, b) == tail_start(v@.take(i as int), a, b),
        decreases i,
    {
        assert(v@.take(i as int).drop_last() =~= v@.take(i - 1));
        i = i - 1;
    }
    assert(tail_start(v@.take(i as int), a, b) == i);
    assert(v@.subrange(i as int, v@.len() as int) =~= v@.skip(i as int));
    text::string_of(&v, i, v.len())
}

/// The text before the first `sep` and the text behind it, where there is one.
pub open spec fn halves(s: Seq<char>, sep: Seq<char>) -> Option<(Seq<char>, Seq<char>)> {
    match text::find_of(s, sep) {
        Some(i) => Some((s.take(i), s.skip(i + sep.len()))),
        None => None,
    }
}

/// `str::split_once`.
pub fn split_once(s: &str, sep: &str) -> (r: Option<(String, String)>)
    ensures
        match r {
            Some((a, b)) => halves(s@, sep@) == Some((a@, b@)),
            None => halves(s@, sep@) == None::<(Seq<char>, Seq<char>)>,
        },
{
    let v: Vec<char> = text::chars_of(s);
    let n: Vec<char> = text::chars_of(sep);
    match text::find(s, sep) {
        Some(i) => {
            let total: usize = v.len();
            assert(text::occurs_at(s@, sep@, i as int));
            let a: String = text::string_of(&v, 0, i);
            let b: String = text::string_of(&v, i + n.len(), total);
            assert(a@ =~= s@.take(i as int));
            assert(b@ =~= s@.skip(i + sep@.len()));
            Some((a, b))
        },
        None => None,
    }
}

/// `s` without the prefix `p`, where it has it.
pub open spec fn without_prefix(s: Seq<char>, p: Seq<char>) -> Option<Seq<char>> {
    if text::starts(s, p) {
        Some(s.skip(p.len() as int))
    } else {
        None
    }
}

/// `str::strip_prefix`.
pub fn strip_prefix(s: &str, p: &str) -> (r: Option<String>)
    ensures
        match r {
            Some(t) => without_prefix(s@, p@) == Some(t@),
            None => without_prefix(s@, p@) == None::<Seq<char>>,
        },
{
    let v: Vec<char> = text::chars_of(s);
    let n: Vec<char> = text::chars_of(p);
    if text::matches_at(&v, &n, 0) {
        let t: String = text::string_of(&v, n.len(), v.len());
        assert(t@ =~= s@.skip(p@.len() as int));
        Some(t)
    } else {
        None
    }
}

/// `s` without any trailing `c`.
pub open spec fn without_trailing(s: Seq<char>, c: char) -> Seq<char>
    decreases s.len(),
{
    if s.len() > 0 && s.last() == c {
        without_trailing(s.drop_last(), c)
    } else {
        s
    }
}

/// `str::trim_end_matches` with one character.
pub fn trim_trailing(s: &str, c: char) -> (r: String)
    ensures
        r@ == without_trailing(s@, c),
{
    let v: Vec<char> = text::chars_of(s);
    let mut i: usize = v.len();
    assert(v@.take(i as int) =~= v@);
    while i > 0 && v[i - 1] == c
        invariant
            i <= v.len(),
            v@ == s@,
            without_trailing(v@, c) == without_trailing(v@.take(i as int), c),
        decreases i,
    {
        assert(v@.take(i as int).drop_last() =~= v@.take(i - 1));
        i = i - 1;
    }
    assert(v@.subrange(0, i as int) =~= v@.take(i as int));
    text::string_of(&v, 0, i)
}

// ── Words ──────────────────────────────────────────────────────────────────

/// Where the first white space stands in `s`, or the length of `s`.
pub open spec fn word_end(s: Seq<char>) -> int
    decreases s.len(),
{
    if s.len() == 0 || text::white(s[0]) {
        0
    } else {
        1 + word_end(s.drop_first())
    }
}

/// The runs of characters between white space, as `str::split_whitespace` gives them.
pub open spec fn words(s: Seq<char>) -> Seq<Seq<char>>
    decreases s.len(),
{
    if s.len() == 0 {
        Seq::empty()
    } else if text::white(s[0]) {
        words(s.drop_first())
    } else if 0 < word_end(s) <= s.len() {
        seq![s.take(word_end(s))] + words(s.skip(word_end(s)))
    } else {
        Seq::empty()
    }
}

proof fn word_end_bounds(s: Seq<char>)
    ensures
        0 <= word_end(s) <= s.len(),
        s.len() > 0 && !text::white(s[0]) ==> word_end(s) > 0,
        word_end(s) < s.len() ==> text::white(s[word_end(s)]),
        forall|i: int| 0 <= i < word_end(s) ==> !text::white(s[i]),
    decreases s.len(),
{
    if s.len() > 0 && !text::white(s[0]) {
        let t = s.drop_first();
        word_end_bounds(t);
        assert forall|i: int| 0 <= i < word_end(s) implies !text::white(s[i]) by {
            if i > 0 {
                assert(t[i - 1] == s[i]);
            }
        }
        if word_end(s) < s.len() {
            assert(t[word_end(t)] == s[word_end(s)]);
        }
    }
}

proof fn word_end_is(s: Seq<char>, n: int)
    requires
        0 <= n <= s.len(),
        n < s.len() ==> text::white(s[n]),
        forall|i: int| 0 <= i < n ==> !text::white(s[i]),
    ensures
        word_end(s) == n,
{
    word_end_bounds(s);
    if word_end(s) < n {
        assert(text::white(s[word_end(s)]));
    }
}

/// `str::split_whitespace`, collected.
pub fn split_words(s: &str) -> (r: Vec<String>)
    ensures
        text::texts(r@) == words(s@),
{
    let v: Vec<char> = text::chars_of(s);
    let mut out: Vec<String> = Vec::new();
    let mut i: usize = 0;
    assert(v@.skip(0) =~= v@);
    assert(text::texts(out@) + words(v@) =~= words(v@));
    while i < v.len()
        invariant
            i <= v.len(),
            v@ == s@,
            text::texts(out@) + words(v@.skip(i as int)) == words(s@),
        decreases v.len() - i,
    {
        let ghost rest = v@.skip(i as int);
        if text::is_white(v[i]) {
            assert(rest.drop_first() =~= v@.skip(i + 1));
            i = i + 1;
        } else {
            let mut j: usize = i;
            while j < v.len() && !text::is_white(v[j])
                invariant
                    i <= j <= v.len(),
                    forall|k: int| i <= k < j ==> !text::white(v@[k]),
                decreases v.len() - j,
            {
                j = j + 1;
            }
            proof {
                word_end_is(rest, j - i);
            }
            let part: String = text::string_of(&v, i, j);
            assert(part@ =~= rest.take(j - i));
            let ghost before = text::texts(out@);
            out.push(part);
            assert(text::texts(out@) =~= before.push(part@));
            assert(rest.skip(j - i) =~= v@.skip(j as int));
            assert(before + (seq![part@] + words(v@.skip(j as int))) =~= before.push(part@) + words(
                v@.skip(j as int),
            ));
            i = j;
        }
    }
    assert(v@.skip(i as int) =~= Seq::empty());
    assert(text::texts(out@) + Seq::empty() =~= text::texts(out@));
    out
}

/// The texts of `list` with `sep` between each two.
pub open spec fn joined(list: Seq<Seq<char>>, sep: Seq<char>) -> Seq<char>
    decreases list.len(),
{
    if list.len() == 0 {
        Seq::empty()
    } else if list.len() == 1 {
        list[0]
    } else {
        joined(list.drop_last(), sep) + sep + list.last()
    }
}

/// `[String]::join`.
pub fn join(list: &Vec<String>, sep: &str) -> (r: String)
    ensures
        r@ == joined(text::texts(list@), sep@),
{
    let mut out: String = String::new();
    let ghost all = text::texts(list@);
    let mut i: usize = 0;
    while i < list.len()
        invariant
            i <= list.len(),
            all == text::texts(list@),
            out@ == joined(all.take(i as int), sep@),
        decreases list.len() - i,
    {
        let ghost before = out@;
        if i > 0 {
            out.append(sep);
        }
        out.append(list[i].as_str());
        i = i + 1;
        proof {
            assert(all.take(i as int).drop_last() =~= all.take(i - 1));
            assert(all.take(i as int).last() == list@[i - 1]@);
            if i == 1 {
                assert(all.take(0) =~= Seq::<Seq<char>>::empty());
                assert(before =~= Seq::<char>::empty());
                assert(out@ =~= list@[0]@);
            }
        }
    }
    assert(all.take(i as int) =~= all);
    out
}

// ── Replacing ──────────────────────────────────────────────────────────────

/// `s` with `to` in the place of each occurrence of `from`, found left to right.
pub open spec fn replaced(s: Seq<char>, from: Seq<char>, to: Seq<char>) -> Seq<char>
    decreases s.len(),
{
    match text::find_of(s, from) {
        Some(i) => if from.len() > 0 && 0 <= i && i + from.len() <= s.len() {
            s.take(i) + to + replaced(s.skip(i + from.len()), from, to)
        } else {
            s
        },
        None => s,
    }
}

/// `str::replace`, for a non-empty pattern.
pub fn replace(s: &str, from: &str, to: &str) -> (r: String)
    requires
        from@.len() > 0,
    ensures
        r@ == replaced(s@, from@, to@),
{
    let v: Vec<char> = text::chars_of(s);
    let n: Vec<char> = text::chars_of(from);
    let mut out: String = String::new();
    let mut i: usize = 0;
    assert(v@.skip(0) =~= v@);
    assert(out@ + replaced(v@, from@, to@) =~= replaced(v@, from@, to@));
    loop
        invariant
            i <= v.len(),
            v@ == s@,
            n@ == from@,
            n.len() > 0,
            out@ + replaced(v@.skip(i as int), from@, to@) == replaced(s@, from@, to@),
        decreases v.len() - i,
    {
        let ghost rest = v@.skip(i as int);
        let ghost before = out@;
        match text::find_from(&v, &n, i) {
            Some(j) => {
                proof {
                    occurs_in_skip(v@, from@, i as int);
                    assert(text::is_first(rest, from@, j - i));
                    text::find_of_is(rest, from@, j - i);
                }
                let part: String = text::string_of(&v, i, j);
                out.append(part.as_str());
                out.append(to);
                assert(part@ =~= rest.take(j - i));
                assert(rest.skip(j - i + from@.len()) =~= v@.skip(j + n@.len()));
                assert(before + (part@ + to@ + replaced(v@.skip(j + n@.len()), from@, to@))
                    =~= out@ + replaced(v@.skip(j + n@.len()), from@, to@));
                i = j + n.len();
            },
            None => {
                proof {
                    occurs_in_skip(v@, from@, i as int);
                }
                let part: String = text::string_of(&v, i, v.len());
                out.append(part.as_str());
                assert(part@ =~= rest);
                assert(replaced(rest, from@, to@) == rest);
                return out;
            },
        }
    }
}

/// An occurrence in the rest of a text is one in the text, further on.
proof fn occurs_in_skip(s: Seq<char>, n: Seq<char>, from: int)
    requires
        0 <= from <= s.len(),
    ensures
        forall|j: int|
            0 <= j ==> #[trigger] text::occurs_at(s.skip(from), n, j) == text::occurs_at(
                s,
                n,
                from + j,
            ),
        forall|j: int|
            from <= j ==> #[trigger] text::occurs_at(s, n, j) == text::occurs_at(
                s.skip(from),
                n,
                j - from,
            ),
{
    assert forall|j: int| 0 <= j implies #[trigger] text::occurs_at(s.skip(from), n, j)
        == text::occurs_at(s, n, from + j) by {
        if from + j + n.len() <= s.len() {
            assert(s.skip(from).subrange(j, j + n.len()) =~= s.subrange(
                from + j,
                from + j + n.len(),
            ));
        }
    }
    assert forall|j: int| from <= j implies #[trigger] text::occurs_at(s, n, j) == text::occurs_at(
        s.skip(from),
        n,
        j - from,
    ) by {
        assert(text::occurs_at(s.skip(from), n, j - from) == text::occurs_at(
            s,
            n,
            from + (j - from),
        ));
    }
}

/// `s` with `to` in the place of each `a` and each `b`.
pub open spec fn swapped(s: Seq<char>, a: char, b: char, to: char) -> Seq<char> {
    Seq::new(
        s.len(),
        |i: int|
            if either(s[i], a, b) {
                to
            } else {
                s[i]
            },
    )
}

/// `to` in the place of each `a` and each `b`.
pub fn swap_either(s: &str, a: char, b: char, to: char) -> (r: String)
    ensures
        r@ == swapped(s@, a, b, to),
{
    let v: Vec<char> = text::chars_of(s);
    let mut out: String = String::new();
    let mut i: usize = 0;
    while i < v.len()
        invariant
            i <= v.len(),
            v@ == s@,
            out@ == swapped(s@, a, b, to).take(i as int),
        decreases v.len() - i,
    {
        let c: char = if v[i] == a || v[i] == b {
            to
        } else {
            v[i]
        };
        out.push(c);
        i = i + 1;
        assert(swapped(s@, a, b, to).take(i as int) =~= swapped(s@, a, b, to).take(i - 1).push(c));
    }
    assert(swapped(s@, a, b, to).take(i as int) =~= swapped(s@, a, b, to));
    out
}

/// `a`, then `b`.
pub fn concat(a: &str, b: &str) -> (r: String)
    ensures
        r@ == a@ + b@,
{
    let mut out: String = a.to_owned();
    out.append(b);
    out
}

/// `a`, then `b`, then `c`.
pub fn concat3(a: &str, b: &str, c: &str) -> (r: String)
    ensures
        r@ == a@ + b@ + c@,
{
    let mut out: String = a.to_owned();
    out.append(b);
    out.append(c);
    out
}

} // verus!
