//! Addresses, paths and names: what is read off them.

use crate::laws;
use crate::library::names;
use crate::net;
use crate::parts;
use crate::text;
use vstd::prelude::*;

verus! {

/// No character of the text is `c`.
pub open spec fn without(s: Seq<char>, c: char) -> bool {
    forall|i: int| 0 <= i < s.len() ==> #[trigger] s[i] != c
}

/// The text is empty or begins with `c`.
pub open spec fn begins_with(s: Seq<char>, c: char) -> bool {
    s.len() == 0 || s[0] == c
}

/// The text begins and ends with something printed.
pub open spec fn tight(s: Seq<char>) -> bool {
    s.len() > 0 && !text::white(s[0]) && !text::white(s.last())
}

pub(crate) proof fn tight_is_trimmed(s: Seq<char>)
    requires
        tight(s),
    ensures
        text::trimmed(s) == s,
{
}

// ── Pieces ─────────────────────────────────────────────────────────────────

proof fn char_is_next(s: Seq<char>, c: char, from: int, i: int)
    requires
        0 <= from <= i < s.len(),
        s[i] == c,
        forall|k: int| from <= k < i ==> s[k] != c,
    ensures
        text::next_char(s, c, from) == i,
    decreases i - from,
{
    if from < i {
        char_is_next(s, c, from + 1, i);
    }
}

proof fn char_is_nowhere(s: Seq<char>, c: char, from: int)
    requires
        0 <= from <= s.len(),
        forall|k: int| from <= k < s.len() ==> s[k] != c,
    ensures
        text::next_char(s, c, from) == s.len(),
    decreases s.len() - from,
{
    if from < s.len() {
        char_is_nowhere(s, c, from + 1);
    }
}

proof fn whole_is_one_piece(a: Seq<char>, c: char)
    requires
        without(a, c),
    ensures
        parts::pieces(a, c) == seq![a],
{
    char_is_nowhere(a, c, 0);
}

proof fn first_piece(a: Seq<char>, c: char, b: Seq<char>)
    requires
        without(a, c),
    ensures
        parts::pieces(a + seq![c] + b, c) == seq![a] + parts::pieces(b, c),
{
    let s = a + seq![c] + b;
    assert forall|k: int| 0 <= k < a.len() implies s[k] != c by {
        assert(s[k] == a[k]);
    }
    char_is_next(s, c, 0, a.len() as int);
    assert(s.take(a.len() as int) =~= a);
    assert(s.skip(a.len() as int + 1) =~= b);
}

/// The pieces of a text are those before a separator and those behind it.
pub proof fn pieces_add_up(a: Seq<char>, c: char, b: Seq<char>)
    ensures
        parts::pieces(a + seq![c] + b, c) == parts::pieces(a, c) + parts::pieces(b, c),
    decreases a.len(),
{
    if without(a, c) {
        whole_is_one_piece(a, c);
        first_piece(a, c, b);
    } else {
        let i = first_sep(a, c);
        let (x, y) = (a.take(i), a.skip(i + 1));
        assert(a =~= x + seq![c] + y);
        first_piece(x, c, y);
        assert(a + seq![c] + b =~= x + seq![c] + (y + seq![c] + b));
        first_piece(x, c, y + seq![c] + b);
        pieces_add_up(y, c, b);
        assert(seq![x] + (parts::pieces(y, c) + parts::pieces(b, c)) =~= (seq![x] + parts::pieces(
            y,
            c,
        )) + parts::pieces(b, c));
    }
}

proof fn first_sep(a: Seq<char>, c: char) -> (i: int)
    requires
        !without(a, c),
    ensures
        0 <= i < a.len(),
        a[i] == c,
        without(a.take(i), c),
    decreases a.len(),
{
    if a[0] == c {
        assert(a.take(0).len() == 0);
        0
    } else {
        let k = choose|k: int| 0 <= k < a.len() && #[trigger] a[k] == c;
        let d = a.drop_first();
        assert(d[k - 1] == c);
        let i = first_sep(d, c);
        assert forall|j: int| 0 <= j < a.take(i + 1).len() implies #[trigger] a.take(i + 1)[j] != c by {
            if j > 0 {
                assert(d.take(i)[j - 1] == a[j]);
            }
        }
        i + 1
    }
}

// ── Items ──────────────────────────────────────────────────────────────────

proof fn item_behind(head: Seq<Seq<char>>, segs: Seq<Seq<char>>)
    requires
        forall|i: int| 0 <= i < head.len() ==> #[trigger] head[i] != "details"@ && head[i] != "download"@,
        segs.len() >= 2,
    ensures
        net::item_in(head + segs) == net::item_in(segs),
    decreases head.len(),
{
    if head.len() > 0 {
        let d = head.drop_first();
        assert((head + segs).drop_first() =~= d + segs);
        assert((head + segs)[0] == head[0]);
        assert forall|i: int| 0 <= i < d.len() implies #[trigger] d[i] != "details"@ && d[i]
            != "download"@ by {
            assert(d[i] == head[i + 1]);
        }
        item_behind(d, segs);
    } else {
        assert(head + segs =~= segs);
    }
}

/// The address of an item, whatever stands before `details` or `download` and whatever
/// follows the item, names the item.
pub proof fn an_address_names_its_item(
    head: Seq<char>,
    download: bool,
    id: Seq<char>,
    tail: Seq<char>,
)
    requires
        forall|i: int|
            0 <= i < parts::pieces(head, '/').len() ==> #[trigger] parts::pieces(head, '/')[i]
                != "details"@ && parts::pieces(head, '/')[i] != "download"@,
        id.len() > 0,
        without(id, '/'),
        begins_with(tail, '/'),
        tight(
            head + seq!['/'] + (if download {
                "download"@
            } else {
                "details"@
            }) + seq!['/'] + id + tail,
        ),
    ensures
        net::item_id(
            head + seq!['/'] + (if download {
                "download"@
            } else {
                "details"@
            }) + seq!['/'] + id + tail,
        ) == Some(id),
{
    reveal_strlit("details");
    reveal_strlit("download");
    reveal_strlit("/");
    let verb = if download {
        "download"@
    } else {
        "details"@
    };
    let t = head + seq!['/'] + verb + seq!['/'] + id + tail;
    tight_is_trimmed(t);
    assert(text::occurs_at(t, "/"@, head.len() as int)) by {
        assert(t.subrange(head.len() as int, head.len() as int + 1) =~= "/"@);
    }
    assert(without(verb, '/'));
    let end = id + tail;
    assert(t =~= head + seq!['/'] + (verb + seq!['/'] + end));
    pieces_add_up(head, '/', verb + seq!['/'] + end);
    first_piece(verb, '/', end);
    let rest = parts::pieces(end, '/');
    if tail.len() == 0 {
        assert(end =~= id);
        whole_is_one_piece(id, '/');
    } else {
        assert(end =~= id + seq!['/'] + tail.drop_first());
        first_piece(id, '/', tail.drop_first());
    }
    assert(rest[0] == id);
    let segs = seq![verb] + rest;
    assert(segs[0] == verb && segs[1] == id);
    item_behind(parts::pieces(head, '/'), segs);
}

/// A text without a slash is an item by itself, without the blanks round it; an empty
/// one is none.
pub proof fn a_bare_id_is_an_item(t: Seq<char>)
    requires
        without(text::trimmed(t), '/'),
    ensures
        net::item_id(t) == (if text::trimmed(t).len() == 0 {
            None
        } else {
            Some(text::trimmed(t))
        }),
{
    reveal_strlit("/");
    let s = text::trimmed(t);
    if text::occurs(s, "/"@) {
        let i = choose|i: int| text::occurs_at(s, "/"@, i);
        assert(s.subrange(i, i + 1)[0] == "/"@[0]);
        assert(s[i] == '/');
    }
}

// ── Paths ──────────────────────────────────────────────────────────────────

proof fn tail_starts(s: Seq<char>, a: char, b: char, n: int)
    requires
        0 <= n <= s.len(),
        forall|i: int| n <= i < s.len() ==> s[i] != a && s[i] != b,
        n > 0 ==> s[n - 1] == a || s[n - 1] == b,
    ensures
        parts::tail_start(s, a, b) == n,
    decreases s.len(),
{
    if n < s.len() {
        tail_starts(s.drop_last(), a, b, n);
    }
}

proof fn head_ends(s: Seq<char>, a: char, b: char, n: int)
    requires
        0 <= n <= s.len(),
        forall|i: int| 0 <= i < n ==> s[i] != a && s[i] != b,
        n < s.len() ==> s[n] == a || s[n] == b,
    ensures
        parts::first_either(s, a, b) == n,
    decreases n,
{
    if n > 0 {
        head_ends(s.drop_first(), a, b, n - 1);
    }
}

/// A path is the path of its directory, a slash and a name: the name is what stands
/// behind the last slash, the directory what stands before it.
pub proof fn a_path_has_a_directory_and_a_name(dir: Seq<char>, name: Seq<char>)
    requires
        without(name, '/'),
        without(name, '\\'),
    ensures
        names::base_of(dir + seq!['/'] + name) == name,
        names::parent_of(dir + seq!['/'] + name) == dir,
        names::base_of(name) == name,
        names::parent_of(name).len() == 0,
{
    let s = dir + seq!['/'] + name;
    let n = dir.len() + 1;
    assert forall|i: int| n <= i < s.len() implies s[i] != '/' && s[i] != '\\' by {
        assert(s[i] == name[i - n]);
    }
    tail_starts(s, '/', '\\', n as int);
    tail_starts(s, '/', '/', n as int);
    tail_starts(name, '/', '\\', 0);
    tail_starts(name, '/', '/', 0);
    assert(s.skip(n as int) =~= name);
    assert(s.take(n - 1) =~= dir);
    assert(name.skip(0) =~= name);
}

/// A downloaded file is named as its address ends, without a query or a fragment; one
/// that does not end in `.swf`, in either case, gets that ending.
pub proof fn a_file_is_named_by_its_address(dirs: Seq<char>, name: Seq<char>, query: Seq<char>)
    requires
        name.len() > 0,
        without(name, '/'),
        without(name, '\\'),
        without(name, '?'),
        without(name, '#'),
        without(query, '/'),
        query.len() == 0 || query[0] == '?' || query[0] == '#',
    ensures
        ({
            let n = name.len() as int;
            let swf = n >= 4 && name[n - 4] == '.' && (name[n - 3] == 's' || name[n - 3] == 'S') && (
            name[n - 2] == 'w' || name[n - 2] == 'W') && (name[n - 1] == 'f' || name[n - 1]
                == 'F');
            names::url_file_name(dirs + seq!['/'] + name + query) == (if swf {
                name
            } else {
                name + seq!['.', 's', 'w', 'f']
            })
        }),
{
    reveal_strlit(".swf");
    let s = dirs + seq!['/'] + name + query;
    let k = dirs.len() + 1;
    let tail = name + query;
    assert forall|i: int| k <= i < s.len() implies s[i] != '/' by {
        if i < k + name.len() {
            assert(s[i] == name[i - k]);
        } else {
            assert(s[i] == query[i - k - name.len()]);
        }
    }
    tail_starts(s, '/', '/', k as int);
    assert(s.skip(k as int) =~= tail);
    assert forall|i: int| 0 <= i < name.len() implies tail[i] != '?' && tail[i] != '#' by {
        assert(tail[i] == name[i]);
    }
    head_ends(tail, '?', '#', name.len() as int);
    assert(tail.take(name.len() as int) =~= name);
    assert(parts::swapped(name, '/', '\\', '_') =~= name);
    let low = text::ascii_lower(name);
    let n = name.len() as int;
    let end = seq!['.', 's', 'w', 'f'];
    assert(".swf"@ =~= end);
    if n >= 4 {
        let t = low.subrange(n - 4, n);
        assert(t[0] == low[n - 4] && t[1] == low[n - 3] && t[2] == low[n - 2] && t[3] == low[n - 1]);
        assert(end[0] == '.' && end[1] == 's' && end[2] == 'w' && end[3] == 'f');
        if low[n - 4] == '.' && low[n - 3] == 's' && low[n - 2] == 'w' && low[n - 1] == 'f' {
            assert(t =~= end);
        }
        low_is(name[n - 4]);
        low_is(name[n - 3]);
        low_is(name[n - 2]);
        low_is(name[n - 1]);
    }
}

proof fn low_is(c: char)
    ensures
        text::ascii_low(c) == '.' <==> c == '.',
        text::ascii_low(c) == 's' <==> c == 's' || c == 'S',
        text::ascii_low(c) == 'w' <==> c == 'w' || c == 'W',
        text::ascii_low(c) == 'f' <==> c == 'f' || c == 'F',
{
}

// ── Covers ─────────────────────────────────────────────────────────────────

/// The address of a screenshot is that of the logo with the one directory for the
/// other; the address of a logo is as it is given.
pub proof fn a_screenshot_stands_beside_its_logo(a: Seq<char>, b: Seq<char>)
    requires
        !laws::found_in(b, "/Logos/"@),
        forall|i: int|
            0 <= i < a.len() ==> !#[trigger] text::occurs_at(a + "/Logos/"@ + b, "/Logos/"@, i),
    ensures
        names::cover_address(a + "/Logos/"@ + b, true) == a + "/Screenshots/"@ + b,
        names::cover_address(a + "/Logos/"@ + b, false) == a + "/Logos/"@ + b,
{
    reveal_strlit("/Logos/");
    let s = a + "/Logos/"@ + b;
    let n = a.len() as int;
    assert(s.subrange(n, n + "/Logos/"@.len()) =~= "/Logos/"@);
    assert(text::is_first(s, "/Logos/"@, n));
    text::find_of_is(s, "/Logos/"@, n);
    assert(s.take(n) =~= a);
    assert(s.skip(n + "/Logos/"@.len()) =~= b);
    laws::lists::occurrence(b, "/Logos/"@);
    assert(parts::replaced(b, "/Logos/"@, "/Screenshots/"@) == b);
}

// ── Labels ─────────────────────────────────────────────────────────────────

proof fn scheme_is_cut(scheme: Seq<char>, rest: Seq<char>)
    requires
        without(scheme, ':'),
    ensures
        parts::halves(scheme + "://"@ + rest, "://"@) == Some((scheme, rest)),
{
    reveal_strlit("://");
    let s = scheme + "://"@ + rest;
    let n = scheme.len() as int;
    assert(s.subrange(n, n + 3) =~= "://"@);
    assert forall|j: int| 0 <= j < n implies !text::occurs_at(s, "://"@, j) by {
        if text::occurs_at(s, "://"@, j) {
            assert(s.subrange(j, j + 3)[0] == "://"@[0]);
            assert(s[j] == scheme[j]);
        }
    }
    assert(text::is_first(s, "://"@, n));
    text::find_of_is(s, "://"@, n);
    assert(s.take(n) =~= scheme);
    assert(s.skip(n + 3) =~= rest);
}

proof fn host_is_cut(host: Seq<char>, path: Seq<char>)
    requires
        without(host, '/'),
    ensures
        parts::halves(host + seq!['/'] + path, "/"@) == Some((host, path)),
{
    reveal_strlit("/");
    let s = host + seq!['/'] + path;
    let n = host.len() as int;
    assert(s.subrange(n, n + 1) =~= "/"@);
    assert forall|j: int| 0 <= j < n implies !text::occurs_at(s, "/"@, j) by {
        if text::occurs_at(s, "/"@, j) {
            assert(s.subrange(j, j + 1)[0] == "/"@[0]);
            assert(s[j] == host[j]);
        }
    }
    assert(text::is_first(s, "/"@, n));
    text::find_of_is(s, "/"@, n);
    assert(s.take(n) =~= host);
    assert(s.skip(n + 1) =~= path);
}

proof fn no_extension(name: Seq<char>)
    requires
        without(name, '.'),
    ensures
        names::stem(name) == name,
{
    tail_starts(name, '.', '.', 0);
}

/// The server of a saved URL is what stands between the scheme and the first slash,
/// without `www.`.
pub proof fn a_server_is_named(scheme: Seq<char>, host: Seq<char>, path: Seq<char>)
    requires
        without(scheme, ':'),
        without(host, '/'),
        !(host.len() >= 4 && host.take(4) == "www."@),
        tight(scheme + "://"@ + (host + seq!['/'] + path)),
        tight(scheme + "://"@ + (("www."@ + host) + seq!['/'] + path)),
    ensures
        names::host_of(scheme + "://"@ + (host + seq!['/'] + path)) == host,
        names::host_of(scheme + "://"@ + (("www."@ + host) + seq!['/'] + path)) == host,
{
    reveal_strlit("www.");
    let (a, b) = (host + seq!['/'] + path, ("www."@ + host) + seq!['/'] + path);
    tight_is_trimmed(scheme + "://"@ + a);
    tight_is_trimmed(scheme + "://"@ + b);
    scheme_is_cut(scheme, a);
    scheme_is_cut(scheme, b);
    let w = "www."@ + host;
    assert forall|i: int| 0 <= i < w.len() implies #[trigger] w[i] != '/' by {
        if i >= 4 {
            assert(w[i] == host[i - 4]);
        }
    }
    first_piece(host, '/', path);
    first_piece(w, '/', path);
    if host.len() >= 4 {
        assert(host.subrange(0, 4) =~= host.take(4));
    }
    assert(w.subrange(0, 4) =~= "www."@);
    assert(w.skip(4) =~= host);
}

/// A saved URL is labelled by what it names: on archive.org the item, elsewhere the
/// file at the end of the path.
pub proof fn a_label_is_what_the_address_names(
    scheme: Seq<char>,
    host: Seq<char>,
    first: Seq<char>,
    second: Seq<char>,
)
    requires
        without(scheme, ':'),
        without(host, '/'),
        first.len() > 0 && second.len() > 0,
        without(first, '/') && without(first, '?') && without(first, '#') && without(first, '.'),
        without(second, '/') && without(second, '?') && without(second, '#') && without(second, '.'),
        tight(scheme + "://"@ + (host + seq!['/'] + (first + seq!['/'] + second))),
    ensures
        ({
            let label = names::label_of(
                scheme + "://"@ + (host + seq!['/'] + (first + seq!['/'] + second)),
            );
            let archive = laws::found_in(host, "archive.org"@);
            let verb = first == "details"@ || first == "download"@ || first == "stream"@;
            label == (if archive && !verb {
                first
            } else {
                second
            })
        }),
{
    let path = first + seq!['/'] + second;
    let rest = host + seq!['/'] + path;
    tight_is_trimmed(scheme + "://"@ + rest);
    scheme_is_cut(scheme, rest);
    host_is_cut(host, path);
    assert forall|i: int| 0 <= i < path.len() implies path[i] != '?' && path[i] != '#' by {
        if i < first.len() {
            assert(path[i] == first[i]);
        } else if i > first.len() {
            assert(path[i] == second[i - first.len() - 1]);
        }
    }
    head_ends(path, '?', '#', path.len() as int);
    assert(path.take(path.len() as int) =~= path);
    first_piece(first, '/', second);
    whole_is_one_piece(second, '/');
    let segs = seq![first] + seq![second];
    assert(parts::pieces(path, '/') == segs);
    assert(segs.drop_last() =~= seq![first]);
    assert(seq![first].drop_last() =~= Seq::empty());
    assert(names::filled(Seq::<Seq<char>>::empty()) =~= Seq::empty());
    assert(names::filled(seq![first]) =~= seq![first]);
    assert(names::filled(segs) =~= segs);
    no_extension(first);
    no_extension(second);
    laws::lists::occurrence(host, "archive.org"@);
}

// ── Search terms ───────────────────────────────────────────────────────────

/// The character stands between words.
pub open spec fn between_words(c: char) -> bool {
    c == '_' || c == '-' || c == ' '
}

/// Names that differ only in what stands between their words are searched alike.
pub proof fn separators_do_not_count(a: Seq<char>, b: Seq<char>)
    requires
        a.len() == b.len(),
        forall|i: int|
            0 <= i < a.len() ==> #[trigger] a[i] == b[i] || (between_words(a[i]) && between_words(
                b[i],
            )),
    ensures
        names::search_term(a) == names::search_term(b),
{
    reveal_strlit(".swf");
    let n = a.len() as int;
    if n > 4 {
        let (p, q) = (a.skip(n - 4), b.skip(n - 4));
        let (x, y) = (text::ascii_lower(p), text::ascii_lower(q));
        assert forall|i: int| 0 <= i < 4 implies p[i] == a[n - 4 + i] && q[i] == b[n - 4 + i] by {}
        if x == ".swf"@ || y == ".swf"@ {
            assert forall|i: int| 0 <= i < 4 implies x[i] == y[i] by {
                assert(a[n - 4 + i] == b[n - 4 + i] || (between_words(a[n - 4 + i])
                    && between_words(b[n - 4 + i])));
                assert(x[i] == text::ascii_low(a[n - 4 + i]) && y[i] == text::ascii_low(
                    b[n - 4 + i],
                ));
            }
            assert(x =~= y);
        }
    }
    let (s, t) = (names::without_swf(a), names::without_swf(b));
    assert(parts::swapped(s, '_', '-', ' ') =~= parts::swapped(t, '_', '-', ' '));
}

/// A name is searched without its `.swf`.
pub proof fn the_ending_does_not_count(a: Seq<char>)
    requires
        a.len() > 0,
        a.len() <= 4 || text::ascii_lower(a.skip(a.len() - 4)) != ".swf"@,
    ensures
        names::search_term(a + ".swf"@) == names::search_term(a),
{
    reveal_strlit(".swf");
    let s = a + ".swf"@;
    assert(text::ascii_lower(s.skip(s.len() - 4)) =~= ".swf"@);
    assert(s.take(s.len() - 4) =~= a);
}

/// An ending of two to four letters is no part of a label; anything else behind the
/// last dot is.
pub proof fn an_ending_is_no_part_of_a_label(base: Seq<char>, ext: Seq<char>)
    requires
        base.len() > 0,
        without(ext, '.'),
    ensures
        names::stem(base + seq!['.'] + ext) == (if 2 <= ext.len() <= 4 && (forall|i: int|
            0 <= i < ext.len() ==> 'a' <= #[trigger] ext[i] <= 'z' || 'A' <= ext[i] <= 'Z') {
            base
        } else {
            base + seq!['.'] + ext
        }),
{
    let s = base + seq!['.'] + ext;
    let n = base.len() as int + 1;
    assert forall|i: int| n <= i < s.len() implies s[i] != '.' by {
        assert(s[i] == ext[i - n]);
    }
    tail_starts(s, '.', '.', n);
    assert(s.skip(n) =~= ext);
    assert(s.take(n - 1) =~= base);
}

proof fn word_ends(a: Seq<char>, n: int)
    requires
        0 <= n <= a.len(),
        forall|i: int| 0 <= i < n ==> !text::white(a[i]),
        n < a.len() ==> text::white(a[n]),
    ensures
        parts::word_end(a) == n,
    decreases n,
{
    if n > 0 {
        word_ends(a.drop_first(), n - 1);
    }
}

proof fn word_end_is(a: Seq<char>) -> (n: int)
    ensures
        0 <= n <= a.len(),
        parts::word_end(a) == n,
        forall|i: int| 0 <= i < n ==> !text::white(a[i]),
        n < a.len() ==> text::white(a[n]),
    decreases a.len(),
{
    if a.len() == 0 || text::white(a[0]) {
        0
    } else {
        let d = a.drop_first();
        let m = word_end_is(d);
        assert forall|i: int| 0 <= i < m + 1 implies !text::white(a[i]) by {
            if i > 0 {
                assert(d[i - 1] == a[i]);
            }
        }
        m + 1
    }
}

/// The words of a text are those before a blank and those behind it.
pub proof fn words_add_up(a: Seq<char>, c: char, b: Seq<char>)
    requires
        text::white(c),
    ensures
        parts::words(a + seq![c] + b) == parts::words(a) + parts::words(b),
    decreases a.len(),
{
    let s = a + seq![c] + b;
    if a.len() == 0 {
        assert(s.drop_first() =~= b);
        assert(parts::words(a) + parts::words(b) =~= parts::words(b));
    } else if text::white(a[0]) {
        assert(s.drop_first() =~= a.drop_first() + seq![c] + b);
        words_add_up(a.drop_first(), c, b);
    } else {
        let n = word_end_is(a);
        assert(n > 0);
        assert forall|i: int| 0 <= i < n implies !text::white(s[i]) by {
            assert(s[i] == a[i]);
        }
        assert(text::white(s[n])) by {
            if n < a.len() {
                assert(s[n] == a[n]);
            }
        }
        word_ends(s, n);
        assert(s.take(n) =~= a.take(n));
        assert(s.skip(n) =~= a.skip(n) + seq![c] + b);
        words_add_up(a.skip(n), c, b);
        assert(seq![a.take(n)] + (parts::words(a.skip(n)) + parts::words(b)) =~= (seq![a.take(n)]
            + parts::words(a.skip(n))) + parts::words(b));
    }
}

proof fn words_are_of(a: Seq<char>, k: int)
    requires
        0 <= k < parts::words(a).len(),
    ensures
        forall|i: int|
            0 <= i < parts::words(a)[k].len() ==> a.contains(#[trigger] parts::words(a)[k][i]),
    decreases a.len(),
{
    if text::white(a[0]) {
        let d = a.drop_first();
        words_are_of(d, k);
        assert forall|i: int| 0 <= i < parts::words(a)[k].len() implies a.contains(
            #[trigger] parts::words(a)[k][i],
        ) by {
            let j = choose|j: int| 0 <= j < d.len() && d[j] == parts::words(d)[k][i];
            assert(a[j + 1] == d[j]);
        }
    } else {
        let n = word_end_is(a);
        let d = a.skip(n);
        if k == 0 {
            assert forall|i: int| 0 <= i < parts::words(a)[k].len() implies a.contains(
                #[trigger] parts::words(a)[k][i],
            ) by {
                assert(a[i] == parts::words(a)[k][i]);
            }
        } else {
            words_are_of(d, k - 1);
            assert(parts::words(a)[k] == parts::words(d)[k - 1]);
            assert forall|i: int| 0 <= i < parts::words(a)[k].len() implies a.contains(
                #[trigger] parts::words(a)[k][i],
            ) by {
                let w = parts::words(d)[k - 1];
                assert(d.contains(w[i]));
                let j = choose|j: int| 0 <= j < d.len() && d[j] == w[i];
                assert(a[n + j] == d[j]);
            }
        }
    }
}

proof fn word_exists(a: Seq<char>, k: int)
    requires
        0 <= k < a.len(),
        !text::white(a[k]),
    ensures
        parts::words(a).len() > 0,
    decreases a.len(),
{
    if text::white(a[0]) {
        assert(a.drop_first()[k - 1] == a[k]);
        word_exists(a.drop_first(), k - 1);
    } else {
        let n = word_end_is(a);
        assert(n > 0);
    }
}

/// A download id behind a title does not count: six or more digits and letters up to
/// F, one of them a digit. `title` has a letter or another mark, and no digit.
pub proof fn a_download_id_does_not_count(title: Seq<char>, id: Seq<char>, k: int, d: int)
    requires
        0 <= k < title.len(),
        !text::white(title[k]) && !between_words(title[k]),
        forall|i: int| 0 <= i < title.len() ==> !('0' <= #[trigger] title[i] <= '9'),
        title.len() <= 4 || text::ascii_lower(title.skip(title.len() - 4)) != ".swf"@,
        id.len() >= 6,
        forall|i: int|
            0 <= i < id.len() ==> '0' <= #[trigger] id[i] <= '9' || 'a' <= id[i] <= 'f' || 'A'
                <= id[i] <= 'F',
        0 <= d < id.len(),
        '0' <= id[d] <= '9',
    ensures
        names::search_term(title + seq!['_'] + id) == names::search_term(title),
{
    reveal_strlit(".swf");
    let s = title + seq!['_'] + id;
    let n = s.len() as int;
    let t = text::ascii_lower(s.skip(n - 4));
    assert(t[1] == text::ascii_low(s[n - 3]) && s[n - 3] == id[id.len() - 3]);
    assert(t != ".swf"@) by {
        assert(".swf"@[1] == 's');
        assert('0' <= id[id.len() - 3] <= '9' || 'a' <= id[id.len() - 3] <= 'f' || 'A' <= id[id.len()
            - 3] <= 'F');
    }
    let a = parts::swapped(title, '_', '-', ' ');
    let b = parts::swapped(s, '_', '-', ' ');
    assert forall|i: int| 0 <= i < id.len() implies !text::white(#[trigger] id[i]) by {
        laws::blanks_are_white(id[i]);
    }
    laws::blanks_are_white(' ');
    assert(b =~= a + seq![' '] + id) by {
        assert forall|i: int| 0 <= i < b.len() implies b[i] == (a + seq![' '] + id)[i] by {
            if i > title.len() {
                assert(s[i] == id[i - title.len() - 1]);
            }
        }
    }
    words_add_up(a, ' ', id);
    word_ends(id, id.len() as int);
    assert(id.take(id.len() as int) =~= id);
    assert(id.skip(id.len() as int) =~= Seq::empty());
    assert(parts::words(Seq::<char>::empty()) =~= Seq::empty());
    assert(parts::words(id) =~= seq![id]);
    let (w, v) = (parts::words(b), parts::words(a));
    assert(w =~= v.push(id));
    assert(a[k] == title[k]);
    word_exists(a, k);
    assert(text::digit(id[d]));
    assert(names::download_id(w.last()));
    assert(w.drop_last() =~= v);
    if names::download_id(v.last()) {
        let x = v.last();
        let i = choose|i: int| 0 <= i < x.len() && text::digit(#[trigger] x[i]);
        words_are_of(a, v.len() - 1);
        assert(a.contains(v[v.len() - 1][i]));
        let j = choose|j: int| 0 <= j < a.len() && a[j] == x[i];
        assert(!('0' <= title[j] <= '9'));
    }
}

} // verus!
