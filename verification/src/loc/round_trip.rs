//! What is written to the settings file is read from it again.

use crate::digits;
use crate::loc;
use crate::loc::settings;
use crate::loc::{Settings, HOME_VIEW_COUNT};
use crate::text;
use vstd::prelude::*;

verus! {

/// There is no quote in `s`.
spec fn plain(s: Seq<char>) -> bool {
    forall|i: int| 0 <= i < s.len() ==> #[trigger] s[i] != '"'
}

spec fn all_plain(p: Seq<Seq<char>>) -> bool {
    forall|i: int| 0 <= i < p.len() ==> plain(#[trigger] p[i])
}

spec fn key_text(key: Seq<char>) -> Seq<char> {
    seq!['"'] + key + seq!['"']
}

/// In quoted pieces a quoted key is first found where it is a piece.
proof fn find_key(p: Seq<Seq<char>>, key: Seq<char>, k: int) -> (at: int)
    requires
        all_plain(p),
        plain(key),
        1 <= k < p.len() - 1,
        p[k] == key,
        forall|j: int| 1 <= j < k ==> #[trigger] p[j] != key,
    ensures
        text::is_first(settings::quoted(p), key_text(key), at),
        settings::quoted(p).skip(at + key.len() + 2) == settings::quoted(p.skip(k + 1)),
    decreases k,
{
    let n = key_text(key);
    let h = settings::quoted(p);
    let tail = p.drop_first();
    let r = settings::quoted(tail);
    let a = p[0];
    assert(h == a + seq!['"'] + r);
    assert(plain(a));
    assert forall|j: int| 0 <= j < a.len() implies !text::occurs_at(h, n, j) by {
        if text::occurs_at(h, n, j) {
            assert(h.subrange(j, j + n.len())[0] == n[0]);
            assert(h[j] == a[j]);
        }
    }
    if k == 1 {
        let more = settings::quoted(tail.drop_first());
        assert(r == key + seq!['"'] + more);
        assert(h.subrange(a.len() as int, (a.len() + n.len()) as int) =~= n);
        assert(tail.drop_first() =~= p.skip(2));
        assert(h.skip((a.len() + key.len() + 2) as int) =~= more);
        a.len() as int
    } else {
        assert(tail[k - 1] == key);
        assert forall|j: int| 1 <= j < k - 1 implies #[trigger] tail[j] != key by {
            assert(tail[j] == p[j + 1]);
        }
        assert(all_plain(tail)) by {
            assert forall|i: int| 0 <= i < tail.len() implies plain(#[trigger] tail[i]) by {
                assert(tail[i] == p[i + 1]);
            }
        }
        let at = find_key(tail, key, k - 1);
        assert(tail.skip(k) =~= p.skip(k + 1));
        let off = a.len() + 1;
        assert(!text::occurs_at(h, n, a.len() as int)) by {
            if text::occurs_at(h, n, a.len() as int) {
                let b = p[1];
                let more = settings::quoted(tail.drop_first());
                assert(tail[0] == b);
                assert(r == b + seq!['"'] + more);
                let w = h.subrange(a.len() as int, (a.len() + n.len()) as int);
                assert forall|i: int| 0 <= i < key.len() implies r[i] == key[i] by {
                    assert(w[i + 1] == n[i + 1]);
                }
                assert(r[key.len() as int] == '"') by {
                    assert(w[(key.len() + 1) as int] == n[(key.len() + 1) as int]);
                }
                if b.len() < key.len() {
                    assert(r[b.len() as int] == '"');
                    assert(key[b.len() as int] == '"');
                } else if key.len() < b.len() {
                    assert(b[key.len() as int] == '"');
                }
                assert(b =~= key);
                assert(p[1] != key);
            }
        }
        assert forall|j: int| 0 <= j && off <= j implies text::occurs_at(h, n, j)
            == text::occurs_at(r, n, j - off) by {
            if j + n.len() <= h.len() {
                assert(h.subrange(j, j + n.len()) =~= r.subrange(j - off, j - off + n.len()));
            }
        }
        assert(text::occurs_at(h, n, off + at));
        assert forall|j: int| 0 <= j < off + at implies !text::occurs_at(h, n, j) by {
            if j >= off {
                assert(!text::occurs_at(r, n, j - off));
            }
        }
        assert(h.skip(off + at + key.len() + 2) =~= r.skip(at + key.len() + 2));
        off + at
    }
}

/// What stands behind the key `p[k]`: the rest of the file behind a colon.
proof fn value_of_key(p: Seq<Seq<char>>, k: int)
    requires
        all_plain(p),
        1 <= k < p.len() - 1,
        forall|j: int| 1 <= j < k ==> #[trigger] p[j] != p[k],
        p[k + 1].len() > 0,
        p[k + 1][0] == ':',
    ensures
        settings::after_key(settings::quoted(p), p[k]) == Some(
            settings::quoted(p.skip(k + 1)).skip(1),
        ),
{
    let at = find_key(p, p[k], k);
    text::find_of_is(settings::quoted(p), key_text(p[k]), at);
    let rest = settings::quoted(p.skip(k + 1));
    assert(p.skip(k + 1)[0] == p[k + 1]);
    assert(rest[0] == ':');
    assert(text::next_char(rest, ':', 0) == 0);
}

proof fn digit_run_stops(d: Seq<char>, rest: Seq<char>)
    requires
        digits::all_digits(d),
        rest.len() > 0,
        !text::digit(rest[0]),
    ensures
        settings::digit_run(d + rest) == d,
    decreases d.len(),
{
    let s = d + rest;
    if d.len() > 0 {
        assert(text::digit(d[0]));
        assert(s[0] == d[0]);
        assert(s.drop_first() =~= d.drop_first() + rest);
        digit_run_stops(d.drop_first(), rest);
        assert(seq![d[0]] + d.drop_first() =~= d);
    } else {
        assert(s =~= rest);
        assert(settings::digit_run(s) =~= d);
    }
}

/// A number behind a key is read, up to the first character that is no digit.
proof fn number_after_key(p: Seq<Seq<char>>, k: int, n: nat, end: Seq<char>)
    requires
        all_plain(p),
        1 <= k < p.len() - 1,
        forall|j: int| 1 <= j < k ==> #[trigger] p[j] != p[k],
        p[k + 1] == ": "@ + digits::decimal(n) + end,
        end.len() > 0,
        !text::digit(end[0]),
        n <= 255,
    ensures
        forall|max: int|
            n < max ==> #[trigger] settings::number_in(settings::quoted(p), p[k], max) == Some(
                n as u8,
            ),
{
    reveal_strlit(": ");
    value_of_key(p, k);
    digits::decimal_reads_back(n);
    let d = digits::decimal(n);
    let v = settings::quoted(p.skip(k + 1)).skip(1);
    let q = p.skip(k + 1);
    assert(q[0] == p[k + 1]);
    let tail = if q.len() == 1 {
        Seq::<char>::empty()
    } else {
        seq!['"'] + settings::quoted(q.drop_first())
    };
    assert(settings::quoted(q) =~= q[0] + tail);
    let rest = end + tail;
    assert(v =~= seq![' '] + (d + rest));
    assert(v.drop_first() =~= d + rest);
    assert(text::digit(d[0]));
    assert((d + rest)[0] == d[0]);
    assert(text::white(v[0]));
    assert(!text::white((d + rest)[0]));
    assert(text::trim_start(d + rest) == d + rest);
    assert(text::trim_start(v) == text::trim_start(v.drop_first()));
    digit_run_stops(d, rest);
    assert(digits::parsed(d, 255) == Some(n));
}

proof fn digits_plain(n: nat)
    ensures
        plain(digits::decimal(n)),
{
    digits::decimal_reads_back(n);
    assert forall|i: int| 0 <= i < digits::decimal(n).len() implies #[trigger] digits::decimal(
        n,
    )[i] != '"' by {
        assert(text::digit(digits::decimal(n)[i]));
    }
}

proof fn code_plain(l: loc::Lang)
    ensures
        plain(loc::lang_code(l)),
        loc::lang_code(l).len() == 2,
{
    reveal_strlit("en");
    reveal_strlit("fr");
    reveal_strlit("es");
    reveal_strlit("ru");
    reveal_strlit("de");
    reveal_strlit("it");
    reveal_strlit("pt");
    reveal_strlit("zh");
    reveal_strlit("tr");
}

/// No piece of the file holds a quote, and each key differs from what stands
/// before it.
proof fn pieces_are_plain(st: Settings)
    ensures
        all_plain(settings::file_pieces(st)),
        forall|j: int| 1 <= j < 5 ==> #[trigger] settings::file_pieces(st)[j] != "covers_online"@,
        forall|j: int| 1 <= j < 7 ==> #[trigger] settings::file_pieces(st)[j] != "display_mode"@,
        forall|j: int| 1 <= j < 9 ==> #[trigger] settings::file_pieces(st)[j] != "screen_filter"@,
        forall|j: int| 1 <= j < 11 ==> #[trigger] settings::file_pieces(st)[j] != "home_view"@,
{
    let p = settings::file_pieces(st);
    reveal_strlit("{\n    ");
    reveal_strlit("language");
    reveal_strlit(": ");
    reveal_strlit(",\n    ");
    reveal_strlit("covers_online");
    reveal_strlit("display_mode");
    reveal_strlit("screen_filter");
    reveal_strlit("home_view");
    reveal_strlit("\n}\n");
    reveal_strlit("true");
    reveal_strlit("false");
    code_plain(st.lang);
    digits_plain(st.display_mode as nat);
    digits_plain(st.screen_filter as nat);
    digits_plain((st.home_view % HOME_VIEW_COUNT) as nat);
    assert(plain(p[0]));
    assert(plain(p[1]));
    assert(plain(p[2]));
    assert(plain(p[3]));
    assert(plain(p[4]));
    assert(plain(p[5]));
    assert(plain(p[6]));
    assert(plain(p[7]));
    assert(plain(p[8]));
    assert(plain(p[9]));
    assert(plain(p[10]));
    assert(plain(p[11]));
    assert(plain(p[12]));
    assert("display_mode"@[0] == 'd');
    assert("screen_filter"@[0] == 's');
    assert("home_view"@[0] == 'h');
    assert("covers_online"@[0] == 'c');
    assert("language"@[0] == 'l');
    assert(p[2][0] == ':' && p[4][0] == ',' && p[6][0] == ':' && p[8][0] == ':' && p[10][0] == ':');
    assert(p[5].len() == 13 && p[7].len() == 12 && p[9].len() == 13 && p[11].len() == 9
        && p[1].len() == 8 && p[3].len() == 2);
}

/// The settings file gives back what was written to it: the language, the
/// covers flag, the scaling mode, the screen filter and the layout. A scaling
/// mode or a filter that there is not (3 or more) is written and not taken up.
pub proof fn settings_round_trip(st: Settings)
    ensures
        settings::language_in(settings::file_text(st)) == Some(st.lang),
        settings::covers_in(settings::file_text(st)) == Some(st.covers_online),
        st.display_mode < 3 ==> settings::number_in(
            settings::file_text(st),
            "display_mode"@,
            3,
        ) == Some(st.display_mode),
        st.screen_filter < 3 ==> settings::number_in(
            settings::file_text(st),
            "screen_filter"@,
            3,
        ) == Some(st.screen_filter),
        settings::number_in(settings::file_text(st), "home_view"@, HOME_VIEW_COUNT as int) == Some(
            (st.home_view % HOME_VIEW_COUNT) as u8,
        ),
{
    let p = settings::file_pieces(st);
    pieces_are_plain(st);
    language_round_trip(st);
    covers_round_trip(st);
    reveal_strlit(",\n    ");
    reveal_strlit("\n}\n");
    number_after_key(p, 7, st.display_mode as nat, ",\n    "@);
    number_after_key(p, 9, st.screen_filter as nat, ",\n    "@);
    number_after_key(p, 11, (st.home_view % HOME_VIEW_COUNT) as nat, "\n}\n"@);
}

proof fn language_round_trip(st: Settings)
    ensures
        settings::language_in(settings::file_text(st)) == Some(st.lang),
{
    let p = settings::file_pieces(st);
    pieces_are_plain(st);
    reveal_strlit(": ");
    value_of_key(p, 1);
    code_plain(st.lang);
    loc::code_round_trip(st.lang);
    let q = p.skip(2);
    let code = loc::lang_code(st.lang);
    assert(q[0] == ": "@ && q.drop_first()[0] == code);
    let more = settings::quoted(q.drop_first().drop_first());
    assert(settings::quoted(q.drop_first()) == code + seq!['"'] + more);
    assert(settings::quoted(q) =~= ": "@ + (seq!['"'] + (code + seq!['"'] + more)));
    let v = settings::quoted(q).skip(1);
    assert(v =~= seq![' ', '"'] + code + seq!['"'] + more);
    text::next_char_bounds(v, '"', 0);
    assert(v[0] == ' ' && v[1] == '"');
    assert(text::next_char(v, '"', 0) == 1);
    text::next_char_bounds(v, '"', 2);
    assert(v[2] == code[0] && v[3] == code[1] && v[4] == '"');
    assert(text::next_char(v, '"', 2) == 4);
    assert(v.subrange(2, 4) =~= code);
}

proof fn covers_round_trip(st: Settings)
    ensures
        settings::covers_in(settings::file_text(st)) == Some(st.covers_online),
{
    let p = settings::file_pieces(st);
    pieces_are_plain(st);
    reveal_strlit(": ");
    reveal_strlit("true");
    reveal_strlit("false");
    value_of_key(p, 5);
    let q = p.skip(6);
    assert(q[0] == p[6]);
    let flag = settings::flag_text(st.covers_online);
    let rest = ",\n    "@ + (seq!['"'] + settings::quoted(q.drop_first()));
    let v = settings::quoted(q).skip(1);
    assert(v =~= seq![' '] + (flag + rest));
    assert(v.drop_first() =~= flag + rest);
    let t = flag + rest;
    assert(t[0] == flag[0]);
    assert(text::trim_start(t) == t);
    assert(text::trim_start(v) == t);
    assert(t.subrange(0, flag.len() as int) =~= flag);
    if !st.covers_online {
        assert(!text::starts(t, "true"@)) by {
            if text::starts(t, "true"@) {
                assert(t.subrange(0, 4)[0] == "true"@[0]);
            }
        }
    }
}

/// A start with the file that was written takes up the settings that were in
/// use, with the covers flag set.
pub proof fn start_round_trip(st: Settings, before: Settings, system: int, cjk_possible: bool)
    requires
        st.display_mode < 3,
        st.screen_filter < 3,
        st.home_view < HOME_VIEW_COUNT,
        st.covers_online,
    ensures
        settings::started(before, Some(settings::file_text(st)), system, cjk_possible) == (
        Settings { lang: loc::usable(st.lang, cjk_possible), ..st }),
{
    settings_round_trip(st);
}

} // verus!
