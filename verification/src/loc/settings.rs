//! The settings file: a small JSON object, written and read by hand.

use crate::digits;
use crate::loc;
use crate::loc::{Lang, Settings, HOME_VIEW_COUNT};
use crate::text;
use vstd::prelude::*;

verus! {

/// Texts with a quote between each two.
pub open spec fn quoted(p: Seq<Seq<char>>) -> Seq<char>
    decreases p.len(),
{
    if p.len() == 0 {
        Seq::empty()
    } else if p.len() == 1 {
        p[0]
    } else {
        p[0] + seq!['"'] + quoted(p.drop_first())
    }
}

/// `true` or `false`.
pub open spec fn flag_text(b: bool) -> Seq<char> {
    if b {
        "true"@
    } else {
        "false"@
    }
}

/// What stands behind a key, up to the next one.
pub open spec fn entry(value: Seq<char>) -> Seq<char> {
    ": "@ + value + ",\n    "@
}

/// The settings file, as the texts between its quotes.
pub open spec fn file_pieces(st: Settings) -> Seq<Seq<char>> {
    seq![
        "{\n    "@,
        "language"@,
        ": "@,
        loc::lang_code(st.lang),
        ",\n    "@,
        "covers_online"@,
        entry(flag_text(st.covers_online)),
        "display_mode"@,
        entry(digits::decimal(st.display_mode as nat)),
        "screen_filter"@,
        entry(digits::decimal(st.screen_filter as nat)),
        "home_view"@,
        ": "@ + digits::decimal((st.home_view % HOME_VIEW_COUNT) as nat) + "\n}\n"@,
    ]
}

/// The settings file.
pub open spec fn file_text(st: Settings) -> Seq<char> {
    quoted(file_pieces(st))
}

fn quote_all(p: &Vec<String>) -> (r: String)
    ensures
        r@ == quoted(text::texts(p@)),
{
    let ghost all = text::texts(p@);
    if p.len() == 0 {
        let r: String = String::new();
        assert(r@ =~= quoted(all));
        return r;
    }
    let mut i: usize = p.len() - 1;
    let mut out: String = p[i].clone();
    assert(all.skip(i as int) =~= seq![all[i as int]]);
    while i > 0
        invariant
            i < p.len(),
            all == text::texts(p@),
            out@ == quoted(all.skip(i as int)),
        decreases i,
    {
        i = i - 1;
        let mut longer: String = p[i].clone();
        longer.push('"');
        longer.append(out.as_str());
        assert(all.skip(i as int).drop_first() =~= all.skip(i + 1));
        assert(longer@ =~= p@[i as int]@ + seq!['"'] + out@);
        out = longer;
    }
    assert(all.skip(0) =~= all);
    out
}

fn entry_text(value: &str) -> (r: String)
    ensures
        r@ == entry(value@),
{
    crate::parts::concat3(": ", value, ",\n    ")
}

/// The settings file.
pub fn write(st: &Settings) -> (r: String)
    ensures
        r@ == file_text(*st),
{
    let flag: &str = if st.covers_online {
        "true"
    } else {
        "false"
    };
    let mode: String = digits::dec(st.display_mode as u64);
    let filter: String = digits::dec(st.screen_filter as u64);
    let view: String = digits::dec(loc::home_view(st) as u64);
    let mut p: Vec<String> = Vec::new();
    p.push("{\n    ".to_owned());
    p.push("language".to_owned());
    p.push(": ".to_owned());
    p.push(st.lang.code().to_owned());
    p.push(",\n    ".to_owned());
    p.push("covers_online".to_owned());
    p.push(entry_text(flag));
    p.push("display_mode".to_owned());
    p.push(entry_text(mode.as_str()));
    p.push("screen_filter".to_owned());
    p.push(entry_text(filter.as_str()));
    p.push("home_view".to_owned());
    p.push(crate::parts::concat3(": ", view.as_str(), "\n}\n"));
    assert(text::texts(p@) =~= file_pieces(*st));
    quote_all(&p)
}

// ── Reading ────────────────────────────────────────────────────────────────

/// What stands behind the first `"key"` and the first colon after it.
pub open spec fn after_key(json: Seq<char>, key: Seq<char>) -> Option<Seq<char>> {
    match text::find_of(json, seq!['"'] + key + seq!['"']) {
        Some(i) => {
            let rest = json.skip(i + key.len() + 2);
            let c = text::next_char(rest, ':', 0);
            if c < rest.len() {
                Some(rest.skip(c + 1))
            } else {
                None
            }
        },
        None => None,
    }
}

/// The text between the first two quotes.
pub open spec fn first_quoted(s: Seq<char>) -> Option<Seq<char>> {
    let a = text::next_char(s, '"', 0);
    let b = text::next_char(s, '"', a + 1);
    if a < s.len() && b < s.len() {
        Some(s.subrange(a + 1, b))
    } else {
        None
    }
}

/// The language that a settings file asks for.
pub open spec fn language_in(json: Seq<char>) -> Option<Lang> {
    match after_key(json, "language"@) {
        Some(v) => match first_quoted(v) {
            Some(c) => loc::code_lang(c),
            None => None,
        },
        None => None,
    }
}

/// The covers flag in a settings file.
pub open spec fn covers_in(json: Seq<char>) -> Option<bool> {
    match after_key(json, "covers_online"@) {
        Some(v) => {
            let t = text::trim_start(v);
            if text::starts(t, "true"@) {
                Some(true)
            } else if text::starts(t, "false"@) {
                Some(false)
            } else {
                None
            }
        },
        None => None,
    }
}

/// The digits that a text starts with.
pub open spec fn digit_run(s: Seq<char>) -> Seq<char>
    decreases s.len(),
{
    if s.len() > 0 && text::digit(s[0]) {
        seq![s[0]] + digit_run(s.drop_first())
    } else {
        Seq::empty()
    }
}

/// A small number in a settings file, where it is below `max`.
pub open spec fn number_in(json: Seq<char>, key: Seq<char>, max: int) -> Option<u8> {
    match after_key(json, key) {
        Some(v) => match digits::parsed(digit_run(text::trim_start(v)), 255) {
            Some(n) => if n < max {
                Some(n as u8)
            } else {
                None
            },
            None => None,
        },
        None => None,
    }
}

fn find_after_key(json: &str, key: &str) -> (r: Option<String>)
    ensures
        match r {
            Some(v) => after_key(json@, key@) == Some(v@),
            None => after_key(json@, key@) == None::<Seq<char>>,
        },
{
    let needle: String = crate::parts::concat3("\"", key, "\"");
    proof {
        reveal_strlit("\"");
        assert("\""@ =~= seq!['"']);
        assert(needle@ =~= seq!['"'] + key@ + seq!['"']);
    }
    match crate::parts::split_once(json, needle.as_str()) {
        Some((_, rest)) => {
            let v: Vec<char> = text::chars_of(rest.as_str());
            let c: usize = text::find_char(&v, ':', 0);
            if c < v.len() {
                let t: String = text::string_of(&v, c + 1, v.len());
                assert(t@ =~= rest@.skip(c + 1));
                Some(t)
            } else {
                None
            }
        },
        None => None,
    }
}

/// The language that a settings file asks for.
pub fn parse_language(json: &str) -> (r: Option<Lang>)
    ensures
        r == language_in(json@),
{
    match find_after_key(json, "language") {
        Some(after) => {
            let v: Vec<char> = text::chars_of(after.as_str());
            let a: usize = text::find_char(&v, '"', 0);
            if a == v.len() {
                return None;
            }
            let b: usize = text::find_char(&v, '"', a + 1);
            if b == v.len() {
                return None;
            }
            let code: String = text::string_of(&v, a + 1, b);
            Lang::from_code(code.as_str())
        },
        None => None,
    }
}

/// The covers flag in a settings file.
pub fn parse_covers_online(json: &str) -> (r: Option<bool>)
    ensures
        r == covers_in(json@),
{
    match find_after_key(json, "covers_online") {
        Some(after) => {
            let t: String = text::trim_front(after.as_str());
            if text::starts_with(t.as_str(), "true") {
                Some(true)
            } else if text::starts_with(t.as_str(), "false") {
                Some(false)
            } else {
                None
            }
        },
        None => None,
    }
}

/// A small number in a settings file, where it is below `max`.
pub fn parse_u8_setting(json: &str, key: &str, max: u8) -> (r: Option<u8>)
    ensures
        r == number_in(json@, key@, max as int),
{
    match find_after_key(json, key) {
        Some(after) => {
            let t: String = text::trim_front(after.as_str());
            let v: Vec<char> = text::chars_of(t.as_str());
            let mut n: usize = 0;
            assert(v@.skip(0) =~= v@);
            assert(v@.take(0) + digit_run(v@) =~= digit_run(v@));
            while n < v.len() && '0' <= v[n] && v[n] <= '9'
                invariant
                    n <= v.len(),
                    v@.take(n as int) + digit_run(v@.skip(n as int)) == digit_run(v@),
                decreases v.len() - n,
            {
                assert(v@.skip(n as int).drop_first() =~= v@.skip(n + 1));
                assert(v@.take(n as int) + (seq![v@[n as int]] + digit_run(v@.skip(n + 1)))
                    =~= v@.take(n + 1) + digit_run(v@.skip(n + 1)));
                n = n + 1;
            }
            assert(digit_run(v@.skip(n as int)) =~= Seq::empty());
            let run: String = text::string_of(&v, 0, n);
            assert(run@ =~= digit_run(v@));
            match digits::parse(run.as_str(), 255) {
                Some(x) => if x < max as u64 {
                    Some(x as u8)
                } else {
                    None
                },
                None => None,
            }
        },
        None => None,
    }
}

/// The settings that a file leaves in use, its language aside.
pub open spec fn loaded(st: Settings, json: Seq<char>) -> Settings {
    Settings {
        lang: st.lang,
        covers_online: match covers_in(json) {
            Some(c) => c,
            None => st.covers_online,
        },
        display_mode: match number_in(json, "display_mode"@, 3) {
            Some(v) => v,
            None => st.display_mode,
        },
        screen_filter: match number_in(json, "screen_filter"@, 3) {
            Some(v) => v,
            None => st.screen_filter,
        },
        home_view: match number_in(json, "home_view"@, HOME_VIEW_COUNT as int) {
            Some(v) => v,
            None => st.home_view,
        },
    }
}

/// The settings in use after a start: those of the file where there is one, and
/// its language, or else the console's, or else the one in use.
pub open spec fn started(
    st: Settings,
    json: Option<Seq<char>>,
    system: int,
    cjk_possible: bool,
) -> Settings {
    let base = match json {
        Some(j) => loaded(st, j),
        None => st,
    };
    let asked = match json {
        Some(j) => language_in(j),
        None => None,
    };
    match asked {
        Some(l) => Settings { lang: loc::usable(l, cjk_possible), ..base },
        None => if 0 <= system <= 7 {
            Settings { lang: loc::usable(loc::lang_at(system), cjk_possible), ..base }
        } else {
            base
        },
    }
}

} // verus!
