//! Names derived from URLs, paths and titles.

use crate::digits;
use crate::net;
use crate::parts;
use crate::text;
use vstd::prelude::*;

verus! {

/// The texts of `list` that are not empty.
pub open spec fn filled(list: Seq<Seq<char>>) -> Seq<Seq<char>>
    decreases list.len(),
{
    if list.len() == 0 {
        Seq::empty()
    } else if list.last().len() > 0 {
        filled(list.drop_last()).push(list.last())
    } else {
        filled(list.drop_last())
    }
}

/// The strings of `list` that are not empty.
pub fn keep_filled(list: Vec<String>) -> (r: Vec<String>)
    ensures
        text::texts(r@) == filled(text::texts(list@)),
{
    let ghost all = text::texts(list@);
    let mut out: Vec<String> = Vec::new();
    let mut i: usize = 0;
    assert(text::texts(out@) =~= filled(all.take(0)));
    while i < list.len()
        invariant
            i <= list.len(),
            all == text::texts(list@),
            text::texts(out@) == filled(all.take(i as int)),
        decreases list.len() - i,
    {
        let ghost before = text::texts(out@);
        assert(all.take(i + 1).drop_last() =~= all.take(i as int));
        assert(all.take(i + 1).last() == list@[i as int]@);
        if list[i].unicode_len() > 0 {
            let part: String = list[i].clone();
            out.push(part);
            assert(text::texts(out@) =~= before.push(part@));
        }
        i = i + 1;
    }
    assert(all.take(i as int) =~= all);
    out
}

/// The scheme-less part of a URL.
pub open spec fn no_scheme(url: Seq<char>) -> Seq<char> {
    match parts::halves(url, "://"@) {
        Some((_, rest)) => rest,
        None => url,
    }
}

/// The part before the first slash.
pub open spec fn host_part(rest: Seq<char>) -> Seq<char> {
    match parts::halves(rest, "/"@) {
        Some((h, _)) => h,
        None => rest,
    }
}

/// The path segments of a URL without its scheme: what follows the first slash,
/// up to a query or a fragment, without the empty segments.
pub open spec fn path_segments(rest: Seq<char>) -> Seq<Seq<char>> {
    let path = match parts::halves(rest, "/"@) {
        Some((_, p)) => p,
        None => Seq::empty(),
    };
    filled(parts::pieces(parts::before_either(path, '?', '#'), '/'))
}

/// The first segments of an archive.org path that are no item.
pub open spec fn archive_verb(s: Seq<char>) -> bool {
    s == "details"@ || s == "download"@ || s == "stream"@
}

/// The segment of a URL's path that names what it points at: the item id on
/// archive.org, the last segment elsewhere.
pub open spec fn named_segment(rest: Seq<char>) -> Option<Seq<char>> {
    let segs = path_segments(rest);
    if segs.len() == 0 {
        None
    } else if text::occurs(host_part(rest), "archive.org"@) {
        if !archive_verb(segs[0]) {
            Some(segs[0])
        } else if segs.len() > 1 {
            Some(segs[1])
        } else {
            None
        }
    } else {
        Some(segs.last())
    }
}

/// Two to four ASCII letters: a file extension.
pub open spec fn is_extension(s: Seq<char>) -> bool {
    2 <= s.len() <= 4 && forall|i: int| 0 <= i < s.len() ==> text::ascii_letter(#[trigger] s[i])
}

/// `name` without a file extension, where something is left of it.
pub open spec fn stem(name: Seq<char>) -> Seq<char> {
    let t = parts::tail_start(name, '.', '.');
    if t > 1 && is_extension(name.skip(t)) {
        name.take(t - 1)
    } else {
        name
    }
}

/// What the importer shows for a saved URL: what the path names, without extension;
/// the host where it names nothing; the URL where there is no host either.
pub open spec fn label_of(url: Seq<char>) -> Seq<char> {
    let raw = text::trimmed(url);
    let rest = no_scheme(raw);
    let name = match named_segment(rest) {
        Some(s) => stem(s),
        None => host_part(rest),
    };
    if name.len() == 0 {
        raw
    } else {
        name
    }
}

fn rest_of(raw: &str) -> (r: String)
    ensures
        r@ == no_scheme(raw@),
{
    match parts::split_once(raw, "://") {
        Some((_, rest)) => rest,
        None => raw.to_owned(),
    }
}

fn segments_of(rest: &str) -> (r: Vec<String>)
    ensures
        text::texts(r@) == path_segments(rest@),
{
    let path: String = match parts::split_once(rest, "/") {
        Some((_, p)) => p,
        None => String::new(),
    };
    assert(match parts::halves(rest@, "/"@) {
        Some((_, p)) => path@ == p,
        None => path@ =~= Seq::empty(),
    });
    let head: String = parts::head_before(path.as_str(), '?', '#');
    keep_filled(parts::split(head.as_str(), '/'))
}

fn without_extension(name: String) -> (r: String)
    ensures
        r@ == stem(name@),
{
    let v: Vec<char> = text::chars_of(name.as_str());
    let ext: String = parts::tail_after(name.as_str(), '.', '.');
    let e: Vec<char> = text::chars_of(ext.as_str());
    proof {
        tail_start_bounds(name@, '.', '.');
    }
    if e.len() < 2 || e.len() > 4 || e.len() + 1 >= v.len() {
        return name;
    }
    let mut i: usize = 0;
    while i < e.len()
        invariant
            i <= e.len(),
            e@ == name@.skip(parts::tail_start(name@, '.', '.')),
            forall|k: int| 0 <= k < i ==> text::ascii_letter(#[trigger] e@[k]),
        decreases e.len() - i,
    {
        let c: char = e[i];
        if !(('a' <= c && c <= 'z') || ('A' <= c && c <= 'Z')) {
            assert(!text::ascii_letter(e@[i as int]));
            return name;
        }
        i = i + 1;
    }
    let r: String = text::string_of(&v, 0, v.len() - e.len() - 1);
    assert(r@ =~= name@.take(parts::tail_start(name@, '.', '.') - 1));
    r
}

proof fn tail_start_bounds(s: Seq<char>, a: char, b: char)
    ensures
        0 <= parts::tail_start(s, a, b) <= s.len(),
    decreases s.len(),
{
    if s.len() > 0 && !parts::either(s.last(), a, b) {
        tail_start_bounds(s.drop_last(), a, b);
    }
}

/// A readable name for a saved import URL: the archive.org item id, or the file
/// that the URL points at, without scheme, query and extension. The host, or
/// the URL itself, where that leaves nothing.
pub fn importer_label(url: &str) -> (r: String)
    ensures
        r@ == label_of(url@),
{
    let raw: String = text::trim(url);
    let rest: String = rest_of(raw.as_str());
    let host: String = match parts::split_once(rest.as_str(), "/") {
        Some((h, _)) => h,
        None => rest.clone(),
    };
    let segs: Vec<String> = segments_of(rest.as_str());
    let ghost sv = text::texts(segs@);
    let mut at: usize = segs.len();
    if text::contains(host.as_str(), "archive.org") {
        if segs.len() > 0 {
            let verb: &str = segs[0].as_str();
            if text::str_eq(verb, "details") || text::str_eq(verb, "download") || text::str_eq(
                verb,
                "stream",
            ) {
                if segs.len() > 1 {
                    at = 1;
                }
            } else {
                at = 0;
            }
        }
    } else if segs.len() > 0 {
        at = segs.len() - 1;
    }
    assert(named_segment(rest@) == (if at < segs.len() {
        Some(segs@[at as int]@)
    } else {
        None
    })) by {
        if segs.len() > 0 {
            assert(sv[0] == segs@[0]@);
        }
        if at < segs.len() {
            assert(sv[at as int] == segs@[at as int]@);
        }
    }
    let name: String = if at < segs.len() {
        without_extension(segs[at].clone())
    } else {
        host
    };
    if name.unicode_len() == 0 {
        raw
    } else {
        name
    }
}

/// The host that the importer shows beside a saved URL: nothing for a bare item.
pub open spec fn host_of(url: Seq<char>) -> Seq<char> {
    match parts::halves(text::trimmed(url), "://"@) {
        Some((_, rest)) => {
            let host = parts::pieces(rest, '/')[0];
            match parts::without_prefix(host, "www."@) {
                Some(h) => h,
                None => host,
            }
        },
        None => Seq::empty(),
    }
}

/// The host that the importer shows beside a saved URL.
pub fn importer_host(url: &str) -> (r: String)
    ensures
        r@ == host_of(url@),
{
    let raw: String = text::trim(url);
    match parts::split_once(raw.as_str(), "://") {
        Some((_, rest)) => {
            let segs: Vec<String> = parts::split(rest.as_str(), '/');
            proof {
                assert(parts::pieces(rest@, '/').len() >= 1);
                assert(text::texts(segs@).len() == segs@.len());
            }
            let host: String = segs[0].clone();
            assert(text::texts(segs@)[0] == host@);
            match parts::strip_prefix(host.as_str(), "www.") {
                Some(h) => h,
                None => host,
            }
        },
        None => {
            let r: String = String::new();
            assert(r@ =~= Seq::empty());
            r
        },
    }
}

/// The file name that a directly imported URL gets on the card.
pub open spec fn url_file_name(url: Seq<char>) -> Seq<char> {
    let tail = parts::after_either(url, '/', '/');
    let stem = parts::before_either(tail, '?', '#');
    let base = if stem.len() == 0 {
        "download.swf"@
    } else {
        stem
    };
    let clean = parts::swapped(base, '/', '\\', '_');
    if text::ends(text::ascii_lower(clean), ".swf"@) {
        clean
    } else {
        clean + ".swf"@
    }
}

/// The last path segment without query and fragment, path separators replaced,
/// with `.swf` at its end.
pub fn safe_name_from_url(url: &str) -> (r: String)
    ensures
        r@ == url_file_name(url@),
{
    let tail: String = parts::tail_after(url, '/', '/');
    let stem: String = parts::head_before(tail.as_str(), '?', '#');
    let base: String = if stem.unicode_len() == 0 {
        "download.swf".to_owned()
    } else {
        stem
    };
    let clean: String = parts::swap_either(base.as_str(), '/', '\\', '_');
    let low: String = text::to_ascii_lower(clean.as_str());
    if text::ends_with(low.as_str(), ".swf") {
        clean
    } else {
        parts::concat(clean.as_str(), ".swf")
    }
}

/// The name of a remote file on the card: path separators replaced.
pub open spec fn card_name(name: Seq<char>) -> Seq<char> {
    parts::swapped(name, '/', '\\', '_')
}

/// The directory part of a path, without the last slash.
pub open spec fn parent_of(path: Seq<char>) -> Seq<char> {
    let t = parts::tail_start(path, '/', '/');
    if t > 0 {
        path.take(t - 1)
    } else {
        Seq::empty()
    }
}

/// The directory part of a path, without the last slash.
pub fn parent_dir(path: &str) -> (r: String)
    ensures
        r@ == parent_of(path@),
{
    let v: Vec<char> = text::chars_of(path);
    let tail: String = parts::tail_after(path, '/', '/');
    let n: usize = tail.unicode_len();
    proof {
        tail_start_bounds(path@, '/', '/');
    }
    if n >= v.len() {
        let r: String = String::new();
        assert(r@ =~= Seq::empty());
        return r;
    }
    let r: String = text::string_of(&v, 0, v.len() - n - 1);
    assert(r@ =~= path@.take(parts::tail_start(path@, '/', '/') - 1));
    r
}

/// The file name at the end of a path.
pub open spec fn base_of(path: Seq<char>) -> Seq<char> {
    parts::after_either(path, '/', '\\')
}

/// The file name at the end of a path.
pub fn basename_of(path: &str) -> (r: String)
    ensures
        r@ == base_of(path@),
{
    parts::tail_after(path, '/', '\\')
}

// ── Search terms ───────────────────────────────────────────────────────────

/// A download id at the end of a file name: six or more hexadecimal digits, one
/// of them a decimal digit.
pub open spec fn download_id(s: Seq<char>) -> bool {
    &&& s.len() >= 6
    &&& forall|i: int| 0 <= i < s.len() ==> text::hex_digit(#[trigger] s[i])
    &&& exists|i: int| 0 <= i < s.len() && text::digit(#[trigger] s[i])
}

/// Is `tok` a download id?
pub fn looks_like_download_hash(tok: &str) -> (r: bool)
    ensures
        r == download_id(tok@),
{
    let v: Vec<char> = text::chars_of(tok);
    let mut any: bool = false;
    let mut i: usize = 0;
    while i < v.len()
        invariant
            i <= v.len(),
            v@ == tok@,
            forall|k: int| 0 <= k < i ==> text::hex_digit(#[trigger] v@[k]),
            any == (exists|k: int| 0 <= k < i && text::digit(#[trigger] v@[k])),
        decreases v.len() - i,
    {
        let c: char = v[i];
        let decimal: bool = '0' <= c && c <= '9';
        if !(decimal || ('a' <= c && c <= 'f') || ('A' <= c && c <= 'F')) {
            assert(!text::hex_digit(v@[i as int]));
            return false;
        }
        if decimal {
            assert(text::digit(v@[i as int]));
        }
        any = any || decimal;
        i = i + 1;
    }
    v.len() >= 6 && any
}

/// `name` without a `.swf` ending, in any case, where something is left of it.
pub open spec fn without_swf(name: Seq<char>) -> Seq<char> {
    if name.len() > 4 && text::ascii_lower(name.skip(name.len() - 4)) == ".swf"@ {
        name.take(name.len() - 4)
    } else {
        name
    }
}

/// The words of a title, without a download id at the end.
pub open spec fn title_words(name: Seq<char>) -> Seq<Seq<char>> {
    let w = parts::words(parts::swapped(without_swf(name), '_', '-', ' '));
    if w.len() > 1 && download_id(w.last()) {
        w.drop_last()
    } else {
        w
    }
}

/// What is searched for a game of this name.
pub open spec fn search_term(name: Seq<char>) -> Seq<char> {
    parts::joined(title_words(name), " "@)
}

/// A search term from a game's name: without `.swf`, with spaces for `_` and
/// `-`, and without a download id at the end.
pub fn cover_query_from_name(name: &str) -> (r: String)
    ensures
        r@ == search_term(name@),
{
    let v: Vec<char> = text::chars_of(name);
    let n: usize = v.len();
    let mut base: String = name.to_owned();
    if n > 4 {
        let end: String = text::string_of(&v, n - 4, n);
        assert(end@ =~= name@.skip(n - 4));
        let low: String = text::to_ascii_lower(end.as_str());
        if text::str_eq(low.as_str(), ".swf") {
            base = text::string_of(&v, 0, n - 4);
            assert(base@ =~= name@.take(n - 4));
        }
    }
    let spaced: String = parts::swap_either(base.as_str(), '_', '-', ' ');
    let mut toks: Vec<String> = parts::split_words(spaced.as_str());
    let ghost w = text::texts(toks@);
    let k: usize = toks.len();
    if k > 1 {
        assert(w.last() == toks@[k - 1]@);
        if looks_like_download_hash(toks[k - 1].as_str()) {
            toks.pop();
            assert(text::texts(toks@) =~= w.drop_last());
        }
    }
    parts::join(&toks, " ")
}

/// The address of a cover in the source that is shown: logos, or screenshots.
pub open spec fn cover_address(url: Seq<char>, use_shot: bool) -> Seq<char> {
    if use_shot {
        parts::replaced(url, "/Logos/"@, "/Screenshots/"@)
    } else {
        url
    }
}

/// The address of a cover in the source that is shown.
pub fn cover_url_for_source(cover_url: &str, use_shot: bool) -> (r: String)
    ensures
        r@ == cover_address(cover_url@, use_shot),
{
    if use_shot {
        proof {
            reveal_strlit("/Logos/");
        }
        parts::replace(cover_url, "/Logos/", "/Screenshots/")
    } else {
        cover_url.to_owned()
    }
}

/// The archive.org item behind a recorded source URL, in lower case; nothing
/// for another source.
pub open spec fn source_item_of(url: Seq<char>) -> Seq<char> {
    if text::occurs(url, "archive.org"@) {
        match net::item_id(text::trimmed(url)) {
            Some(id) => text::lowercase(id),
            None => Seq::empty(),
        }
    } else {
        Seq::empty()
    }
}

/// The archive.org item behind a recorded source URL.
pub fn source_item(url: &str) -> (r: String)
    ensures
        r@ == source_item_of(url@),
{
    let none: String = String::new();
    assert(none@ =~= Seq::empty());
    if !text::contains(url, "archive.org") {
        return none;
    }
    let t: String = text::trim(url);
    match net::extract_item_id(t.as_str()) {
        Some(id) => text::lower(id.as_str()),
        None => none,
    }
}

// ── Colour ─────────────────────────────────────────────────────────────────

/// The 32-bit FNV-1a hash of a byte sequence.
pub open spec fn fnv(bytes: Seq<u8>) -> u32
    decreases bytes.len(),
{
    if bytes.len() == 0 {
        2166136261
    } else {
        ((fnv(bytes.drop_last()) ^ (bytes.last() as u32)) * 16777619 % 0x1_0000_0000) as u32
    }
}

/// The hue, in degrees, of a game's colour: a function of its file name.
pub fn hue_from_basename(basename: &str) -> (r: u32)
    ensures
        r == fnv(vstd::utf8::encode_utf8(basename@)) % 360,
        r < 360,
{
    let bytes: &[u8] = basename.as_bytes();
    let mut h: u32 = 2166136261;
    let mut i: usize = 0;
    assert(bytes@.take(0) =~= Seq::empty());
    while i < bytes.len()
        invariant
            i <= bytes.len(),
            h == fnv(bytes@.take(i as int)),
        decreases bytes.len() - i,
    {
        assert(bytes@.take(i + 1).drop_last() =~= bytes@.take(i as int));
        h = (h ^ (bytes[i] as u32)).wrapping_mul(16777619);
        i = i + 1;
    }
    assert(bytes@.take(i as int) =~= bytes@);
    h % 360
}

// ── Preview rows ───────────────────────────────────────────────────────────

/// The most rows that a preview shows.
pub const MAX_PREVIEW_ROWS: usize = 8;

/// The rows that a preview shows of `rows`.
pub open spec fn capped(rows: Seq<Seq<char>>) -> Seq<Seq<char>> {
    if rows.len() > MAX_PREVIEW_ROWS {
        rows.take(MAX_PREVIEW_ROWS as int).push(
            "(+"@ + digits::decimal((rows.len() - MAX_PREVIEW_ROWS) as nat) + " ...)"@,
        )
    } else {
        rows
    }
}

/// The first eight rows, and how many more there are.
pub fn cap_preview_rows(rows: Vec<String>) -> (r: Vec<String>)
    ensures
        text::texts(r@) == capped(text::texts(rows@)),
        r@.len() <= MAX_PREVIEW_ROWS + 1,
{
    let mut rows: Vec<String> = rows;
    let ghost all = text::texts(rows@);
    if rows.len() > MAX_PREVIEW_ROWS {
        let extra: usize = rows.len() - MAX_PREVIEW_ROWS;
        rows.truncate(MAX_PREVIEW_ROWS);
        let count: String = digits::dec(extra as u64);
        let note: String = parts::concat3("(+", count.as_str(), " ...)");
        rows.push(note);
        assert(text::texts(rows@) =~= all.take(MAX_PREVIEW_ROWS as int).push(note@));
    }
    rows
}

} // verus!
