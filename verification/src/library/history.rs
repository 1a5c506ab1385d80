//! The URLs that were imported, and the files that keep them.

use crate::json;
use crate::json::Json;
use crate::library::state;
use crate::library::state::History;
use crate::text;
use vstd::prelude::*;

verus! {

/// What reading a file of the card came to.
pub enum CardFile {
    Absent,
    Failed,
    Text(String),
}

/// One row of what is known of the URLs: the URL, how many files it holds, when it
/// was saved, and whether it is a favourite.
pub type Row = (Seq<char>, u32, u64, bool);

/// The rows of what is known of the URLs.
pub open spec fn rows_of(v: Seq<(String, u32, u64, bool)>) -> Seq<Row> {
    Seq::new(v.len(), |i: int| (v[i].0@, v[i].1, v[i].2, v[i].3))
}

/// The most URLs that are kept.
pub const HISTORY_MAX: usize = 500;

// ── Reading ────────────────────────────────────────────────────────────────

/// The lower half of a number.
pub open spec fn low_half(n: u64) -> u32 {
    (n % 0x1_0000_0000) as u32
}

/// The flag that a document is.
pub open spec fn flag(t: Option<json::Tree>) -> Option<bool> {
    match t {
        Some(json::Tree::Bool(b)) => Some(b),
        _ => None,
    }
}

/// What a row of the file says: `[url, files, saved, favourite]`, with a default
/// for each that is missing. A row without a URL says nothing.
pub open spec fn row_in(t: json::Tree) -> Option<Row> {
    match t {
        json::Tree::Array(cells) => match json::string(json::item(cells, 0)) {
            Some(url) => if url.len() == 0 {
                None
            } else {
                Some(
                    (
                        url,
                        match json::number(json::item(cells, 1)) {
                            Some(n) => low_half(n),
                            None => 0,
                        },
                        match json::number(json::item(cells, 2)) {
                            Some(n) => n,
                            None => 0,
                        },
                        match flag(json::item(cells, 3)) {
                            Some(b) => b,
                            None => false,
                        },
                    ),
                )
            },
            None => None,
        },
        _ => None,
    }
}

/// The rows of the file.
pub open spec fn rows_in(items: Seq<json::Tree>) -> Seq<Row>
    decreases items.len(),
{
    if items.len() == 0 {
        Seq::empty()
    } else {
        match row_in(items.last()) {
            Some(r) => rows_in(items.drop_last()).push(r),
            None => rows_in(items.drop_last()),
        }
    }
}

/// The rows of a file, where it is a JSON array.
pub open spec fn table_in(file: Seq<char>) -> Option<Seq<Row>> {
    match json::parsed_json(vstd::utf8::encode_utf8(file)) {
        Ok(json::Tree::Array(items)) => Some(rows_in(items)),
        _ => None,
    }
}

fn cell(v: &Vec<Json>, i: usize) -> (r: Option<&Json>)
    ensures
        json::opt_tree(r) == json::item(json::trees(v@), i as int),
{
    proof {
        json::trees_index(v@);
    }
    if i < v.len() {
        Some(&v[i])
    } else {
        None
    }
}

fn read_row(j: &Json) -> (r: Option<(String, u32, u64, bool)>)
    ensures
        match r {
            Some(x) => row_in(json::tree(*j)) == Some((x.0@, x.1, x.2, x.3)),
            None => row_in(json::tree(*j)) == None::<Row>,
        },
{
    let cells: &Vec<Json> = match j {
        Json::Array(c) => c,
        _ => {
            return None;
        },
    };
    let url: String = match json::as_text(cell(cells, 0)) {
        Some(u) => u.clone(),
        None => {
            return None;
        },
    };
    if url.unicode_len() == 0 {
        return None;
    }
    let total: u32 = match json::as_number(cell(cells, 1)) {
        Some(n) => (n % 0x1_0000_0000) as u32,
        None => 0,
    };
    let added: u64 = match json::as_number(cell(cells, 2)) {
        Some(n) => n,
        None => 0,
    };
    let fav: bool = match cell(cells, 3) {
        Some(Json::Bool(b)) => *b,
        _ => false,
    };
    Some((url, total, added, fav))
}

/// Takes up what is known of the URLs. A file that cannot be read or makes no
/// sense is left alone, and is not written over.
pub fn load_history_meta(h: &mut History, file: CardFile)
    ensures
        *final(h) == (History {
            meta: final(h).meta,
            meta_loaded: final(h).meta_loaded,
            ..*old(h)
        }),
        match file {
            CardFile::Absent => final(h).meta == old(h).meta && final(h).meta_loaded,
            CardFile::Failed => *final(h) == *old(h),
            CardFile::Text(t) => match table_in(t@) {
                Some(rows) => rows_of(final(h).meta@) == rows && final(h).meta_loaded,
                None => *final(h) == *old(h),
            },
        },
{
    let t: String = match file {
        CardFile::Absent => {
            h.meta_loaded = true;
            return;
        },
        CardFile::Failed => {
            return;
        },
        CardFile::Text(t) => t,
    };
    let parsed: Result<Json, String> = json::parse_json(t.as_str().as_bytes());
    if let Ok(Json::Array(v)) = &parsed {
        let ghost items = json::trees(v@);
        proof {
            json::trees_index(v@);
        }
        let mut rows: Vec<(String, u32, u64, bool)> = Vec::new();
        let mut i: usize = 0;
        assert(items.take(0) =~= Seq::empty());
        assert(rows_of(rows@) =~= Seq::empty());
        while i < v.len()
            invariant
                i <= v.len(),
                items == json::trees(v@),
                items.len() == v.len(),
                forall|k: int| 0 <= k < v.len() ==> #[trigger] items[k] == json::tree(v@[k]),
                rows_of(rows@) == rows_in(items.take(i as int)),
            decreases v.len() - i,
        {
            assert(items.take(i + 1).drop_last() =~= items.take(i as int));
            assert(items.take(i + 1).last() == items[i as int]);
            let ghost before = rows@;
            if let Some(row) = read_row(&v[i]) {
                let ghost x: Row = (row.0@, row.1, row.2, row.3);
                rows.push(row);
                assert(rows_of(rows@) =~= rows_of(before).push(x));
            }
            i = i + 1;
        }
        assert(items.take(i as int) =~= items);
        h.meta = rows;
        h.meta_loaded = true;
    }
}

/// The URLs were taken up from a file.
pub open spec fn urls_loaded(pre: History, file: CardFile, post: History) -> bool {
    &&& post == (History { urls: post.urls, index: post.index, loaded: post.loaded, ..pre })
    &&& match file {
        CardFile::Absent => post.urls@.len() == 0 && post.index is None && post.loaded,
        CardFile::Failed => post == (History { loaded: false, ..pre }),
        CardFile::Text(t) => match json::parsed_strings(t@) {
            Some(list) => text::texts(post.urls@) == list && post.loaded && post.index == last_of(
                list.len() as int,
            ),
            None => post == (History { loaded: false, ..pre }),
        },
    }
}

/// Takes up the URLs. A file that is not there is an empty list; one that cannot
/// be read or makes no sense is not written over.
pub fn load_history(h: &mut History, file: CardFile)
    ensures
        urls_loaded(*old(h), file, *final(h)),
{
    match file {
        CardFile::Absent => {
            h.urls = Vec::new();
            h.index = None;
            h.loaded = true;
        },
        CardFile::Failed => {
            h.loaded = false;
        },
        CardFile::Text(t) => match json::parse_strings(t.as_str()) {
            Some(list) => {
                h.urls = list;
                h.index = if h.urls.len() > 0 {
                    Some(h.urls.len() - 1)
                } else {
                    None
                };
                h.loaded = true;
            },
            None => {
                h.loaded = false;
            },
        },
    }
}

/// The last of `n` rows.
pub open spec fn last_of(n: int) -> Option<usize> {
    if n > 0 {
        Some((n - 1) as usize)
    } else {
        None
    }
}

// ── Writing ────────────────────────────────────────────────────────────────

/// The rows whose URL is still saved.
pub open spec fn pruned(rows: Seq<Row>, urls: Seq<String>) -> Seq<Row>
    decreases rows.len(),
{
    if rows.len() == 0 {
        Seq::empty()
    } else if state::listed(urls, rows.last().0) {
        pruned(rows.drop_last(), urls).push(rows.last())
    } else {
        pruned(rows.drop_last(), urls)
    }
}

/// The text of a file whose rows are `rows`.
pub open spec fn writes_rows(file: Option<String>, rows: Seq<Row>) -> bool {
    match file {
        Some(t) => json::parsed_json(vstd::utf8::encode_utf8(t@)) == Ok::<json::Tree, Seq<char>>(
            json::Tree::Array(Seq::new(rows.len(), |i: int| json::row_tree(rows[i]))),
        ),
        None => true,
    }
}

/// The text of a file whose URLs are `urls`.
pub open spec fn writes_urls(file: Option<String>, urls: Seq<Seq<char>>) -> bool {
    match file {
        Some(t) => json::parsed_strings(t@) == Some(urls),
        None => true,
    }
}

fn prune(h: &mut History)
    ensures
        *final(h) == (History { meta: final(h).meta, ..*old(h) }),
        rows_of(final(h).meta@) == pruned(rows_of(old(h).meta@), old(h).urls@),
{
    let ghost all = rows_of(h.meta@);
    let mut rows: Vec<(String, u32, u64, bool)> = Vec::new();
    let mut i: usize = 0;
    assert(all.take(0) =~= Seq::empty());
    assert(rows_of(rows@) =~= Seq::empty());
    while i < h.meta.len()
        invariant
            i <= h.meta.len(),
            all == rows_of(h.meta@),
            rows_of(rows@) == pruned(all.take(i as int), h.urls@),
        decreases h.meta.len() - i,
    {
        assert(all.take(i + 1).drop_last() =~= all.take(i as int));
        assert(all.take(i + 1).last() == all[i as int]);
        let ghost before = rows@;
        if state::is_favorite(&h.urls, h.meta[i].0.as_str()) {
            let row: (String, u32, u64, bool) = (
                h.meta[i].0.clone(),
                h.meta[i].1,
                h.meta[i].2,
                h.meta[i].3,
            );
            rows.push(row);
            assert(rows_of(rows@) =~= rows_of(before).push(all[i as int]));
        }
        i = i + 1;
    }
    assert(all.take(i as int) =~= all);
    h.meta = rows;
}

/// The rows of what is known after they were written: those of saved URLs, where
/// both files were read.
pub open spec fn kept_rows(h: History, rows: Seq<Row>, urls: Seq<String>) -> Seq<Row> {
    if h.meta_loaded && h.loaded {
        pruned(rows, urls)
    } else {
        rows
    }
}

/// Keeps what is known of the URLs. The result is the file; nothing is written
/// over a file that was not read.
pub fn save_history_meta(h: &mut History) -> (r: Option<String>)
    ensures
        *final(h) == (History { meta: final(h).meta, ..*old(h) }),
        rows_of(final(h).meta@) == kept_rows(*old(h), rows_of(old(h).meta@), old(h).urls@),
        r is Some == (old(h).meta_loaded && old(h).loaded),
        writes_rows(r, rows_of(final(h).meta@)),
{
    if !h.meta_loaded || !h.loaded {
        return None;
    }
    prune(h);
    let file: Option<String> = json::write_rows(&h.meta);
    proof {
        let rows = rows_of(h.meta@);
        let a = Seq::new(
            h.meta@.len(),
            |i: int|
                json::row_tree((h.meta@[i].0@, h.meta@[i].1, h.meta@[i].2, h.meta@[i].3)),
        );
        assert(a =~= Seq::new(rows.len(), |i: int| json::row_tree(rows[i])));
    }
    file
}

/// Keeps the URLs. The result is the file; nothing is written over a file that was
/// not read.
pub fn save_history(h: &History) -> (r: Option<String>)
    ensures
        r is Some == h.loaded,
        writes_urls(r, text::texts(h.urls@)),
{
    if h.loaded {
        json::write_strings(&h.urls)
    } else {
        None
    }
}

/// What is known of the URLs is read as it was written.
pub proof fn rows_round_trip(file: String, rows: Seq<Row>)
    requires
        writes_rows(Some(file), rows),
        forall|i: int| 0 <= i < rows.len() ==> (#[trigger] rows[i]).0.len() > 0,
    ensures
        table_in(file@) == Some(rows),
{
    let items = Seq::new(rows.len(), |i: int| json::row_tree(rows[i]));
    rows_read_back(rows, items);
}

proof fn rows_read_back(rows: Seq<Row>, items: Seq<json::Tree>)
    requires
        items == Seq::new(rows.len(), |i: int| json::row_tree(rows[i])),
        forall|i: int| 0 <= i < rows.len() ==> (#[trigger] rows[i]).0.len() > 0,
    ensures
        rows_in(items) == rows,
    decreases rows.len(),
{
    if rows.len() > 0 {
        let r = rows.drop_last();
        let it = items.drop_last();
        assert(it =~= Seq::new(r.len(), |i: int| json::row_tree(r[i])));
        rows_read_back(r, it);
        let x = rows.last();
        assert(rows[rows.len() - 1].0.len() > 0);
        assert(items.last() == json::row_tree(x));
        let cells = seq![
            json::Tree::Text(x.0),
            json::Tree::Number(Some(x.1 as u64)),
            json::Tree::Number(Some(x.2)),
            json::Tree::Bool(x.3),
        ];
        assert(items.last() == json::Tree::Array(cells));
        assert(cells[0] == json::Tree::Text(x.0));
        assert(json::item(cells, 1) == Some(json::Tree::Number(Some(x.1 as u64))));
        assert(row_in(items.last()) == Some(x));
        assert(r.push(x) =~= rows);
    } else {
        assert(rows_in(items) =~= rows);
    }
}

/// The URLs that `load_history` takes up are those that `save_history` wrote, whatever
/// was held before, and the last of them is at hand.
pub proof fn urls_round_trip(saved: History, file: String, pre: History, post: History)
    requires
        writes_urls(Some(file), text::texts(saved.urls@)),
        urls_loaded(pre, CardFile::Text(file), post),
    ensures
        text::texts(post.urls@) == text::texts(saved.urls@),
        post.index == last_of(saved.urls@.len() as int),
        post.loaded,
{
}

// ── Rows of URLs ───────────────────────────────────────────────────────────

/// The first row of a URL.
pub open spec fn row_of(rows: Seq<Row>, url: Seq<char>, from: int) -> Option<int>
    decreases rows.len() - from,
{
    if from < 0 || from >= rows.len() {
        None
    } else if rows[from].0 == url {
        Some(from)
    } else {
        row_of(rows, url, from + 1)
    }
}

fn find_row(h: &History, url: &str) -> (r: Option<usize>)
    ensures
        match r {
            Some(i) => i < h.meta@.len() && row_of(rows_of(h.meta@), url@, 0) == Some(i as int)
                && h.meta@[i as int].0@ == url@,
            None => row_of(rows_of(h.meta@), url@, 0) == None::<int>,
        },
{
    let mut i: usize = 0;
    while i < h.meta.len()
        invariant
            i <= h.meta.len(),
            row_of(rows_of(h.meta@), url@, 0) == row_of(rows_of(h.meta@), url@, i as int),
        decreases h.meta.len() - i,
    {
        if text::str_eq(h.meta[i].0.as_str(), url) {
            return Some(i);
        }
        i = i + 1;
    }
    None
}

/// Is the URL a favourite?
pub open spec fn favored(rows: Seq<Row>, url: Seq<char>) -> bool {
    match row_of(rows, url, 0) {
        Some(i) => rows[i].3,
        None => false,
    }
}

/// How many files a URL holds, as far as that is known.
pub open spec fn total_of(rows: Seq<Row>, url: Seq<char>) -> Option<u32> {
    match row_of(rows, url, 0) {
        Some(i) => Some(rows[i].1),
        None => None,
    }
}

/// When a URL was saved; 0 where that is not known.
pub open spec fn added_of(rows: Seq<Row>, url: Seq<char>) -> u64 {
    match row_of(rows, url, 0) {
        Some(i) => rows[i].2,
        None => 0,
    }
}

/// Is the URL a favourite?
pub fn url_is_favorite(h: &History, url: &str) -> (r: bool)
    ensures
        r == favored(rows_of(h.meta@), url@),
{
    match find_row(h, url) {
        Some(i) => h.meta[i].3,
        None => false,
    }
}

/// How many files a URL holds, as far as that is known.
pub fn url_total(h: &History, url: &str) -> (r: Option<u32>)
    ensures
        r == total_of(rows_of(h.meta@), url@),
{
    match find_row(h, url) {
        Some(i) => Some(h.meta[i].1),
        None => None,
    }
}

/// When a URL was saved; 0 where that is not known.
pub fn url_added(h: &History, url: &str) -> (r: u64)
    ensures
        r == added_of(rows_of(h.meta@), url@),
{
    match find_row(h, url) {
        Some(i) => h.meta[i].2,
        None => 0,
    }
}

/// The rows once it is known how many files a URL holds.
pub open spec fn with_total(rows: Seq<Row>, url: Seq<char>, total: u32, now: u64) -> Seq<Row> {
    match row_of(rows, url, 0) {
        Some(i) => rows.update(i, (rows[i].0, total, rows[i].2, rows[i].3)),
        None => rows.push((url, total, now, false)),
    }
}

/// What it changes and writes that a URL is known to hold `total` files; nothing
/// where that is the known number.
pub open spec fn totaled(
    pre: History,
    url: Seq<char>,
    total: u32,
    now: u64,
    post: History,
    r: Option<String>,
) -> bool {
    &&& post == (History { meta: post.meta, ..pre })
    &&& if total_of(rows_of(pre.meta@), url) == Some(total) {
        r is None && post == pre
    } else {
        &&& rows_of(post.meta@) == kept_rows(
            pre,
            with_total(rows_of(pre.meta@), url, total, now),
            pre.urls@,
        )
        &&& r is Some == (pre.meta_loaded && pre.loaded)
        &&& writes_rows(r, rows_of(post.meta@))
    }
}

/// It is known how many files a URL holds. The result is the file to write;
/// nothing where the number is the known one.
pub fn remember_url_total(h: &mut History, url: &str, total: u32, now: u64) -> (r: Option<String>)
    ensures
        totaled(*old(h), url@, total, now, *final(h), r),
{
    let ghost before = rows_of(h.meta@);
    match find_row(h, url) {
        Some(i) => {
            if h.meta[i].1 == total {
                return None;
            }
            h.meta[i].1 = total;
        },
        None => {
            h.meta.push((url.to_owned(), total, now, false));
        },
    }
    assert(rows_of(h.meta@) =~= with_total(before, url@, total, now));
    save_history_meta(h)
}

/// The rows once a URL's mark was flipped.
pub open spec fn with_mark_flipped(rows: Seq<Row>, url: Seq<char>, now: u64) -> Seq<Row> {
    match row_of(rows, url, 0) {
        Some(i) => rows.update(i, (rows[i].0, rows[i].1, rows[i].2, !rows[i].3)),
        None => rows.push((url, 0, now, true)),
    }
}

/// Makes a URL a favourite, or no longer one; says which, and what to write.
pub fn toggle_url_favorite(h: &mut History, url: &str, now: u64) -> (r: (bool, Option<String>))
    ensures
        *final(h) == (History { meta: final(h).meta, ..*old(h) }),
        rows_of(final(h).meta@) == kept_rows(
            *old(h),
            with_mark_flipped(rows_of(old(h).meta@), url@, now),
            old(h).urls@,
        ),
        r.0 == !favored(rows_of(old(h).meta@), url@),
        r.1 is Some == (old(h).meta_loaded && old(h).loaded),
        writes_rows(r.1, rows_of(final(h).meta@)),
{
    let ghost before = rows_of(h.meta@);
    let fav: bool = match find_row(h, url) {
        Some(i) => {
            let f: bool = !h.meta[i].3;
            h.meta[i].3 = f;
            f
        },
        None => {
            h.meta.push((url.to_owned(), 0, now, true));
            true
        },
    };
    assert(rows_of(h.meta@) =~= with_mark_flipped(before, url@, now));
    let file: Option<String> = save_history_meta(h);
    (fav, file)
}

/// Flipping a mark flips whether the URL is a favourite, and that of no other URL;
/// flipping it twice leaves it as it was.
pub proof fn flipping_twice(rows: Seq<Row>, url: Seq<char>, now: u64, other: Seq<char>)
    ensures
        favored(with_mark_flipped(rows, url, now), url) == !favored(rows, url),
        other != url ==> favored(with_mark_flipped(rows, url, now), other) == favored(rows, other),
        favored(with_mark_flipped(with_mark_flipped(rows, url, now), url, now), url) == favored(
            rows,
            url,
        ),
{
    let once = with_mark_flipped(rows, url, now);
    flip_row(rows, url, now, url);
    flip_row(rows, url, now, other);
    flip_row(once, url, now, url);
}

proof fn flip_row(rows: Seq<Row>, url: Seq<char>, now: u64, other: Seq<char>)
    ensures
        other == url ==> favored(with_mark_flipped(rows, url, now), url) == !favored(rows, url),
        other != url ==> favored(with_mark_flipped(rows, url, now), other) == favored(rows, other),
{
    let after = with_mark_flipped(rows, url, now);
    match row_of(rows, url, 0) {
        Some(i) => {
            row_of_facts(rows, url, 0);
            row_of_facts(rows, other, 0);
            row_of_same(rows, after, other, 0);
        },
        None => {
            row_of_push(rows, (url, 0, now, true), other, 0);
        },
    }
}

proof fn row_of_facts(rows: Seq<Row>, url: Seq<char>, from: int)
    requires
        0 <= from,
    ensures
        match row_of(rows, url, from) {
            Some(i) => from <= i < rows.len() && rows[i].0 == url,
            None => true,
        },
    decreases rows.len() - from,
{
    if from < rows.len() && rows[from].0 != url {
        row_of_facts(rows, url, from + 1);
    }
}

proof fn row_of_same(a: Seq<Row>, b: Seq<Row>, url: Seq<char>, from: int)
    requires
        0 <= from,
        a.len() == b.len(),
        forall|i: int| 0 <= i < a.len() ==> (#[trigger] a[i]).0 == b[i].0,
    ensures
        row_of(a, url, from) == row_of(b, url, from),
    decreases a.len() - from,
{
    if from < a.len() {
        assert(a[from].0 == b[from].0);
        row_of_same(a, b, url, from + 1);
    }
}

proof fn row_of_push(rows: Seq<Row>, x: Row, url: Seq<char>, from: int)
    requires
        0 <= from <= rows.len(),
    ensures
        row_of(rows.push(x), url, from) == (match row_of(rows, url, from) {
            Some(i) => Some(i),
            None => if x.0 == url {
                Some(rows.len() as int)
            } else {
                None
            },
        }),
        match row_of(rows, url, from) {
            Some(i) => from <= i < rows.len(),
            None => true,
        },
    decreases rows.len() - from,
{
    let p = rows.push(x);
    if from < rows.len() {
        assert(p[from] == rows[from]);
        if rows[from].0 != url {
            row_of_push(rows, x, url, from + 1);
        }
    } else {
        assert(p[from] == x);
        assert(row_of(p, url, from + 1) == None::<int>);
    }
}

// ── Adding and removing ────────────────────────────────────────────────────

/// The files to write.
pub struct Saves {
    pub urls: Option<String>,
    pub meta: Option<String>,
}

/// The list with one more at the end; the first is dropped where it grows too
/// long.
pub open spec fn with_url(urls: Seq<Seq<char>>, url: Seq<char>) -> Seq<Seq<char>> {
    let grown = urls.push(url);
    if grown.len() > HISTORY_MAX {
        grown.drop_first()
    } else {
        grown
    }
}

/// The first place of a text in a list.
pub open spec fn place_in(list: Seq<Seq<char>>, t: Seq<char>, from: int) -> Option<int>
    decreases list.len() - from,
{
    if from < 0 || from >= list.len() {
        None
    } else if list[from] == t {
        Some(from)
    } else {
        place_in(list, t, from + 1)
    }
}

/// The first place of a text in a list is where it first stands.
pub proof fn place_in_is(list: Seq<Seq<char>>, t: Seq<char>, from: int, i: int)
    requires
        0 <= from <= i < list.len(),
        list[i] == t,
        forall|k: int| from <= k < i ==> list[k] != t,
    ensures
        place_in(list, t, from) == Some(i),
    decreases i - from,
{
    if from < i {
        assert(list[from] != t);
        place_in_is(list, t, from + 1, i);
    }
}

/// A text that stands nowhere has no place.
pub proof fn place_in_none(list: Seq<Seq<char>>, t: Seq<char>, from: int)
    requires
        0 <= from,
        forall|k: int| from <= k < list.len() ==> list[k] != t,
    ensures
        place_in(list, t, from) == None::<int>,
    decreases list.len() - from,
{
    if from < list.len() {
        place_in_none(list, t, from + 1);
    }
}

/// The first place of a URL in the saved ones.
pub fn find_url(h: &History, url: &str) -> (r: Option<usize>)
    ensures
        match r {
            Some(i) => i < h.urls@.len() && place_in(text::texts(h.urls@), url@, 0) == Some(
                i as int,
            ),
            None => place_in(text::texts(h.urls@), url@, 0) == None::<int>,
        },
{
    let ghost t = text::texts(h.urls@);
    match state::place_of(&h.urls, url) {
        Some(i) => {
            proof {
                assert forall|k: int| 0 <= k < i implies t[k] != url@ by {
                    assert(h.urls@[k]@ != url@);
                }
                place_in_is(t, url@, 0, i as int);
            }
            Some(i)
        },
        None => {
            proof {
                assert forall|k: int| 0 <= k < t.len() implies t[k] != url@ by {
                    assert(h.urls@[k]@ == t[k]);
                }
                place_in_none(t, url@, 0);
            }
            None
        },
    }
}

/// What saving a URL changes and writes. One that is known keeps its place; a new
/// one goes to the end. Nothing is written over files that were not read.
pub open spec fn pushed(pre: History, url: Seq<char>, now: u64, post: History, r: Saves) -> bool {
    let u = text::trimmed(url);
    let urls = text::texts(pre.urls@);
    &&& post == (History { urls: post.urls, index: post.index, meta: post.meta, ..pre })
    &&& if u.len() == 0 {
        post == pre && r.urls is None && r.meta is None
    } else {
        match place_in(urls, u, 0) {
            Some(p) => post == (History { index: Some(p as usize), ..pre }) && r.urls is None
                && r.meta is None,
            None => {
                &&& text::texts(post.urls@) == with_url(urls, u)
                &&& post.index == last_of(post.urls@.len() as int)
                &&& rows_of(post.meta@) == kept_rows(
                    pre,
                    rows_of(pre.meta@).push((u, 0, now, false)),
                    post.urls@,
                )
                &&& r.urls is Some == pre.loaded
                &&& r.meta is Some == (pre.meta_loaded && pre.loaded)
                &&& writes_urls(r.urls, text::texts(post.urls@))
                &&& writes_rows(r.meta, rows_of(post.meta@))
            },
        }
    }
}

/// Saves a URL that was imported.
pub fn push_history(h: &mut History, url: &str, now: u64) -> (r: Saves)
    ensures
        pushed(*old(h), url@, now, *final(h), r),
{
    let u: String = text::trim(url);
    if u.unicode_len() == 0 {
        return Saves { urls: None, meta: None };
    }
    match find_url(h, u.as_str()) {
        Some(p) => {
            h.index = Some(p);
            Saves { urls: None, meta: None }
        },
        None => {
            let ghost urls = text::texts(h.urls@);
            let ghost rows = rows_of(h.meta@);
            h.meta.push((u.clone(), 0, now, false));
            assert(rows_of(h.meta@) =~= rows.push((u@, 0, now, false)));
            h.urls.push(u);
            assert(text::texts(h.urls@) =~= urls.push(u@));
            if h.urls.len() > HISTORY_MAX {
                h.urls.remove(0);
                assert(text::texts(h.urls@) =~= urls.push(u@).drop_first());
            }
            h.index = Some(h.urls.len() - 1);
            let meta: Option<String> = save_history_meta(h);
            let urls_file: Option<String> = save_history(h);
            Saves { urls: urls_file, meta }
        },
    }
}

/// A URL that is saved again keeps the list as it was; one that is new is the last
/// of the list, behind all those that were there, and the list stays within its
/// limit.
pub proof fn saved_urls_keep_their_place(urls: Seq<Seq<char>>, url: Seq<char>)
    requires
        urls.len() <= HISTORY_MAX,
    ensures
        with_url(urls, url).len() <= HISTORY_MAX,
        with_url(urls, url).last() == url,
        urls.len() < HISTORY_MAX ==> with_url(urls, url).drop_last() == urls,
        urls.len() == HISTORY_MAX ==> with_url(urls, url).drop_last() == urls.drop_first(),
{
    let w = with_url(urls, url);
    if urls.len() < HISTORY_MAX {
        assert(w.drop_last() =~= urls);
    } else {
        assert(w.drop_last() =~= urls.drop_first());
    }
}

/// The cursor stays on the list when a row of it goes.
pub open spec fn after_removal(i: int, n: int) -> Option<usize> {
    if n == 0 {
        None
    } else if i < n {
        Some(i as usize)
    } else {
        Some((n - 1) as usize)
    }
}

/// What removing the URL that was chosen changes and writes.
pub open spec fn removed(pre: History, post: History, r: Option<String>) -> bool {
    &&& post == (History { urls: post.urls, index: post.index, ..pre })
    &&& match pre.index {
        Some(i) => if i < pre.urls@.len() {
            &&& post.urls@ == pre.urls@.remove(i as int)
            &&& post.index == after_removal(i as int, post.urls@.len() as int)
            &&& r is Some == pre.loaded
            &&& writes_urls(r, text::texts(post.urls@))
        } else {
            post == pre && r is None
        },
        None => post == pre && r is None,
    }
}

/// Removes the URL that was chosen. The result is the file to write.
pub fn delete_current_history(h: &mut History) -> (r: Option<String>)
    ensures
        removed(*old(h), *final(h), r),
{
    let idx: usize = match h.index {
        Some(i) => i,
        None => {
            return None;
        },
    };
    if idx >= h.urls.len() {
        return None;
    }
    h.urls.remove(idx);
    h.index = if h.urls.len() == 0 {
        None
    } else if idx < h.urls.len() {
        Some(idx)
    } else {
        Some(h.urls.len() - 1)
    };
    save_history(h)
}

/// Puts a URL in the place of another. The result is the file to write.
pub fn replace_url(h: &mut History, i: usize, url: String) -> (r: Option<String>)
    requires
        i < old(h).urls@.len(),
    ensures
        *final(h) == (History { urls: final(h).urls, ..*old(h) }),
        final(h).urls@ == old(h).urls@.update(i as int, url),
        r is Some == old(h).loaded,
        writes_urls(r, text::texts(final(h).urls@)),
{
    h.urls.set(i, url);
    save_history(h)
}

} // verus!
