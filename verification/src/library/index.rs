//! What the scan of the card saw: which files there are, and what the headers of
//! the games say.

use crate::digits;
use crate::json;
use crate::json::{Json, Tree};
use crate::library::names;
use crate::library::sorting;
use crate::library::state;
use crate::library::state::{Compression, Entry, Header, State};
use crate::net;
use crate::parts;
use crate::text;
use vstd::prelude::*;

verus! {

// ── Files ──────────────────────────────────────────────────────────────────

/// The files that the scan listed, each once, and the directories that it
/// listed in full.
pub struct FileIndex {
    pub files: Vec<String>,
    pub dirs: Vec<String>,
}

impl FileIndex {
    /// Nothing was scanned.
    pub fn new() -> (r: FileIndex)
        ensures
            r.files@.len() == 0,
            r.dirs@.len() == 0,
            r.wf(),
    {
        FileIndex { files: Vec::new(), dirs: Vec::new() }
    }

    /// No file stands in the list twice.
    pub open spec fn wf(&self) -> bool {
        forall|i: int, j: int|
            0 <= i < j < self.files@.len() ==> (#[trigger] self.files@[i])@ != (
            #[trigger] self.files@[j])@
    }

    /// Is the path listed?
    pub open spec fn has(&self, path: Seq<char>) -> bool {
        state::listed(self.files@, path)
    }

    /// Was the directory of the path listed in full?
    pub open spec fn knows(&self, path: Seq<char>) -> bool {
        state::listed(self.dirs@, names::parent_of(path))
    }
}

fn insert_path(idx: &mut FileIndex, path: &str)
    requires
        old(idx).wf(),
    ensures
        final(idx).wf(),
        final(idx).dirs == old(idx).dirs,
        forall|p: Seq<char>| #[trigger] final(idx).has(p) == (old(idx).has(p) || p == path@),
{
    match state::place_of(&idx.files, path) {
        Some(i) => {
            assert(idx.files@[i as int]@ == path@);
            assert(idx.has(path@));
        },
        None => {
            let ghost before = idx.files@;
            idx.files.push(path.to_owned());
            proof {
                let after = idx.files@;
                assert(after[before.len() as int]@ == path@);
                assert forall|p: Seq<char>| #[trigger] idx.has(p) == (state::listed(before, p) || p
                    == path@) by {
                    if state::listed(before, p) {
                        let k = choose|k: int| 0 <= k < before.len() && (#[trigger] before[k])@ == p;
                        assert(after[k]@ == p);
                    }
                    if idx.has(p) && p != path@ {
                        let k = choose|k: int| 0 <= k < after.len() && (#[trigger] after[k])@ == p;
                        assert(before[k]@ == p);
                    }
                }
                assert forall|i: int, j: int| 0 <= i < j < after.len() implies (#[trigger] after[i])@
                    != (#[trigger] after[j])@ by {
                    if j == before.len() {
                        assert(before[i]@ != path@);
                    } else {
                        assert(before[i]@ != before[j]@);
                    }
                }
            }
        },
    }
}

/// The scan listed a file.
pub fn note_file(idx: &mut FileIndex, path: &str)
    requires
        old(idx).wf(),
    ensures
        final(idx).wf(),
        final(idx).dirs == old(idx).dirs,
        forall|p: Seq<char>| #[trigger] final(idx).has(p) == (old(idx).has(p) || p == path@),
{
    insert_path(idx, path);
}

/// A directory was listed in full, or is not there. It is held once, however often it
/// is noted.
pub fn note_dir(idx: &mut FileIndex, dir: &str)
    ensures
        final(idx).files == old(idx).files,
        forall|p: Seq<char>| #[trigger]
            state::listed(final(idx).dirs@, p) == (state::listed(old(idx).dirs@, p) || p
                == parts::without_trailing(dir@, '/')),
        ({
            let d = parts::without_trailing(dir@, '/');
            if state::listed(old(idx).dirs@, d) {
                final(idx).dirs == old(idx).dirs
            } else {
                &&& final(idx).dirs@.len() == old(idx).dirs@.len() + 1
                &&& final(idx).dirs@.drop_last() == old(idx).dirs@
                &&& final(idx).dirs@.last()@ == d
            }
        }),
{
    let d: String = parts::trim_trailing(dir, '/');
    let ghost before = idx.dirs@;
    match state::place_of(&idx.dirs, d.as_str()) {
        Some(i) => {
            assert(before[i as int]@ == d@);
        },
        None => {
            idx.dirs.push(d);
            proof {
                let after = idx.dirs@;
                assert(after.drop_last() =~= before);
                assert(after[before.len() as int]@ == d@);
                assert forall|p: Seq<char>| #[trigger]
                    state::listed(after, p) == (state::listed(before, p) || p == d@) by {
                    if state::listed(before, p) {
                        let k = choose|k: int| 0 <= k < before.len() && (#[trigger] before[k])@ == p;
                        assert(after[k]@ == p);
                    }
                    if state::listed(after, p) && p != d@ {
                        let k = choose|k: int| 0 <= k < after.len() && (#[trigger] after[k])@ == p;
                        assert(before[k]@ == p);
                    }
                }
            }
        },
    }
}

/// A file was written after the scan.
pub fn note_file_created(idx: &mut FileIndex, path: &str)
    requires
        old(idx).wf(),
    ensures
        final(idx).wf(),
        final(idx).dirs == old(idx).dirs,
        forall|p: Seq<char>| #[trigger] final(idx).has(p) == (old(idx).has(p) || p == path@),
{
    insert_path(idx, path);
}

/// A file was removed after the scan.
pub fn note_file_removed(idx: &mut FileIndex, path: &str)
    requires
        old(idx).wf(),
    ensures
        final(idx).wf(),
        final(idx).dirs == old(idx).dirs,
        forall|p: Seq<char>| #[trigger] final(idx).has(p) == (old(idx).has(p) && p != path@),
{
    if let Some(i) = state::place_of(&idx.files, path) {
        let ghost before = idx.files@;
        idx.files.remove(i);
        proof {
            let after = idx.files@;
            assert(after =~= before.remove(i as int));
            assert forall|p: Seq<char>| #[trigger] idx.has(p) == (state::listed(before, p) && p
                != path@) by {
                if state::listed(before, p) && p != path@ {
                    let k = choose|k: int| 0 <= k < before.len() && (#[trigger] before[k])@ == p;
                    if k < i {
                        assert(after[k]@ == p);
                    } else {
                        assert(after[k - 1]@ == p);
                    }
                }
                if idx.has(p) {
                    let k = choose|k: int| 0 <= k < after.len() && (#[trigger] after[k])@ == p;
                    let o = if k < i {
                        k
                    } else {
                        k + 1
                    };
                    assert(before[o]@ == p);
                    assert(before[o]@ != before[i as int]@);
                }
            }
        }
    }
}

/// Can the index answer for the path?
pub fn scan_knows_dir(idx: &FileIndex, path: &str) -> (r: bool)
    ensures
        r == idx.knows(path@),
{
    let dir: String = names::parent_dir(path);
    match state::place_of(&idx.dirs, dir.as_str()) {
        Some(i) => {
            assert(idx.dirs@[i as int]@ == dir@);
            true
        },
        None => false,
    }
}

/// What the index answers for a path: whether the file is there, or nothing where
/// only the card knows.
pub open spec fn answer(idx: FileIndex, path: Seq<char>) -> Option<bool> {
    if idx.knows(path) {
        Some(idx.has(path))
    } else {
        None
    }
}

/// Is the file there? `on_card` is what the card says, and counts where the index
/// cannot answer.
pub fn file_exists(idx: &FileIndex, path: &str, on_card: bool) -> (r: bool)
    ensures
        r == (match answer(*idx, path@) {
            Some(b) => b,
            None => on_card,
        }),
{
    if scan_knows_dir(idx, path) {
        match state::place_of(&idx.files, path) {
            Some(i) => {
                assert(idx.files@[i as int]@ == path@);
                true
            },
            None => false,
        }
    } else {
        on_card
    }
}

/// The index answers as the card does, for every path that it answers for.
pub open spec fn truthful(idx: FileIndex, card: Set<Seq<char>>) -> bool {
    forall|p: Seq<char>| #[trigger] idx.knows(p) ==> idx.has(p) == card.contains(p)
}

/// The index stays truthful when a file is written or removed and the index is
/// told of it. (`after` is what `note_file_created` or `note_file_removed` leaves.)
pub proof fn index_stays_truthful(
    idx: FileIndex,
    card: Set<Seq<char>>,
    path: Seq<char>,
    after: FileIndex,
    created: bool,
)
    requires
        truthful(idx, card),
        after.dirs == idx.dirs,
        created ==> forall|p: Seq<char>| #[trigger] after.has(p) == (idx.has(p) || p == path),
        !created ==> forall|p: Seq<char>| #[trigger] after.has(p) == (idx.has(p) && p != path),
    ensures
        created ==> truthful(after, card.insert(path)),
        !created ==> truthful(after, card.remove(path)),
{
    if created {
        assert forall|p: Seq<char>| #[trigger] after.knows(p) implies after.has(p) == card.insert(
            path,
        ).contains(p) by {
            assert(idx.knows(p));
        }
    } else {
        assert forall|p: Seq<char>| #[trigger] after.knows(p) implies after.has(p) == card.remove(
            path,
        ).contains(p) by {
            assert(idx.knows(p));
        }
    }
}

// ── Where the player's files are ───────────────────────────────────────────

/// The first root: new files go there.
pub open spec fn first_root() -> Seq<char> {
    "sdmc:/flashnx"@
}

/// The second root, from earlier days.
pub open spec fn second_root() -> Seq<char> {
    "sdmc:/ruffle"@
}

/// A file in a root.
pub open spec fn in_root(root: Seq<char>, suffix: Seq<char>) -> Seq<char> {
    root + "/"@ + suffix
}

/// Where a file of the player is written.
pub fn primary_user_path(suffix: &str) -> (r: String)
    ensures
        r@ == in_root(first_root(), suffix@),
{
    parts::concat3("sdmc:/flashnx", "/", suffix)
}

/// Where a file of the player stands: in the first root, else in the second.
/// `on_card` is what the card says of the two.
pub fn find_user_file(idx: &FileIndex, suffix: &str, on_card: (bool, bool)) -> (r: Option<String>)
    ensures
        ({
            let a = in_root(first_root(), suffix@);
            let b = in_root(second_root(), suffix@);
            let has_a = match answer(*idx, a) {
                Some(x) => x,
                None => on_card.0,
            };
            let has_b = match answer(*idx, b) {
                Some(x) => x,
                None => on_card.1,
            };
            match r {
                Some(p) => if has_a {
                    p@ == a
                } else {
                    has_b && p@ == b
                },
                None => !has_a && !has_b,
            }
        }),
{
    let a: String = parts::concat3("sdmc:/flashnx", "/", suffix);
    if file_exists(idx, a.as_str(), on_card.0) {
        return Some(a);
    }
    let b: String = parts::concat3("sdmc:/ruffle", "/", suffix);
    if file_exists(idx, b.as_str(), on_card.1) {
        return Some(b);
    }
    None
}

/// What is done to the file that holds a game's given name.
pub enum NameChange {
    /// The name is taken back: the file goes.
    Remove,
    /// The file is written with this text.
    Write(String),
}

/// The document that holds a game's given name.
pub open spec fn name_document(name: Seq<char>) -> Tree {
    Tree::Object(seq![("display_name"@, Tree::Text(name))])
}

/// The name that a document gives a game.
pub open spec fn name_given(t: Tree) -> Option<Seq<char>> {
    json::string(json::field(t, "display_name"@))
}

/// A given name is read as it was written.
pub proof fn given_name_round_trip(name: Seq<char>)
    ensures
        name_given(name_document(name)) == Some(name),
{
}

/// What a new name does: a blank one is taken back. The file that is written holds
/// the name as it was given.
pub fn write_meta_sidecar(display_name: &str) -> (r: NameChange)
    ensures
        match r {
            NameChange::Remove => text::trimmed(display_name@).len() == 0,
            NameChange::Write(file) => text::trimmed(display_name@).len() > 0
                && json::parsed_json(vstd::utf8::encode_utf8(file@)) == Ok::<Tree, Seq<char>>(
                name_document(display_name@),
            ),
        },
{
    let t: String = text::trim(display_name);
    if t.unicode_len() == 0 {
        return NameChange::Remove;
    }
    let mut v: Vec<(String, Json)> = Vec::new();
    v.push(("display_name".to_owned(), Json::Text(display_name.to_owned())));
    let ghost f = json::fields(v@);
    proof {
        json::fields_index(v@);
        assert(f[0] == ("display_name"@, Tree::Text(display_name@)));
        assert(f =~= seq![("display_name"@, Tree::Text(display_name@))]);
    }
    let doc: Json = Json::Object(v);
    assert(json::tree(doc) == name_document(display_name@));
    assert(json::text_table(json::tree(doc)));
    match json::write_pretty(&doc) {
        Some(file) => NameChange::Write(file),
        None => NameChange::Remove,
    }
}

/// What is written beside a game of where it came from; nothing for a game that
/// was copied by hand.
pub fn write_url_sidecar(url: &str) -> (r: Option<String>)
    ensures
        match r {
            Some(t) => t@ == text::trimmed(url@) && t@.len() > 0,
            None => text::trimmed(url@).len() == 0,
        },
{
    let t: String = text::trim(url);
    if t.unicode_len() == 0 {
        None
    } else {
        Some(t)
    }
}

// ── Sizes ──────────────────────────────────────────────────────────────────

/// The size that is kept beside a game of several files.
pub open spec fn kept_size(file: Seq<char>) -> Option<u64> {
    match digits::parsed(text::trimmed(file), u64::MAX as nat) {
        Some(n) => if n > 0 {
            Some(n as u64)
        } else {
            None
        },
        None => None,
    }
}

/// The size that is kept beside a game of several files.
pub fn read_filesize_cache(file: &str) -> (r: Option<u64>)
    ensures
        r == kept_size(file@),
{
    let t: String = text::trim(file);
    match digits::parse(t.as_str(), u64::MAX) {
        Some(n) => if n > 0 {
            Some(n)
        } else {
            None
        },
        None => None,
    }
}

/// What is kept beside a game whose movie has `flat` bytes and whose linked files
/// have `tree`: the sum. A game without linked files keeps nothing. The card
/// answers with a negative number where it fails.
pub fn cache_game_footprint(flat: i64, tree: i64) -> (r: Option<String>)
    ensures
        match r {
            Some(t) => tree > 0 && t@ == digits::decimal(
                (if flat > 0 {
                    flat + tree
                } else {
                    tree as int
                }) as nat,
            ),
            None => tree <= 0,
        },
{
    if tree <= 0 {
        return None;
    }
    let flat: u64 = if flat > 0 {
        flat as u64
    } else {
        0
    };
    Some(digits::dec(flat + tree as u64))
}

/// The kept size is read as it was written.
pub proof fn footprint_round_trip(n: u64)
    requires
        n > 0,
    ensures
        kept_size(digits::decimal(n as nat)) == Some(n),
{
    let d = digits::decimal(n as nat);
    digits::decimal_reads_back(n as nat);
    assert(text::digit(d[0]));
    assert(text::digit(d.last()));
    assert(text::trim_start(d) == d);
    assert(text::trim_end(d) == d);
    assert(d[0] != '+');
}

/// The first game with that path.
pub open spec fn entry_at(list: Seq<Entry>, path: Seq<char>, from: int) -> Option<int>
    decreases list.len() - from,
{
    if from < 0 || from >= list.len() {
        None
    } else if list[from].path@ == path {
        Some(from)
    } else {
        entry_at(list, path, from + 1)
    }
}

/// The first game with that path.
pub fn position_of_path(list: &Vec<Entry>, path: &str) -> (r: Option<usize>)
    ensures
        match r {
            Some(i) => i < list@.len() && entry_at(list@, path@, 0) == Some(i as int)
                && list@[i as int].path@ == path@,
            None => entry_at(list@, path@, 0) == None::<int> && forall|k: int|
                0 <= k < list@.len() ==> (#[trigger] list@[k]).path@ != path@,
        },
{
    let mut i: usize = 0;
    while i < list.len()
        invariant
            i <= list.len(),
            entry_at(list@, path@, 0) == entry_at(list@, path@, i as int),
            forall|k: int| 0 <= k < i ==> (#[trigger] list@[k]).path@ != path@,
        decreases list.len() - i,
    {
        if text::str_eq(list[i].path.as_str(), path) {
            return Some(i);
        }
        i = i + 1;
    }
    None
}

/// The size of the game at a path was measured.
pub fn note_footprint(s: &mut State, path: &str, size: u64)
    ensures
        *final(s) == (State { entries: final(s).entries, ..*old(s) }),
        match entry_at(old(s).entries@, path@, 0) {
            Some(i) => final(s).entries@ == old(s).entries@.update(
                i,
                Entry { size_bytes: size, ..old(s).entries@[i] },
            ),
            None => final(s).entries@ == old(s).entries@,
        },
{
    if let Some(i) = position_of_path(&s.entries, path) {
        s.entries[i].size_bytes = size;
    }
}

/// The paths of the games.
pub fn scanned_game_paths(s: &State) -> (r: Vec<String>)
    ensures
        r@.len() == s.entries@.len(),
        forall|i: int| 0 <= i < r@.len() ==> (#[trigger] r@[i])@ == s.entries@[i].path@,
{
    let mut r: Vec<String> = Vec::new();
    let mut i: usize = 0;
    while i < s.entries.len()
        invariant
            i <= s.entries.len(),
            r@.len() == i,
            forall|k: int| 0 <= k < i ==> (#[trigger] r@[k])@ == s.entries@[k].path@,
        decreases s.entries.len() - i,
    {
        r.push(s.entries[i].path.clone());
        i = i + 1;
    }
    r
}

// ── Headers ────────────────────────────────────────────────────────────────

/// The header of one game, as it is kept between scans.
pub struct HeaderRow {
    pub path: String,
    pub mtime: u64,
    pub size: u64,
    pub ver: u8,
    pub comp: String,
    pub as3: bool,
}

/// The headers that were kept, and those that this scan collects.
pub struct HeaderIndex {
    pub rows: Vec<HeaderRow>,
    pub collected: Vec<HeaderRow>,
    /// Was a game missing?
    pub missed: bool,
    /// How many headers were kept when the scan began.
    pub kept: usize,
}

impl HeaderIndex {
    /// Nothing was kept.
    pub fn new() -> (r: HeaderIndex)
        ensures
            r.rows@.len() == 0,
            r.collected@.len() == 0,
            !r.missed,
            r.kept == 0,
    {
        HeaderIndex { rows: Vec::new(), collected: Vec::new(), missed: false, kept: 0 }
    }
}

/// A scan begins. `kept` are the headers of the last one; nothing where they
/// cannot be read.
pub fn scan_begin(h: &mut HeaderIndex, kept: Option<Vec<HeaderRow>>)
    ensures
        final(h).rows@ == (match kept {
            Some(v) => v@,
            None => Seq::empty(),
        }),
        final(h).collected@.len() == 0,
        !final(h).missed,
        final(h).kept == final(h).rows@.len(),
{
    h.missed = false;
    h.rows = match kept {
        Some(v) => v,
        None => Vec::new(),
    };
    h.kept = h.rows.len();
    h.collected = Vec::new();
}

/// The scan ended. The result are the headers to keep, where they differ from
/// the kept ones: a game was missing, or the number of games changed.
pub fn scan_end(h: &mut HeaderIndex) -> (r: Option<Vec<HeaderRow>>)
    ensures
        final(h).rows@.len() == 0,
        final(h).collected@.len() == 0,
        !final(h).missed,
        final(h).kept == old(h).kept,
        match r {
            Some(v) => (old(h).missed || old(h).kept != old(h).collected@.len()) && v@
                == old(h).collected@,
            None => !old(h).missed && old(h).kept == old(h).collected@.len(),
        },
{
    let missed: bool = h.missed;
    h.missed = false;
    let mut rows: Vec<HeaderRow> = Vec::new();
    std::mem::swap(&mut rows, &mut h.collected);
    let stale: bool = h.kept != rows.len();
    h.rows.clear();
    if !missed && !stale {
        return None;
    }
    Some(rows)
}

/// The first kept header of that path and that time.
pub open spec fn row_of(rows: Seq<HeaderRow>, path: Seq<char>, mtime: u64, from: int) -> Option<
    HeaderRow,
>
    decreases rows.len() - from,
{
    if from < 0 || from >= rows.len() {
        None
    } else if rows[from].path@ == path && rows[from].mtime == mtime {
        Some(rows[from])
    } else {
        row_of(rows, path, mtime, from + 1)
    }
}

/// The kept header of a game: none where its time is not known, has changed, or
/// where the header makes no sense.
pub open spec fn kept_header(rows: Seq<HeaderRow>, path: Seq<char>, mtime: u64) -> Option<Header> {
    if mtime == 0 {
        None
    } else {
        match row_of(rows, path, mtime, 0) {
            Some(r) => match state::packing(r.comp@) {
                Some(c) => Some(
                    Header { size_bytes: r.size, version: r.ver, compression: c, is_as3: r.as3 },
                ),
                None => None,
            },
            None => None,
        }
    }
}

/// The kept header of a game.
pub fn index_lookup(h: &HeaderIndex, path: &str, mtime: u64) -> (r: Option<Header>)
    ensures
        r == kept_header(h.rows@, path@, mtime),
{
    if mtime == 0 {
        return None;
    }
    let mut i: usize = 0;
    while i < h.rows.len()
        invariant
            i <= h.rows.len(),
            mtime != 0,
            row_of(h.rows@, path@, mtime, 0) == row_of(h.rows@, path@, mtime, i as int),
        decreases h.rows.len() - i,
    {
        let row: &HeaderRow = &h.rows[i];
        if row.mtime == mtime && text::str_eq(row.path.as_str(), path) {
            return match state::static_compression_label(row.comp.as_str()) {
                Some(c) => Some(
                    Header {
                        size_bytes: row.size,
                        version: row.ver,
                        compression: c,
                        is_as3: row.as3,
                    },
                ),
                None => None,
            };
        }
        i = i + 1;
    }
    None
}

fn scan_note_header(h: &mut HeaderIndex, path: &str, mtime: u64, hd: Header)
    ensures
        final(h).rows == old(h).rows,
        final(h).missed == old(h).missed,
        final(h).kept == old(h).kept,
        collected_one(old(h).collected@, final(h).collected@, path@, mtime, hd),
{
    let ghost before = h.collected@;
    h.collected.push(
        HeaderRow {
            path: path.to_owned(),
            mtime,
            size: hd.size_bytes,
            ver: hd.version,
            comp: hd.compression.label().to_owned(),
            as3: hd.is_as3,
        },
    );
    assert(h.collected@.drop_last() =~= before);
}

/// `after` is `before` and the header of one more game.
pub open spec fn collected_one(
    before: Seq<HeaderRow>,
    after: Seq<HeaderRow>,
    path: Seq<char>,
    mtime: u64,
    hd: Header,
) -> bool {
    &&& after.len() == before.len() + 1
    &&& after.drop_last() == before
    &&& after.last().path@ == path
    &&& after.last().mtime == mtime
    &&& after.last().size == hd.size_bytes
    &&& after.last().ver == hd.version
    &&& after.last().comp@ == state::signature(hd.compression)
    &&& after.last().as3 == hd.is_as3
}

/// A header that a scan collected is found by the next scan, while the game's
/// time stays the same.
pub proof fn collected_header_is_found(
    before: Seq<HeaderRow>,
    after: Seq<HeaderRow>,
    path: Seq<char>,
    mtime: u64,
    hd: Header,
)
    requires
        mtime > 0,
        collected_one(before, after, path, mtime, hd),
        forall|i: int|
            0 <= i < before.len() ==> (#[trigger] before[i]).path@ != path,
    ensures
        kept_header(after, path, mtime) == Some(hd),
{
    state::signature_round_trip(hd.compression);
    assert forall|i: int| 0 <= i < before.len() implies (#[trigger] after[i]).path@ != path by {
        assert(after.drop_last()[i] == before[i]);
    }
    row_of_last(after, path, mtime, 0);
}

proof fn row_of_last(rows: Seq<HeaderRow>, path: Seq<char>, mtime: u64, from: int)
    requires
        0 <= from < rows.len(),
        forall|i: int| 0 <= i < rows.len() - 1 ==> (#[trigger] rows[i]).path@ != path,
        rows.last().path@ == path,
        rows.last().mtime == mtime,
    ensures
        row_of(rows, path, mtime, from) == Some(rows.last()),
    decreases rows.len() - from,
{
    if from < rows.len() - 1 {
        assert(rows[from].path@ != path);
        row_of_last(rows, path, mtime, from + 1);
    }
}

// ── Games ──────────────────────────────────────────────────────────────────

/// What stands on the card beside a game.
pub struct Sidecars {
    /// The header as the file says it, where it could be read.
    pub header: Option<Header>,
    pub filesize: Option<String>,
    pub display_name: Option<String>,
    pub url: Option<String>,
}

/// The text of an optional string.
pub open spec fn text_in(s: Option<String>) -> Option<Seq<char>> {
    match s {
        Some(t) => Some(t@),
        None => None,
    }
}

/// The header that counts for a game: the kept one, else what the file says.
pub open spec fn header_of(rows: Seq<HeaderRow>, path: Seq<char>, mtime: u64, read: Option<Header>) -> Option<
    Header,
> {
    match kept_header(rows, path, mtime) {
        Some(h) => Some(h),
        None => read,
    }
}

/// The game that a path, its header and what stands beside it make.
pub open spec fn is_entry(e: Entry, path: Seq<char>, mtime: u64, hd: Header, side: Sidecars) -> bool {
    &&& e.path@ == path
    &&& e.basename@ == names::base_of(path)
    &&& e.display_name@ == sorting::shown_name(names::base_of(path), text_in(side.display_name))
    &&& e.size_bytes == (match text_in(side.filesize) {
        Some(t) => match kept_size(t) {
            Some(n) => n,
            None => hd.size_bytes,
        },
        None => hd.size_bytes,
    })
    &&& e.swf_version == hd.version
    &&& e.compression == hd.compression
    &&& e.is_as3 == hd.is_as3
    &&& e.hue == names::fnv(vstd::utf8::encode_utf8(names::base_of(path))) % 360
    &&& e.mtime == mtime
    &&& e.source_item@ == (match text_in(side.url) {
        Some(u) => names::source_item_of(u),
        None => Seq::empty(),
    })
}

fn as_opt_str(s: &Option<String>) -> (r: Option<&str>)
    ensures
        sorting::opt_text(r) == text_in(*s),
{
    match s {
        Some(t) => Some(t.as_str()),
        None => None,
    }
}

fn make_entry(path: &str, mtime: u64, hd: Header, side: &Sidecars) -> (e: Entry)
    ensures
        is_entry(e, path@, mtime, hd, *side),
{
    let basename: String = names::basename_of(path);
    let size_bytes: u64 = match &side.filesize {
        Some(t) => match read_filesize_cache(t.as_str()) {
            Some(n) => n,
            None => hd.size_bytes,
        },
        None => hd.size_bytes,
    };
    let display_name: String = sorting::name_to_show(
        basename.as_str(),
        as_opt_str(&side.display_name),
    );
    let source_item: String = match &side.url {
        Some(u) => names::source_item(u.as_str()),
        None => {
            let e: String = String::new();
            assert(e@ =~= Seq::empty());
            e
        },
    };
    let hue: u32 = names::hue_from_basename(basename.as_str());
    Entry {
        path: path.to_owned(),
        basename,
        display_name,
        size_bytes,
        swf_version: hd.version,
        compression: hd.compression,
        is_as3: hd.is_as3,
        hue,
        mtime,
        source_item,
    }
}

/// The scan found a game. One without a header is left out; the others go to the
/// end of the list.
pub fn add_path(s: &mut State, h: &mut HeaderIndex, path: &str, mtime: u64, side: &Sidecars) -> (r:
    bool)
    ensures
        r == (header_of(old(h).rows@, path@, mtime, side.header) is Some),
        final(h).rows == old(h).rows,
        final(h).kept == old(h).kept,
        final(h).missed == (old(h).missed || kept_header(old(h).rows@, path@, mtime) is None),
        *final(s) == (State { entries: final(s).entries, ..*old(s) }),
        match header_of(old(h).rows@, path@, mtime, side.header) {
            Some(hd) => {
                &&& collected_one(old(h).collected@, final(h).collected@, path@, mtime, hd)
                &&& final(s).entries@.len() == old(s).entries@.len() + 1
                &&& final(s).entries@.drop_last() == old(s).entries@
                &&& is_entry(final(s).entries@.last(), path@, mtime, hd, *side)
            },
            None => final(h).collected == old(h).collected && final(s).entries == old(s).entries,
        },
{
    let hd: Header = match index_lookup(h, path, mtime) {
        Some(hit) => hit,
        None => {
            h.missed = true;
            match side.header {
                Some(hd) => hd,
                None => {
                    return false;
                },
            }
        },
    };
    scan_note_header(h, path, mtime, hd);
    let e: Entry = make_entry(path, mtime, hd, side);
    let ghost before = s.entries@;
    s.entries.push(e);
    assert(s.entries@.drop_last() =~= before);
    true
}

// ── Copies that are not needed ─────────────────────────────────────────────

/// A segment of a path that names something.
pub open spec fn names_something(seg: Seq<char>) -> bool {
    seg.len() > 0 && seg != "."@
}

/// The segments of a path that name something.
pub open spec fn real_segments(segs: Seq<Seq<char>>) -> Seq<Seq<char>>
    decreases segs.len(),
{
    if segs.len() == 0 {
        Seq::empty()
    } else if names_something(segs.last()) {
        real_segments(segs.drop_last()).push(segs.last())
    } else {
        real_segments(segs.drop_last())
    }
}

/// The part of an address behind its scheme and before its query.
pub open spec fn address_path(url: Seq<char>) -> Option<Seq<char>> {
    let u = text::trimmed(url);
    let rest = match parts::without_prefix(u, "http://"@) {
        Some(r) => Some(r),
        None => parts::without_prefix(u, "https://"@),
    };
    match rest {
        Some(r) => Some(parts::before_either(r, '?', '#')),
        None => None,
    }
}

/// The copy of a game's movie below its directory of linked files: `base` is what
/// stands beside the game of its address. An address that is not one of the web,
/// that names no file, or that would lead out of the directory has no copy.
pub open spec fn copy_of(files_root: Seq<char>, base: Seq<char>) -> Option<Seq<char>> {
    match address_path(base) {
        Some(p) => if p.len() == 0 || p.last() == '/' || parts::pieces(p, '/').contains(".."@) {
            None
        } else {
            Some(files_root + "/"@ + p)
        },
        None => None,
    }
}

/// The directories from that of `segs` up to the root.
pub open spec fn dirs_up(root: Seq<char>, segs: Seq<Seq<char>>) -> Seq<Seq<char>>
    decreases segs.len(),
{
    if segs.len() == 0 {
        seq![root]
    } else {
        seq![root + "/"@ + parts::joined(segs, "/"@)] + dirs_up(root, segs.drop_last())
    }
}

/// The directories that may be empty once the copy is gone, innermost first: none
/// of them is above the directory of linked files.
pub open spec fn emptied(files_root: Seq<char>, base: Seq<char>) -> Seq<Seq<char>> {
    match address_path(base) {
        Some(p) => {
            let segs = real_segments(parts::pieces(p, '/'));
            if segs.len() == 0 {
                Seq::empty()
            } else {
                dirs_up(files_root, segs.drop_last())
            }
        },
        None => Seq::empty(),
    }
}

fn keep_real(list: Vec<String>) -> (r: Vec<String>)
    ensures
        text::texts(r@) == real_segments(text::texts(list@)),
{
    let mut r: Vec<String> = Vec::new();
    let ghost all = text::texts(list@);
    let mut i: usize = 0;
    while i < list.len()
        invariant
            i <= list.len(),
            all == text::texts(list@),
            text::texts(r@) == real_segments(all.take(i as int)),
        decreases list.len() - i,
    {
        assert(all.take(i + 1).drop_last() =~= all.take(i as int));
        assert(all.take(i + 1).last() == list@[i as int]@);
        let seg: &str = list[i].as_str();
        let ghost before = r@;
        if list[i].unicode_len() > 0 && !text::str_eq(seg, ".") {
            let c: String = list[i].clone();
            r.push(c);
            assert(text::texts(r@) =~= text::texts(before).push(list@[i as int]@));
        }
        i = i + 1;
    }
    assert(all.take(i as int) =~= all);
    r
}

fn has_text(list: &Vec<String>, t: &str) -> (r: bool)
    ensures
        r == text::texts(list@).contains(t@),
{
    match state::place_of(list, t) {
        Some(i) => {
            assert(text::texts(list@)[i as int] == t@);
            true
        },
        None => {
            assert forall|k: int| 0 <= k < list@.len() implies text::texts(list@)[k] != t@ by {
                assert(list@[k]@ != t@);
            }
            false
        },
    }
}

/// What the tidying removes for one game: the copy of its movie, and then, as far
/// as they are empty, the directories above it, innermost first.
pub fn duplicate_entry(files_root: &str, base: &str) -> (r: Option<(String, Vec<String>)>)
    ensures
        match r {
            Some((copy, dirs)) => copy_of(files_root@, base@) == Some(copy@) && text::texts(dirs@)
                == emptied(files_root@, base@),
            None => copy_of(files_root@, base@) == None::<Seq<char>>,
        },
{
    let u: String = text::trim(base);
    let rest: String = match parts::strip_prefix(u.as_str(), "http://") {
        Some(r) => r,
        None => match parts::strip_prefix(u.as_str(), "https://") {
            Some(r) => r,
            None => {
                return None;
            },
        },
    };
    let p: String = parts::head_before(rest.as_str(), '?', '#');
    assert(address_path(base@) == Some(p@));
    let v: Vec<char> = text::chars_of(p.as_str());
    if v.len() == 0 || v[v.len() - 1] == '/' {
        return None;
    }
    let segs: Vec<String> = parts::split(p.as_str(), '/');
    if has_text(&segs, "..") {
        return None;
    }
    let copy: String = parts::concat3(files_root, "/", p.as_str());
    let mut solid: Vec<String> = keep_real(segs);
    let ghost names = real_segments(parts::pieces(p@, '/'));
    let mut dirs: Vec<String> = Vec::new();
    if solid.len() == 0 {
        assert(text::texts(dirs@) =~= emptied(files_root@, base@));
        return Some((copy, dirs));
    }
    solid.pop();
    let ghost mut left = names.drop_last();
    assert(text::texts(solid@) =~= left);
    assert(text::texts(dirs@) =~= Seq::empty());
    while solid.len() > 0
        invariant
            text::texts(solid@) == left,
            text::texts(dirs@) + dirs_up(files_root@, left) == dirs_up(
                files_root@,
                names.drop_last(),
            ),
        decreases solid.len(),
    {
        let path: String = parts::join(&solid, "/");
        let dir: String = parts::concat3(files_root, "/", path.as_str());
        let ghost before = dirs@;
        dirs.push(dir);
        proof {
            let tail = dirs_up(files_root@, left.drop_last());
            assert(dirs_up(files_root@, left) == seq![dir@] + tail);
            assert(text::texts(dirs@) =~= text::texts(before).push(dir@));
            assert(text::texts(before) + (seq![dir@] + tail) =~= text::texts(dirs@) + tail);
            left = left.drop_last();
        }
        solid.pop();
        assert(text::texts(solid@) =~= left);
    }
    let ghost before = dirs@;
    dirs.push(files_root.to_owned());
    assert(text::texts(dirs@) =~= text::texts(before) + seq![files_root@]);
    Some((copy, dirs))
}

/// The tidying stays below the directory of linked files.
pub proof fn tidying_stays_inside(files_root: Seq<char>, base: Seq<char>, i: int)
    requires
        0 <= i < emptied(files_root, base).len(),
    ensures
        text::starts(emptied(files_root, base)[i], files_root),
{
    match address_path(base) {
        Some(p) => {
            let segs = real_segments(parts::pieces(p, '/'));
            dirs_start(files_root, segs.drop_last(), i);
        },
        None => {},
    }
}

proof fn dirs_start(root: Seq<char>, segs: Seq<Seq<char>>, i: int)
    requires
        0 <= i < dirs_up(root, segs).len(),
    ensures
        text::starts(dirs_up(root, segs)[i], root),
    decreases segs.len(),
{
    if segs.len() == 0 {
        assert(root.subrange(0, root.len() as int) =~= root);
    } else {
        let head = root + "/"@ + parts::joined(segs, "/"@);
        if i == 0 {
            assert(head.subrange(0, root.len() as int) =~= root);
            assert(dirs_up(root, segs)[0] == head);
        } else {
            assert(dirs_up(root, segs)[i] == dirs_up(root, segs.drop_last())[i - 1]);
            dirs_start(root, segs.drop_last(), i - 1);
        }
    }
}

} // verus!
