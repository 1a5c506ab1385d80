//! What stands on the card, and what the list of games makes of it.

use crate::laws;
use crate::laws::names as addresses;
use crate::library::download;
use crate::library::index;
use crate::library::index::{HeaderRow, Sidecars};
use crate::library::names;
use crate::library::state;
use crate::library::state::{Entry, Header};
use crate::parts;
use crate::text;
use vstd::prelude::*;

verus! {

// ── Games ──────────────────────────────────────────────────────────────────

/// A game has the name of its file, and is shown under the name that it was given,
/// where one was; what its header says of it stays.
pub proof fn a_scanned_game_has_its_names(
    e: Entry,
    dir: Seq<char>,
    name: Seq<char>,
    mtime: u64,
    hd: Header,
    side: Sidecars,
)
    requires
        index::is_entry(e, dir + seq!['/'] + name, mtime, hd, side),
        addresses::without(name, '/'),
        addresses::without(name, '\\'),
    ensures
        e.path@ == dir + seq!['/'] + name,
        e.basename@ == name,
        side.display_name is None ==> e.display_name@ == name,
        side.display_name matches Some(t) ==> (text::trimmed(t@).len() > 0 ==> e.display_name@
            == t@) && (text::trimmed(t@).len() == 0 ==> e.display_name@ == name),
        e.swf_version == hd.version && e.compression == hd.compression && e.is_as3 == hd.is_as3,
        e.mtime == mtime,
        side.filesize is None ==> e.size_bytes == hd.size_bytes,
        side.url is None ==> e.source_item@.len() == 0,
        e.hue < 360,
{
    addresses::a_path_has_a_directory_and_a_name(dir, name);
}

/// A game that came from the address of an item counts for that item, whatever the
/// case of its id.
pub proof fn a_game_counts_for_its_item(head: Seq<char>, id: Seq<char>, tail: Seq<char>)
    requires
        laws::found_in(head, "archive.org"@),
        forall|i: int|
            0 <= i < parts::pieces(head, '/').len() ==> #[trigger] parts::pieces(head, '/')[i]
                != "details"@ && parts::pieces(head, '/')[i] != "download"@,
        id.len() > 0,
        addresses::without(id, '/'),
        addresses::begins_with(tail, '/'),
        addresses::tight(head + seq!['/'] + "download"@ + seq!['/'] + id + tail),
    ensures
        names::source_item_of(head + seq!['/'] + "download"@ + seq!['/'] + id + tail)
            == text::lowercase(id),
{
    let url = head + seq!['/'] + "download"@ + seq!['/'] + id + tail;
    addresses::an_address_names_its_item(head, true, id, tail);
    text::trimmed_twice(url);
    let q = "archive.org"@;
    laws::lists::occurrence(head, q);
    let i = choose|i: int| text::occurs_at(head, q, i);
    assert(url.subrange(i, i + q.len()) =~= head.subrange(i, i + q.len()));
    assert(text::occurs_at(url, q, i));
    addresses::tight_is_trimmed(url);
}

/// A header that was kept counts only for the same file of the same time: a file that
/// was changed, or whose time is not known, is read again.
pub proof fn a_changed_file_is_read_again(rows: Seq<HeaderRow>, path: Seq<char>, mtime: u64)
    ensures
        index::kept_header(rows, path, mtime) matches Some(h) ==> exists|i: int|
            {
                &&& 0 <= i < rows.len()
                &&& (#[trigger] rows[i]).path@ == path
                &&& rows[i].mtime == mtime
                &&& mtime > 0
                &&& h.size_bytes == rows[i].size && h.version == rows[i].ver && h.is_as3
                    == rows[i].as3
                &&& rows[i].comp@ == state::signature(h.compression)
            },
        (forall|i: int|
            0 <= i < rows.len() ==> (#[trigger] rows[i]).path@ != path || rows[i].mtime != mtime)
            ==> index::kept_header(rows, path, mtime) is None,
{
    reveal_strlit("FWS");
    reveal_strlit("CWS");
    reveal_strlit("ZWS");
    kept_row(rows, path, mtime, 0);
}

proof fn kept_row(rows: Seq<HeaderRow>, path: Seq<char>, mtime: u64, from: int)
    requires
        0 <= from <= rows.len(),
    ensures
        index::row_of(rows, path, mtime, from) matches Some(r) ==> exists|i: int|
            from <= i < rows.len() && #[trigger] rows[i] == r && r.path@ == path && r.mtime
                == mtime,
    decreases rows.len() - from,
{
    if from < rows.len() {
        if rows[from].path@ == path && rows[from].mtime == mtime {
            assert(rows[from] == rows[from]);
        } else {
            kept_row(rows, path, mtime, from + 1);
        }
    }
}

// ── Linked files ───────────────────────────────────────────────────────────

/// The characters are the same but for the case of a letter.
pub open spec fn alike(c: char, d: char) -> bool {
    ||| c == d
    ||| 'A' <= c <= 'Z' && d as int == c as int + 32
    ||| 'A' <= d <= 'Z' && c as int == d as int + 32
}

/// The names are the same but for the case of their letters.
pub open spec fn same_but_case(a: Seq<char>, b: Seq<char>) -> bool {
    a.len() == b.len() && forall|i: int| 0 <= i < a.len() ==> alike(#[trigger] a[i], b[i])
}

proof fn low_alike(c: char, d: char)
    ensures
        (text::ascii_low(c) == text::ascii_low(d)) == alike(c, d),
{
}

proof fn lower_alike(a: Seq<char>, b: Seq<char>)
    ensures
        (text::ascii_lower(a) == text::ascii_lower(b)) == same_but_case(a, b),
{
    let (x, y) = (text::ascii_lower(a), text::ascii_lower(b));
    if x == y {
        assert(x.len() == y.len());
        assert forall|i: int| 0 <= i < a.len() implies alike(#[trigger] a[i], b[i]) by {
            assert(x[i] == y[i]);
            low_alike(a[i], b[i]);
        }
    }
    if same_but_case(a, b) {
        assert forall|i: int| 0 <= i < a.len() implies x[i] == y[i] by {
            low_alike(a[i], b[i]);
        }
        assert(x =~= y);
    }
}

/// A file that a game asks for is found among those of the item whatever the case of
/// its letters, and is not found only where there is none.
pub proof fn a_linked_file_is_found_in_any_case(files: Seq<Seq<char>>, name: Seq<char>)
    ensures
        match download::spelled(files, name, 0) {
            Some(i) => 0 <= i < files.len() && same_but_case(files[i], name),
            None => forall|k: int| 0 <= k < files.len() ==> !same_but_case(#[trigger] files[k], name),
        },
{
    spelled_from(files, name, 0);
}

proof fn spelled_from(files: Seq<Seq<char>>, name: Seq<char>, from: int)
    requires
        0 <= from <= files.len(),
    ensures
        match download::spelled(files, name, from) {
            Some(i) => from <= i < files.len() && same_but_case(files[i], name),
            None => forall|k: int|
                from <= k < files.len() ==> !same_but_case(#[trigger] files[k], name),
        },
    decreases files.len() - from,
{
    if from < files.len() {
        lower_alike(files[from], name);
        spelled_from(files, name, from + 1);
    }
}

} // verus!
