//! How long and when each game was played last, by file name.

use crate::json;
use crate::json::Json;
use crate::library::order;
use crate::text;
use vstd::prelude::*;

verus! {

/// Seconds played and the time of the last session, per file name.
pub struct Playtime {
    pub rows: Vec<(String, u64, u64)>,
}

/// One game's row.
pub type Row = (Seq<char>, u64, u64);

impl View for Playtime {
    type V = Seq<Row>;

    open spec fn view(&self) -> Seq<Row> {
        Seq::new(self.rows@.len(), |i: int| (self.rows@[i].0@, self.rows@[i].1, self.rows@[i].2))
    }
}

/// The seconds and the last time of the first row of `name`.
pub open spec fn lookup(rows: Seq<Row>, name: Seq<char>) -> Option<(u64, u64)>
    decreases rows.len(),
{
    if rows.len() == 0 {
        None
    } else if rows[0].0 == name {
        Some((rows[0].1, rows[0].2))
    } else {
        lookup(rows.drop_first(), name)
    }
}

/// The seconds that `name` was played.
pub open spec fn seconds(rows: Seq<Row>, name: Seq<char>) -> u64 {
    match lookup(rows, name) {
        Some((s, _)) => s,
        None => 0,
    }
}

/// When `name` was played last.
pub open spec fn last(rows: Seq<Row>, name: Seq<char>) -> u64 {
    match lookup(rows, name) {
        Some((_, l)) => l,
        None => 0,
    }
}

/// No game has two rows.
pub open spec fn distinct(rows: Seq<Row>) -> bool {
    forall|i: int, j: int| 0 <= i < j < rows.len() ==> (#[trigger] rows[i]).0 != (#[trigger] rows[j]).0
}

/// The seconds and the time after another session.
pub open spec fn after_session(old: Option<(u64, u64)>, secs: u64, now: u64) -> (u64, u64) {
    match old {
        Some((s, _)) => (
            if s + secs > u64::MAX {
                u64::MAX
            } else {
                (s + secs) as u64
            },
            now,
        ),
        None => (secs, now),
    }
}

proof fn lookup_is(rows: Seq<Row>, name: Seq<char>, i: int)
    requires
        0 <= i < rows.len(),
        rows[i].0 == name,
        forall|j: int| 0 <= j < i ==> (#[trigger] rows[j]).0 != name,
    ensures
        lookup(rows, name) == Some((rows[i].1, rows[i].2)),
    decreases i,
{
    if i > 0 {
        let t = rows.drop_first();
        assert(t[i - 1] == rows[i]);
        assert forall|j: int| 0 <= j < i - 1 implies (#[trigger] t[j]).0 != name by {
            assert(t[j] == rows[j + 1]);
        }
        assert(rows[0].0 != name);
        lookup_is(t, name, i - 1);
    }
}

proof fn lookup_none(rows: Seq<Row>, name: Seq<char>)
    requires
        forall|j: int| 0 <= j < rows.len() ==> (#[trigger] rows[j]).0 != name,
    ensures
        lookup(rows, name) == None::<(u64, u64)>,
    decreases rows.len(),
{
    if rows.len() > 0 {
        let t = rows.drop_first();
        assert forall|j: int| 0 <= j < t.len() implies (#[trigger] t[j]).0 != name by {
            assert(t[j] == rows[j + 1]);
        }
        assert(rows[0].0 != name);
        lookup_none(t, name);
    }
}

/// A row of a distinct table is the one that is found.
proof fn lookup_row(rows: Seq<Row>, i: int)
    requires
        distinct(rows),
        0 <= i < rows.len(),
    ensures
        lookup(rows, rows[i].0) == Some((rows[i].1, rows[i].2)),
{
    lookup_is(rows, rows[i].0, i);
}

/// Where a name is found, a row has it.
proof fn lookup_some(rows: Seq<Row>, name: Seq<char>) -> (i: int)
    requires
        lookup(rows, name) is Some,
    ensures
        0 <= i < rows.len(),
        rows[i].0 == name,
        lookup(rows, name) == Some((rows[i].1, rows[i].2)),
    decreases rows.len(),
{
    if rows[0].0 == name {
        0
    } else {
        let k = lookup_some(rows.drop_first(), name);
        k + 1
    }
}

impl Playtime {
    /// The table before anything was played.
    pub fn new() -> (r: Playtime)
        ensures
            r@ == Seq::<Row>::empty(),
    {
        let r: Playtime = Playtime { rows: Vec::new() };
        assert(r@ =~= Seq::<Row>::empty());
        r
    }

    fn position(&self, name: &str) -> (r: Option<usize>)
        ensures
            match r {
                Some(i) => i < self@.len() && self@[i as int].0 == name@ && lookup(self@, name@)
                    == Some((self@[i as int].1, self@[i as int].2)) && forall|j: int|
                    0 <= j < i ==> (#[trigger] self@[j]).0 != name@,
                None => lookup(self@, name@) == None::<(u64, u64)> && forall|j: int|
                    0 <= j < self@.len() ==> (#[trigger] self@[j]).0 != name@,
            },
    {
        let mut i: usize = 0;
        while i < self.rows.len()
            invariant
                i <= self.rows.len(),
                forall|j: int| 0 <= j < i ==> (#[trigger] self@[j]).0 != name@,
            decreases self.rows.len() - i,
        {
            if text::str_eq(self.rows[i].0.as_str(), name) {
                proof {
                    lookup_is(self@, name@, i as int);
                }
                return Some(i);
            }
            i = i + 1;
        }
        proof {
            lookup_none(self@, name@);
        }
        None
    }
}

/// The seconds that `basename` was played; 0 if never.
pub fn get(pt: &Playtime, basename: &str) -> (r: u64)
    ensures
        r == seconds(pt@, basename@),
{
    match pt.position(basename) {
        Some(i) => pt.rows[i].1,
        None => 0,
    }
}

/// When `basename` was played last; 0 if never.
pub fn get_last(pt: &Playtime, basename: &str) -> (r: u64)
    ensures
        r == last(pt@, basename@),
{
    match pt.position(basename) {
        Some(i) => pt.rows[i].2,
        None => 0,
    }
}

/// What counting a session does to a table: it changes the row of the game alone, and
/// nothing where the game has no name.
pub open spec fn session_counted(
    pre: Seq<Row>,
    name: Seq<char>,
    secs: u64,
    now: u64,
    post: Seq<Row>,
) -> bool {
    &&& name.len() == 0 ==> post == pre
    &&& name.len() > 0 ==> lookup(post, name) == Some(
        after_session(lookup(pre, name), secs, now),
    )
    &&& forall|other: Seq<char>|
        other != name ==> #[trigger] lookup(post, other) == lookup(pre, other)
    &&& distinct(pre) ==> distinct(post)
}

/// Counts a session of `secs` seconds that ended at `now`; a session of no
/// length still sets the time. A nameless game is not counted.
pub fn add(pt: &mut Playtime, basename: &str, secs: u64, now: u64)
    ensures
        session_counted(old(pt)@, basename@, secs, now, final(pt)@),
{
    let ghost before = pt@;
    let v: Vec<char> = text::chars_of(basename);
    if v.len() == 0 {
        return;
    }
    match pt.position(basename) {
        Some(i) => {
            let (k, s, _) = pt.rows.remove(i);
            let total: u64 = if s > u64::MAX - secs {
                u64::MAX
            } else {
                s + secs
            };
            pt.rows.insert(i, (k, total, now));
            proof {
                let row = (basename@, total, now);
                assert(pt@ =~= before.update(i as int, row));
                lookup_is(pt@, basename@, i as int);
                assert forall|other: Seq<char>| other != basename@ implies #[trigger] lookup(
                    pt@,
                    other,
                ) == lookup(before, other) by {
                    lookup_update(before, i as int, row, other);
                }
                assert forall|a: int, b: int| distinct(before) && 0 <= a < b < pt@.len() implies (
                #[trigger] pt@[a]).0 != (#[trigger] pt@[b]).0 by {
                    assert(before[a].0 == pt@[a].0 && before[b].0 == pt@[b].0);
                }
            }
        },
        None => {
            let name: String = basename.to_owned();
            pt.rows.push((name, secs, now));
            proof {
                let row = (basename@, secs, now);
                assert(pt@ =~= before.push(row));
                lookup_is(pt@, basename@, before.len() as int);
                assert forall|other: Seq<char>| other != basename@ implies #[trigger] lookup(
                    pt@,
                    other,
                ) == lookup(before, other) by {
                    lookup_push(before, row, other);
                }
            }
        },
    }
}

proof fn lookup_update(rows: Seq<Row>, i: int, row: Row, name: Seq<char>)
    requires
        0 <= i < rows.len(),
        rows[i].0 == row.0,
        row.0 != name,
    ensures
        lookup(rows.update(i, row), name) == lookup(rows, name),
    decreases rows.len(),
{
    let u = rows.update(i, row);
    if i == 0 {
        assert(u.drop_first() =~= rows.drop_first());
    } else {
        assert(u.drop_first() =~= rows.drop_first().update(i - 1, row));
        lookup_update(rows.drop_first(), i - 1, row, name);
    }
}

proof fn lookup_push(rows: Seq<Row>, row: Row, name: Seq<char>)
    requires
        row.0 != name,
    ensures
        lookup(rows.push(row), name) == lookup(rows, name),
    decreases rows.len(),
{
    let u = rows.push(row);
    if rows.len() > 0 {
        assert(u.drop_first() =~= rows.drop_first().push(row));
        lookup_push(rows.drop_first(), row, name);
    } else {
        assert(u.drop_first() =~= Seq::<Row>::empty());
        assert(lookup(u.drop_first(), name) == None::<(u64, u64)>);
    }
}

// ── The file ───────────────────────────────────────────────────────────────

/// What a field of the file says: `{"s": seconds, "l": last}`, or the seconds
/// alone; a missing number counts as 0.
pub open spec fn row_in(t: json::Tree) -> Option<(u64, u64)> {
    match t {
        json::Tree::Object(_) => Some(
            (
                match json::number(json::field(t, "s"@)) {
                    Some(n) => n,
                    None => 0,
                },
                match json::number(json::field(t, "l"@)) {
                    Some(n) => n,
                    None => 0,
                },
            ),
        ),
        json::Tree::Number(Some(n)) => Some((n, 0)),
        _ => None,
    }
}

/// The rows of a file, in its order.
pub open spec fn rows_in(f: Seq<(Seq<char>, json::Tree)>) -> Seq<Row>
    decreases f.len(),
{
    if f.len() == 0 {
        Seq::empty()
    } else {
        match row_in(f.last().1) {
            Some((s, l)) => rows_in(f.drop_last()).push((f.last().0, s, l)),
            None => rows_in(f.drop_last()),
        }
    }
}

/// The table after a file was read: that of the file, where it is an object.
pub open spec fn loaded(before: Seq<Row>, bytes: Seq<u8>) -> Seq<Row> {
    match json::parsed_json(bytes) {
        Ok(json::Tree::Object(f)) => rows_in(f),
        _ => before,
    }
}

fn or_zero(n: Option<u64>) -> (r: u64)
    ensures
        r == (match n {
            Some(x) => x,
            None => 0,
        }),
{
    match n {
        Some(x) => x,
        None => 0,
    }
}

/// A file whose keys ascend gives each game one row.
proof fn ascending_rows_are_distinct(f: Seq<(Seq<char>, json::Tree)>)
    requires
        json::keys_ascend(f),
    ensures
        distinct(rows_in(f)),
        forall|k: int|
            0 <= k < rows_in(f).len() ==> exists|i: int|
                0 <= i < f.len() && (#[trigger] f[i]).0 == (#[trigger] rows_in(f)[k]).0,
    decreases f.len(),
{
    if f.len() > 0 {
        let g = f.drop_last();
        assert forall|i: int, j: int| 0 <= i < j < g.len() implies order::text_before(
            (#[trigger] g[i]).0,
            (#[trigger] g[j]).0,
        ) by {
            assert(g[i] == f[i] && g[j] == f[j]);
        }
        ascending_rows_are_distinct(g);
        let (before, after) = (rows_in(g), rows_in(f));
        let n = f.len() - 1;
        assert forall|k: int| 0 <= k < before.len() implies (#[trigger] before[k]).0 != f[n].0
            && exists|i: int| 0 <= i < f.len() && (#[trigger] f[i]).0 == before[k].0 by {
            let i = choose|i: int| 0 <= i < g.len() && (#[trigger] g[i]).0 == before[k].0;
            assert(g[i] == f[i]);
            assert(order::text_before(f[i].0, f[n].0));
            order::before_is_strict(f[n].0);
        }
        assert forall|k: int| 0 <= k < after.len() implies exists|i: int|
            0 <= i < f.len() && (#[trigger] f[i]).0 == (#[trigger] after[k]).0 by {
            if k < before.len() {
                assert(after[k] == before[k]);
            } else {
                assert(f[n].0 == after[k].0);
            }
        }
        assert forall|a: int, b: int| 0 <= a < b < after.len() implies (#[trigger] after[a]).0 != (
        #[trigger] after[b]).0 by {
            assert(after[a] == before[a]);
            if b < before.len() {
                assert(after[b] == before[b]);
            }
        }
    }
}

/// Takes up the file; a file that is no JSON object changes nothing. Each game of a
/// file has one row.
pub fn load(pt: &mut Playtime, bytes: &[u8])
    ensures
        final(pt)@ == loaded(old(pt)@, bytes@),
        json::parsed_json(bytes@) matches Ok(json::Tree::Object(_)) ==> distinct(final(pt)@),
        distinct(old(pt)@) ==> distinct(final(pt)@),
{
    let parsed: Result<Json, String> = json::parse_json(bytes);
    if let Ok(Json::Object(v)) = &parsed {
        let ghost f = json::fields(v@);
        proof {
            json::fields_index(v@);
        }
        let mut rows: Vec<(String, u64, u64)> = Vec::new();
        let mut i: usize = 0;
        let ghost mut view: Seq<Row> = Seq::empty();
        assert(f.take(0) =~= Seq::empty());
        while i < v.len()
            invariant
                i <= v.len(),
                f == json::fields(v@),
                f.len() == v.len(),
                forall|k: int|
                    0 <= k < v.len() ==> #[trigger] f[k] == (v@[k].0@, json::tree(v@[k].1)),
                view == rows_in(f.take(i as int)),
                view == (Playtime { rows: rows })@,
            decreases v.len() - i,
        {
            assert(f.take(i + 1).drop_last() =~= f.take(i as int));
            assert(f.take(i + 1).last() == f[i as int]);
            let name: String = v[i].0.clone();
            match &v[i].1 {
                Json::Object(_) => {
                    let s: u64 = or_zero(json::as_number(v[i].1.get("s")));
                    let l: u64 = or_zero(json::as_number(v[i].1.get("l")));
                    rows.push((name, s, l));
                    proof {
                        view = view.push((name@, s, l));
                        assert((Playtime { rows: rows })@ =~= view);
                    }
                },
                Json::Number(Some(n)) => {
                    rows.push((name, *n, 0));
                    proof {
                        view = view.push((name@, *n, 0));
                        assert((Playtime { rows: rows })@ =~= view);
                    }
                },
                _ => {},
            }
            i = i + 1;
        }
        assert(f.take(i as int) =~= f);
        pt.rows = rows;
        proof {
            ascending_rows_are_distinct(f);
        }
    }
}

/// The tree of one row.
pub open spec fn row_tree(s: u64, l: u64) -> json::Tree {
    json::Tree::Object(
        seq![
            ("l"@, json::Tree::Number(Some(l))),
            ("s"@, json::Tree::Number(Some(s))),
        ],
    )
}

/// The field of a game.
pub open spec fn field_of(row: Row) -> (Seq<char>, json::Tree) {
    (row.0, row_tree(row.1, row.2))
}

/// A field is that of one of the games.
pub open spec fn is_row(rows: Seq<Row>, x: (Seq<char>, json::Tree)) -> bool {
    exists|k: int| 0 <= k < rows.len() && field_of(#[trigger] rows[k]) == x
}

/// A game has its field.
pub open spec fn has_field(f: Seq<(Seq<char>, json::Tree)>, row: Row) -> bool {
    exists|i: int| 0 <= i < f.len() && #[trigger] f[i] == field_of(row)
}

/// `t` is the table of `rows`: an object with one field per game, in the order
/// of the names.
pub open spec fn is_table(rows: Seq<Row>, t: json::Tree) -> bool {
    match t {
        json::Tree::Object(f) => {
            &&& json::number_table(t)
            &&& forall|i: int| 0 <= i < f.len() ==> is_row(rows, #[trigger] f[i])
            &&& forall|k: int| 0 <= k < rows.len() ==> has_field(f, #[trigger] rows[k])
        },
        _ => false,
    }
}

fn json_row(s: u64, l: u64) -> (r: Json)
    ensures
        json::tree(r) == row_tree(s, l),
{
    let mut v: Vec<(String, Json)> = Vec::new();
    v.push(("l".to_owned(), Json::Number(Some(l))));
    v.push(("s".to_owned(), Json::Number(Some(s))));
    proof {
        json::fields_index(v@);
        assert(json::fields(v@) =~= row_tree(s, l)->Object_0);
    }
    Json::Object(v)
}

spec fn name_keys(rows: Seq<Row>) -> Seq<order::KeyView> {
    Seq::new(rows.len(), |i: int| order::text_key(rows[i].0))
}

spec fn no_pins(n: nat) -> Seq<bool> {
    Seq::new(n, |i: int| false)
}

proof fn names_ascend(rows: Seq<Row>, o: Seq<usize>, a: int, b: int)
    requires
        distinct(rows),
        order::is_order(name_keys(rows), false, no_pins(rows.len()), o),
        0 <= a < b < rows.len(),
    ensures
        order::text_before(rows[o[a] as int].0, rows[o[b] as int].0),
{
    let (x, y) = (o[a] as int, o[b] as int);
    let kv = name_keys(rows);
    assert(order::row_before(kv, false, no_pins(rows.len()), x, y));
    assert(kv[x] == order::text_key(rows[x].0) && kv[y] == order::text_key(rows[y].0));
    assert(o[a] != o[b]);
    assert(rows[x].0 != rows[y].0) by {
        if x < y {
            assert(rows[x].0 != rows[y].0);
        } else {
            assert(rows[y].0 != rows[x].0);
        }
    }
    if kv[x] == kv[y] {
        assert(kv[x].first == kv[y].first);
    }
}

proof fn rows_make_table(rows: Seq<Row>, o: Seq<usize>, f: Seq<(Seq<char>, json::Tree)>)
    requires
        distinct(rows),
        order::is_order(name_keys(rows), false, no_pins(rows.len()), o),
        f.len() == rows.len(),
        forall|k: int| 0 <= k < f.len() ==> #[trigger] f[k] == field_of(rows[o[k] as int]),
    ensures
        is_table(rows, json::Tree::Object(f)),
{
    let t = json::Tree::Object(f);
    assert forall|a: int, b: int| 0 <= a < b < f.len() implies order::text_before(
        (#[trigger] f[a]).0,
        (#[trigger] f[b]).0,
    ) by {
        names_ascend(rows, o, a, b);
    }
    letters();
    assert(json::number_table(t));
    assert forall|i: int| 0 <= i < f.len() implies is_row(rows, #[trigger] f[i]) by {
        assert(field_of(rows[o[i] as int]) == f[i]);
    }
    assert forall|k: int| 0 <= k < rows.len() implies has_field(f, #[trigger] rows[k]) by {
        order::permutation_covers(o, rows.len() as int, k);
        let i = choose|i: int| 0 <= i < rows.len() && o[i] == k;
        assert(f[i] == field_of(rows[k]));
    }
}

fn rows_by_name(pt: &Playtime) -> (o: Vec<usize>)
    ensures
        order::is_order(name_keys(pt@), false, no_pins(pt@.len()), o@),
{
    let n: usize = pt.rows.len();
    let mut keys: Vec<order::Key> = Vec::new();
    let mut pinned: Vec<bool> = Vec::new();
    let mut i: usize = 0;
    while i < n
        invariant
            i <= n,
            n == pt.rows.len(),
            keys.len() == i,
            pinned.len() == i,
            forall|k: int| 0 <= k < i ==> (#[trigger] keys@[k])@ == order::text_key(pt@[k].0),
            forall|k: int| 0 <= k < i ==> !(#[trigger] pinned@[k]),
        decreases n - i,
    {
        let key: order::Key = order::Key {
            num: 0,
            num2: 0,
            first: text::chars_of(pt.rows[i].0.as_str()),
            second: Vec::new(),
        };
        assert(key@ =~= order::text_key(pt@[i as int].0));
        keys.push(key);
        pinned.push(false);
        i = i + 1;
    }
    assert(order::key_views(keys@) =~= name_keys(pt@));
    assert(pinned@ =~= no_pins(pt@.len()));
    order::sorted_rows(&keys, false, &pinned)
}

fn document(pt: &Playtime) -> (r: Json)
    ensures
        distinct(pt@) ==> is_table(pt@, json::tree(r)),
{
    let n: usize = pt.rows.len();
    let rows: Vec<usize> = rows_by_name(pt);
    let mut v: Vec<(String, Json)> = Vec::new();
    let mut j: usize = 0;
    while j < n
        invariant
            j <= n,
            n == pt.rows.len(),
            rows.len() == n,
            order::is_permutation(rows@, n as int),
            v.len() == j,
            forall|k: int|
                0 <= k < j ==> (#[trigger] v@[k]).0@ == pt@[rows@[k] as int].0 && json::tree(
                    v@[k].1,
                ) == row_tree(pt@[rows@[k] as int].1, pt@[rows@[k] as int].2),
        decreases n - j,
    {
        let at: usize = rows[j];
        let name: String = pt.rows[at].0.clone();
        let row: Json = json_row(pt.rows[at].1, pt.rows[at].2);
        v.push((name, row));
        j = j + 1;
    }
    let doc: Json = Json::Object(v);
    proof {
        json::fields_index(v@);
        let f = json::fields(v@);
        if distinct(pt@) {
            assert forall|k: int| 0 <= k < f.len() implies #[trigger] f[k] == field_of(
                pt@[rows@[k] as int],
            ) by {
                assert(v@[k].0@ == pt@[rows@[k] as int].0);
            }
            rows_make_table(pt@, rows@, f);
        }
    }
    doc
}

/// The file for the table, in the order of the names. What it reads back as is
/// said where no game has two rows: that holds of a new table, and `load` and `add`
/// keep it.
pub fn save(pt: &Playtime) -> (r: Option<String>)
    ensures
        r is Some,
        r matches Some(s) ==> distinct(pt@) ==> exists|t: json::Tree|
            is_table(pt@, t) && #[trigger] json::parsed_json(vstd::utf8::encode_utf8(s@)) == Ok::<
                json::Tree,
                Seq<char>,
            >(t),
{
    let doc: Json = document(pt);
    json::write_pretty(&doc)
}

proof fn letters()
    ensures
        order::text_before("l"@, "s"@),
        "l"@ != "s"@,
{
    reveal_strlit("l");
    reveal_strlit("s");
    assert("l"@[0] == 'l' && "s"@[0] == 's');
}

proof fn table_row_reads_back(s: u64, l: u64)
    ensures
        row_in(row_tree(s, l)) == Some((s, l)),
{
    letters();
    let f = row_tree(s, l)->Object_0;
    assert(f[0].0 == "l"@ && f[1].0 == "s"@);
    assert(f.drop_first()[0] == f[1]);
    reveal_with_fuel(json::field_in, 3);
}

/// The rows that a file of a table holds are those of the table.
proof fn rows_of_table(rows: Seq<Row>, f: Seq<(Seq<char>, json::Tree)>)
    requires
        forall|i: int| 0 <= i < f.len() ==> is_row(rows, #[trigger] f[i]),
    ensures
        rows_in(f).len() == f.len(),
        forall|i: int|
            0 <= i < f.len() ==> (#[trigger] rows_in(f)[i]).0 == f[i].0 && f[i].1 == row_tree(
                rows_in(f)[i].1,
                rows_in(f)[i].2,
            ),
    decreases f.len(),
{
    if f.len() > 0 {
        let g = f.drop_last();
        assert forall|i: int| 0 <= i < g.len() implies is_row(rows, #[trigger] g[i]) by {
            assert(g[i] == f[i]);
        }
        rows_of_table(rows, g);
        let i = f.len() - 1;
        assert(is_row(rows, f[i]));
        let k = choose|k: int| 0 <= k < rows.len() && field_of(#[trigger] rows[k]) == f[i];
        table_row_reads_back(rows[k].1, rows[k].2);
        assert(rows_in(f) == rows_in(g).push((f[i].0, rows[k].1, rows[k].2)));
    }
}

/// What is saved is read again: after the file of a table is loaded, every game
/// has the seconds and the time that it had, in one row.
pub proof fn save_then_load(rows: Seq<Row>, before: Seq<Row>, t: json::Tree, bytes: Seq<u8>)
    requires
        distinct(rows),
        is_table(rows, t),
        json::parsed_json(bytes) == Ok::<json::Tree, Seq<char>>(t),
    ensures
        forall|name: Seq<char>|
            #[trigger] lookup(loaded(before, bytes), name) == lookup(rows, name),
        distinct(loaded(before, bytes)),
{
    let f = t->Object_0;
    let again = loaded(before, bytes);
    assert(again == rows_in(f));
    rows_of_table(rows, f);
    assert(distinct(again)) by {
        assert forall|i: int, j: int| 0 <= i < j < again.len() implies (#[trigger] again[i]).0 != (
        #[trigger] again[j]).0 by {
            assert(order::text_before(f[i].0, f[j].0));
            if f[i].0 == f[j].0 {
                order::before_is_strict(f[i].0);
            }
        }
    }
    assert forall|name: Seq<char>| #[trigger] lookup(again, name) == lookup(rows, name) by {
        if lookup(rows, name) is Some {
            let k = lookup_some(rows, name);
            assert(has_field(f, rows[k]));
            let i = choose|i: int| 0 <= i < f.len() && #[trigger] f[i] == field_of(rows[k]);
            assert(again[i].0 == name);
            tree_decides(again[i].1, again[i].2, rows[k].1, rows[k].2);
            lookup_row(again, i);
        } else if lookup(again, name) is Some {
            let i = lookup_some(again, name);
            assert(is_row(rows, f[i]));
            let k = choose|k: int| 0 <= k < rows.len() && field_of(#[trigger] rows[k]) == f[i];
            lookup_row(rows, k);
        }
    }
}

proof fn tree_decides(s: u64, l: u64, s2: u64, l2: u64)
    requires
        row_tree(s, l) == row_tree(s2, l2),
    ensures
        s == s2 && l == l2,
{
    table_row_reads_back(s, l);
    table_row_reads_back(s2, l2);
}

} // verus!
