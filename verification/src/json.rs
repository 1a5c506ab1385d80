//! JSON documents as plain trees, read and written by `serde_json`.

use crate::text;
use vstd::prelude::*;

verus! {

/// A JSON document. A number is kept where it is an unsigned integer.
pub enum Json {
    Null,
    Bool(bool),
    Number(Option<u64>),
    Text(String),
    Array(Vec<Json>),
    Object(Vec<(String, Json)>),
}

/// The mathematical value of a JSON document.
pub enum Tree {
    Null,
    Bool(bool),
    Number(Option<u64>),
    Text(Seq<char>),
    Array(Seq<Tree>),
    Object(Seq<(Seq<char>, Tree)>),
}

/// The value of a document.
pub open spec fn tree(j: Json) -> Tree
    decreases j,
{
    match j {
        Json::Null => Tree::Null,
        Json::Bool(b) => Tree::Bool(b),
        Json::Number(n) => Tree::Number(n),
        Json::Text(s) => Tree::Text(s@),
        Json::Array(v) => Tree::Array(trees(v@)),
        Json::Object(v) => Tree::Object(fields(v@)),
    }
}

/// The values of the items of an array.
pub open spec fn trees(v: Seq<Json>) -> Seq<Tree>
    decreases v,
{
    if v.len() == 0 {
        Seq::empty()
    } else {
        trees(v.drop_last()).push(tree(v.last()))
    }
}

/// The keys and values of the fields of an object.
pub open spec fn fields(v: Seq<(String, Json)>) -> Seq<(Seq<char>, Tree)>
    decreases v,
{
    if v.len() == 0 {
        Seq::empty()
    } else {
        fields(v.drop_last()).push((v.last().0@, tree(v.last().1)))
    }
}

/// An array's value, item by item.
pub proof fn trees_index(v: Seq<Json>)
    ensures
        trees(v).len() == v.len(),
        forall|i: int| 0 <= i < v.len() ==> #[trigger] trees(v)[i] == tree(v[i]),
    decreases v.len(),
{
    if v.len() > 0 {
        trees_index(v.drop_last());
    }
}

/// An object's value, field by field.
pub proof fn fields_index(v: Seq<(String, Json)>)
    ensures
        fields(v).len() == v.len(),
        forall|i: int| 0 <= i < v.len() ==> #[trigger] fields(v)[i] == (v[i].0@, tree(v[i].1)),
    decreases v.len(),
{
    if v.len() > 0 {
        fields_index(v.drop_last());
    }
}

// ── Reading a tree ─────────────────────────────────────────────────────────

/// The value of the field `key` of an object, the first where it stands twice.
pub open spec fn field_in(f: Seq<(Seq<char>, Tree)>, key: Seq<char>) -> Option<Tree>
    decreases f.len(),
{
    if f.len() == 0 {
        None
    } else if f[0].0 == key {
        Some(f[0].1)
    } else {
        field_in(f.drop_first(), key)
    }
}

/// The value of the field `key`, where the document is an object that has it.
pub open spec fn field(t: Tree, key: Seq<char>) -> Option<Tree> {
    match t {
        Tree::Object(f) => field_in(f, key),
        _ => None,
    }
}

/// The unsigned integer that the document is.
pub open spec fn number(t: Option<Tree>) -> Option<u64> {
    match t {
        Some(Tree::Number(n)) => n,
        _ => None,
    }
}

/// The text that the document is.
pub open spec fn string(t: Option<Tree>) -> Option<Seq<char>> {
    match t {
        Some(Tree::Text(s)) => Some(s),
        _ => None,
    }
}

/// The value at `i` in an array.
pub open spec fn item(t: Seq<Tree>, i: int) -> Option<Tree> {
    if 0 <= i < t.len() {
        Some(t[i])
    } else {
        None
    }
}

/// The value of an optional document.
pub open spec fn opt_tree(j: Option<&Json>) -> Option<Tree> {
    match j {
        Some(x) => Some(tree(*x)),
        None => None,
    }
}

impl Json {
    /// The value of the field `key`, where the document is an object that has it.
    pub fn get(&self, key: &str) -> (r: Option<&Json>)
        ensures
            opt_tree(r) == field(tree(*self), key@),
    {
        match self {
            Json::Object(v) => {
                proof {
                    fields_index(v@);
                }
                let ghost f = fields(v@);
                let mut i: usize = 0;
                assert(f.skip(0) =~= f);
                while i < v.len()
                    invariant
                        i <= v.len(),
                        tree(*self) == Tree::Object(f),
                        f == fields(v@),
                        f.len() == v.len(),
                        forall|k: int|
                            0 <= k < v.len() ==> #[trigger] f[k] == (v@[k].0@, tree(v@[k].1)),
                        field_in(f, key@) == field_in(f.skip(i as int), key@),
                    decreases v.len() - i,
                {
                    if text::str_eq(v[i].0.as_str(), key) {
                        assert(f.skip(i as int)[0] == f[i as int]);
                        return Some(&v[i].1);
                    }
                    assert(f.skip(i as int)[0] == f[i as int]);
                    assert(f.skip(i as int).drop_first() =~= f.skip(i + 1));
                    i = i + 1;
                }
                assert(f.skip(i as int).len() == 0);
                None
            },
            _ => None,
        }
    }
}

/// The unsigned integer that the document is.
pub fn as_number(j: Option<&Json>) -> (r: Option<u64>)
    ensures
        r == number(opt_tree(j)),
{
    match j {
        Some(Json::Number(n)) => *n,
        _ => None,
    }
}

/// The text that the document is.
pub fn as_text<'a>(j: Option<&'a Json>) -> (r: Option<&'a String>)
    ensures
        match r {
            Some(s) => string(opt_tree(j)) == Some(s@),
            None => string(opt_tree(j)) == None::<Seq<char>>,
        },
{
    match j {
        Some(Json::Text(s)) => Some(s),
        _ => None,
    }
}

// ── Parsing and writing ────────────────────────────────────────────────────

/// `serde_json::Value`: a document as the parser holds it.
#[verifier::external_type_specification]
#[verifier::external_body]
pub struct ExValue(serde_json::Value);

/// The keys of the fields stand in dictionary order, each once.
pub open spec fn keys_ascend(f: Seq<(Seq<char>, Tree)>) -> bool {
    forall|i: int, j: int|
        0 <= i < j < f.len() ==> crate::library::order::text_before(
            (#[trigger] f[i]).0,
            (#[trigger] f[j]).0,
        )
}

/// What `serde_json::from_slice` makes of a document: its value, or the text of
/// the error.
pub uninterp spec fn parsed_json(bytes: Seq<u8>) -> Result<Tree, Seq<char>>;

/// Turns a `serde_json::Value` into a plain tree, variant by variant.
#[verifier::external_body]
fn plain(v: serde_json::Value) -> (r: Json) {
    match v {
        serde_json::Value::Null => Json::Null,
        serde_json::Value::Bool(b) => Json::Bool(b),
        serde_json::Value::Number(n) => Json::Number(n.as_u64()),
        serde_json::Value::String(s) => Json::Text(s),
        serde_json::Value::Array(a) => Json::Array(a.into_iter().map(plain).collect()),
        serde_json::Value::Object(o) => {
            Json::Object(o.into_iter().map(|(k, x)| (k, plain(x))).collect())
        },
    }
}

/// `serde_json::from_slice` to a `Value`: the document that the bytes hold, or
/// what the parser says against them. Both depend on the bytes alone. The fields of an
/// object are those of a `serde_json::Map`, an ordered map: the keys ascend, each once.
#[verifier::external_body]
pub(crate) fn parse_json(bytes: &[u8]) -> (r: Result<Json, String>)
    ensures
        match r {
            Ok(j) => {
                &&& parsed_json(bytes@) == Ok::<Tree, Seq<char>>(tree(j))
                &&& tree(j) matches Tree::Object(f) ==> keys_ascend(f)
            },
            Err(e) => parsed_json(bytes@) == Err::<Tree, Seq<char>>(e@),
        },
{
    match serde_json::from_slice::<serde_json::Value>(bytes) {
        Ok(v) => Ok(plain(v)),
        Err(e) => Err(e.to_string()),
    }
}

/// What `serde_json::from_str` reads as a list of strings.
pub uninterp spec fn parsed_strings(s: Seq<char>) -> Option<Seq<Seq<char>>>;

/// `serde_json::from_str` to a list of strings: nothing where the text is no
/// JSON array of strings.
#[verifier::external_body]
pub(crate) fn parse_strings(s: &str) -> (r: Option<Vec<String>>)
    ensures
        match r {
            Some(v) => parsed_strings(s@) == Some(text::texts(v@)),
            None => parsed_strings(s@) == None::<Seq<Seq<char>>>,
        },
{
    serde_json::from_str::<Vec<String>>(s).ok()
}

/// `serde_json::to_string_pretty` of a list of strings, which does not fail: a
/// text that reads back as the same list.
#[verifier::external_body]
pub(crate) fn write_strings(list: &Vec<String>) -> (r: Option<String>)
    ensures
        match r {
            Some(s) => parsed_strings(s@) == Some(text::texts(list@)),
            None => false,
        },
{
    serde_json::to_string_pretty(list).ok()
}

/// The tree of one row of side data: `[text, number, number, flag]`.
pub open spec fn row_tree(row: (Seq<char>, u32, u64, bool)) -> Tree {
    Tree::Array(
        seq![
            Tree::Text(row.0),
            Tree::Number(Some(row.1 as u64)),
            Tree::Number(Some(row.2)),
            Tree::Bool(row.3),
        ],
    )
}

/// `serde_json::to_string` of rows `(text, number, number, flag)`, which does not
/// fail: a document that reads back as an array of one four-item array per row.
#[verifier::external_body]
pub(crate) fn write_rows(rows: &Vec<(String, u32, u64, bool)>) -> (r: Option<String>)
    ensures
        match r {
            Some(s) => parsed_json(vstd::utf8::encode_utf8(s@)) == Ok::<Tree, Seq<char>>(
                Tree::Array(
                    Seq::new(
                        rows@.len(),
                        |i: int|
                            row_tree((rows@[i].0@, rows@[i].1, rows@[i].2, rows@[i].3)),
                    ),
                ),
            ),
            None => false,
        },
{
    serde_json::to_string(rows).ok()
}

/// Turns a plain tree into a `serde_json::Value`, variant by variant.
#[verifier::external_body]
fn value(j: &Json) -> (r: serde_json::Value) {
    match j {
        Json::Null => serde_json::Value::Null,
        Json::Bool(b) => serde_json::Value::Bool(*b),
        Json::Number(n) => serde_json::Value::from(*n),
        Json::Text(s) => serde_json::Value::String(s.clone()),
        Json::Array(a) => serde_json::Value::Array(a.iter().map(value).collect()),
        Json::Object(o) => {
            serde_json::Value::Object(o.iter().map(|(k, x)| (k.clone(), value(x))).collect())
        },
    }
}

/// An object whose fields are objects of whole numbers, all keys in order.
pub open spec fn number_table(t: Tree) -> bool {
    match t {
        Tree::Object(f) => keys_ascend(f) && forall|i: int|
            0 <= i < f.len() ==> match (#[trigger] f[i]).1 {
                Tree::Object(g) => keys_ascend(g) && forall|k: int|
                    0 <= k < g.len() ==> match (#[trigger] g[k]).1 {
                        Tree::Number(n) => n is Some,
                        _ => false,
                    },
                _ => false,
            },
        _ => false,
    }
}

/// An object whose fields are texts, all keys in order.
pub open spec fn text_table(t: Tree) -> bool {
    match t {
        Tree::Object(f) => keys_ascend(f) && forall|i: int|
            0 <= i < f.len() ==> (#[trigger] f[i]).1 is Text,
        _ => false,
    }
}

/// `serde_json::to_string_pretty` of a document, which does not fail: of a table
/// of numbers or of texts, a text that reads back as the same table. Nothing is said
/// of what other documents read back as.
#[verifier::external_body]
pub(crate) fn write_pretty(j: &Json) -> (r: Option<String>)
    ensures
        match r {
            Some(s) => number_table(tree(*j)) || text_table(tree(*j)) ==> parsed_json(
                vstd::utf8::encode_utf8(s@),
            ) == Ok::<Tree, Seq<char>>(tree(*j)),
            None => false,
        },
{
    serde_json::to_string_pretty(&value(j)).ok()
}

} // verus!
