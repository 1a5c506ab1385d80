//! Key profiles that players share: which of them fit a game, and in what order
//! they are offered.

use crate::digits;
use crate::library::order;
use crate::loc;
use crate::loc::strings::Strings;
use crate::loc::Settings;
use crate::parts;
use crate::text;
use vstd::prelude::*;

verus! {

/// The keys of a game.
pub struct Keymap {
    pub version: u32,
    pub bindings: Vec<(String, String)>,
    pub bindings_p2: Vec<(String, String)>,
    /// Per modifier button, the keys while it is held.
    pub combo_layers: Vec<(String, Vec<(String, String)>)>,
    pub combo_layers_p2: Vec<(String, Vec<(String, String)>)>,
    pub source: String,
    pub show_cursor: bool,
}

/// The game that a profile is for.
pub struct ProfileGame {
    pub title: String,
    pub fp_uuid: String,
    pub swf_hash: String,
}

/// One shared profile.
pub struct Profile {
    pub schema: u32,
    pub id: String,
    pub game: ProfileGame,
    pub author: String,
    pub verified: bool,
    pub notes: String,
    pub bindings: Vec<(String, String)>,
    pub bindings_p2: Vec<(String, String)>,
    pub combo_layers: Vec<(String, Vec<(String, String)>)>,
    pub combo_layers_p2: Vec<(String, Vec<(String, String)>)>,
    /// The cursor speed, -1 where the profile leaves it alone.
    pub cursor_speed: i32,
    pub show_cursor: bool,
}

// ── Copies ─────────────────────────────────────────────────────────────────

/// Two lists of pairs of strings hold the same texts.
pub open spec fn same_pairs(a: Seq<(String, String)>, b: Seq<(String, String)>) -> bool {
    a.len() == b.len() && forall|i: int|
        0 <= i < a.len() ==> (#[trigger] a[i]).0@ == b[i].0@ && a[i].1@ == b[i].1@
}

/// Two lists of layers hold the same texts.
pub open spec fn same_layers(
    a: Seq<(String, Vec<(String, String)>)>,
    b: Seq<(String, Vec<(String, String)>)>,
) -> bool {
    a.len() == b.len() && forall|i: int|
        0 <= i < a.len() ==> (#[trigger] a[i]).0@ == b[i].0@ && same_pairs(a[i].1@, b[i].1@)
}

fn copy_pairs(v: &Vec<(String, String)>) -> (r: Vec<(String, String)>)
    ensures
        same_pairs(r@, v@),
{
    let mut out: Vec<(String, String)> = Vec::new();
    let mut i: usize = 0;
    while i < v.len()
        invariant
            i <= v.len(),
            out.len() == i,
            forall|k: int|
                0 <= k < i ==> (#[trigger] out@[k]).0@ == v@[k].0@ && out@[k].1@ == v@[k].1@,
        decreases v.len() - i,
    {
        out.push((v[i].0.clone(), v[i].1.clone()));
        i = i + 1;
    }
    out
}

fn copy_layers(v: &Vec<(String, Vec<(String, String)>)>) -> (r: Vec<
    (String, Vec<(String, String)>),
>)
    ensures
        same_layers(r@, v@),
{
    let mut out: Vec<(String, Vec<(String, String)>)> = Vec::new();
    let mut i: usize = 0;
    while i < v.len()
        invariant
            i <= v.len(),
            out.len() == i,
            forall|k: int|
                0 <= k < i ==> (#[trigger] out@[k]).0@ == v@[k].0@ && same_pairs(
                    out@[k].1@,
                    v@[k].1@,
                ),
        decreases v.len() - i,
    {
        out.push((v[i].0.clone(), copy_pairs(&v[i].1)));
        i = i + 1;
    }
    out
}

// ── One profile ────────────────────────────────────────────────────────────

/// How many of the first `n` buttons have a key.
pub open spec fn keys_set(b: Seq<(String, String)>, n: int) -> int
    decreases n,
{
    if n <= 0 {
        0
    } else {
        keys_set(b, n - 1) + (if b[n - 1].1@.len() > 0 {
            1int
        } else {
            0
        })
    }
}

impl Profile {
    /// The title of the profile's game.
    pub fn title(&self) -> (r: &str)
        ensures
            r@ == self.game.title@,
    {
        self.game.title.as_str()
    }

    /// How many buttons of the first player have a key.
    pub open spec fn completeness_of(&self) -> int {
        keys_set(self.bindings@, self.bindings@.len() as int)
    }

    /// How many buttons of the first player have a key.
    pub fn completeness(&self) -> (r: usize)
        ensures
            r == self.completeness_of(),
            r <= self.bindings@.len(),
    {
        let mut n: usize = 0;
        let mut i: usize = 0;
        while i < self.bindings.len()
            invariant
                i <= self.bindings.len(),
                n <= i,
                n == keys_set(self.bindings@, i as int),
            decreases self.bindings.len() - i,
        {
            if self.bindings[i].1.unicode_len() > 0 {
                n = n + 1;
            }
            i = i + 1;
        }
        n
    }

    /// The profile's keys, with where they come from.
    pub fn to_keymap(&self) -> (r: Keymap)
        ensures
            r.version == 1,
            same_pairs(r.bindings@, self.bindings@),
            same_pairs(r.bindings_p2@, self.bindings_p2@),
            same_layers(r.combo_layers@, self.combo_layers@),
            same_layers(r.combo_layers_p2@, self.combo_layers_p2@),
            r.source@ == "community:"@ + self.id@,
            r.show_cursor == self.show_cursor,
    {
        Keymap {
            version: 1,
            bindings: copy_pairs(&self.bindings),
            bindings_p2: copy_pairs(&self.bindings_p2),
            combo_layers: copy_layers(&self.combo_layers),
            combo_layers_p2: copy_layers(&self.combo_layers_p2),
            source: parts::concat("community:", self.id.as_str()),
            show_cursor: self.show_cursor,
        }
    }
}

/// The profiles that come with the program: none.
pub fn bundled() -> (r: Vec<Profile>)
    ensures
        r@.len() == 0,
{
    Vec::new()
}

/// The keys to write for a profile are all of its keys.
pub open spec fn applies(profile: Profile, km: Keymap, speed: Option<i32>) -> bool {
    &&& km.version == 1
    &&& same_pairs(km.bindings@, profile.bindings@)
    &&& same_pairs(km.bindings_p2@, profile.bindings_p2@)
    &&& same_layers(km.combo_layers@, profile.combo_layers@)
    &&& same_layers(km.combo_layers_p2@, profile.combo_layers_p2@)
    &&& km.source@ == "community:"@ + profile.id@
    &&& km.show_cursor == profile.show_cursor
    &&& speed == (if profile.cursor_speed >= 0 {
        Some(profile.cursor_speed)
    } else {
        None::<i32>
    })
}

/// The keys to write for a profile, and the cursor speed where it has one.
pub fn apply(profile: &Profile) -> (r: (Keymap, Option<i32>))
    ensures
        applies(*profile, r.0, r.1),
{
    let speed: Option<i32> = if profile.cursor_speed >= 0 {
        Some(profile.cursor_speed)
    } else {
        None
    };
    (profile.to_keymap(), speed)
}

// ── The hash of a file ─────────────────────────────────────────────────────

/// The 64-bit FNV-1a hash of `bytes`, going on from `h`.
pub open spec fn fnv64(h: u64, bytes: Seq<u8>) -> u64
    decreases bytes.len(),
{
    if bytes.len() == 0 {
        h
    } else {
        ((fnv64(h, bytes.drop_last()) ^ (bytes.last() as u64)) * 0x100_0000_01b3
            % 0x1_0000_0000_0000_0000) as u64
    }
}

/// Where the hash starts.
pub const FNV_BASIS: u64 = 0xcbf2_9ce4_8422_2325;

/// The hash after another piece of the file.
pub fn hash_chunk(h: u64, chunk: &[u8]) -> (r: u64)
    ensures
        r == fnv64(h, chunk@),
{
    let mut out: u64 = h;
    let mut i: usize = 0;
    assert(chunk@.take(0) =~= Seq::empty());
    while i < chunk.len()
        invariant
            i <= chunk.len(),
            out == fnv64(h, chunk@.take(i as int)),
        decreases chunk.len() - i,
    {
        assert(chunk@.take(i + 1).drop_last() =~= chunk@.take(i as int));
        out = (out ^ (chunk[i] as u64)).wrapping_mul(0x100_0000_01b3);
        i = i + 1;
    }
    assert(chunk@.take(i as int) =~= chunk@);
    out
}

/// The hash does not depend on how the file is cut into pieces.
pub proof fn hash_by_pieces(h: u64, a: Seq<u8>, b: Seq<u8>)
    ensures
        fnv64(fnv64(h, a), b) == fnv64(h, a + b),
    decreases b.len(),
{
    if b.len() == 0 {
        assert(a + b =~= a);
    } else {
        assert((a + b).drop_last() =~= a + b.drop_last());
        hash_by_pieces(h, a, b.drop_last());
    }
}

/// How a hash is written.
pub fn hash_text(h: u64) -> (r: String)
    ensures
        r@ == digits::hex(h as nat, 16),
{
    digits::hex_padded(h, 16)
}

// ── Who shares ─────────────────────────────────────────────────────────────

/// At most `n` characters of `s`.
pub open spec fn first_chars(s: Seq<char>, n: int) -> Seq<char> {
    if s.len() <= n {
        s
    } else {
        s.take(n)
    }
}

fn take_chars(s: &str, n: usize) -> (r: String)
    ensures
        r@ == first_chars(s@, n as int),
{
    let v: Vec<char> = text::chars_of(s);
    let m: usize = if v.len() <= n {
        v.len()
    } else {
        n
    };
    let r: String = text::string_of(&v, 0, m);
    assert(r@ =~= first_chars(s@, n as int));
    r
}

/// The hexadecimal digits of `s`.
pub open spec fn only_hex(s: Seq<char>) -> Seq<char> {
    s.filter(|c: char| text::hex_digit(c))
}

/// The ASCII letters and digits of `s`.
pub open spec fn only_alnum(s: Seq<char>) -> Seq<char> {
    s.filter(|c: char| text::digit(c) || text::ascii_letter(c))
}

fn keep_hex(s: &str) -> (r: String)
    ensures
        r@ == only_hex(s@),
{
    let v: Vec<char> = text::chars_of(s);
    let mut out: String = String::new();
    let mut i: usize = 0;
    let ghost keep = |c: char| text::hex_digit(c);
    assert(v@.take(0).filter(keep) =~= Seq::empty()) by {
        reveal(Seq::filter);
    }
    while i < v.len()
        invariant
            i <= v.len(),
            v@ == s@,
            keep == (|c: char| text::hex_digit(c)),
            out@ == v@.take(i as int).filter(keep),
        decreases v.len() - i,
    {
        let c: char = v[i];
        assert(v@.take(i + 1).filter(keep) == if keep(c) {
            v@.take(i as int).filter(keep).push(c)
        } else {
            v@.take(i as int).filter(keep)
        }) by {
            reveal(Seq::filter);
            assert(v@.take(i + 1).drop_last() =~= v@.take(i as int));
        }
        if ('0' <= c && c <= '9') || ('a' <= c && c <= 'f') || ('A' <= c && c <= 'F') {
            out.push(c);
        }
        i = i + 1;
    }
    assert(v@.take(i as int) =~= v@);
    out
}

fn keep_alnum(s: &str) -> (r: String)
    ensures
        r@ == only_alnum(s@),
{
    let v: Vec<char> = text::chars_of(s);
    let mut out: String = String::new();
    let mut i: usize = 0;
    let ghost keep = |c: char| text::digit(c) || text::ascii_letter(c);
    assert(v@.take(0).filter(keep) =~= Seq::empty()) by {
        reveal(Seq::filter);
    }
    while i < v.len()
        invariant
            i <= v.len(),
            v@ == s@,
            keep == (|c: char| text::digit(c) || text::ascii_letter(c)),
            out@ == v@.take(i as int).filter(keep),
        decreases v.len() - i,
    {
        let c: char = v[i];
        assert(v@.take(i + 1).filter(keep) == if keep(c) {
            v@.take(i as int).filter(keep).push(c)
        } else {
            v@.take(i as int).filter(keep)
        }) by {
            reveal(Seq::filter);
            assert(v@.take(i + 1).drop_last() =~= v@.take(i as int));
        }
        if ('0' <= c && c <= '9') || ('a' <= c && c <= 'z') || ('A' <= c && c <= 'Z') {
            out.push(c);
        }
        i = i + 1;
    }
    assert(v@.take(i as int) =~= v@);
    out
}

/// The id in a kept file: the hexadecimal digits among its first sixteen
/// characters, where it has four bytes or more.
pub open spec fn kept_id(file: Seq<char>) -> Option<Seq<char>> {
    let t = text::trimmed(file);
    if vstd::utf8::encode_utf8(t).len() >= 4 {
        Some(only_hex(first_chars(t, 16)))
    } else {
        None
    }
}

/// The id in the first of the kept files that has one.
pub open spec fn kept_install_id(files: Seq<Option<Seq<char>>>) -> Option<Seq<char>>
    decreases files.len(),
{
    if files.len() == 0 {
        None
    } else {
        let here = match files[0] {
            Some(f) => kept_id(f),
            None => None,
        };
        match here {
            Some(id) => Some(id),
            None => kept_install_id(files.drop_first()),
        }
    }
}

/// The texts of files that may be missing.
pub open spec fn file_texts(files: Seq<Option<String>>) -> Seq<Option<Seq<char>>> {
    Seq::new(
        files.len(),
        |i: int|
            match files[i] {
                Some(f) => Some(f@),
                None => None,
            },
    )
}

/// The id that this installation keeps, from the files that may hold it.
pub fn install_id(files: &Vec<Option<String>>) -> (r: Option<String>)
    ensures
        match r {
            Some(id) => kept_install_id(file_texts(files@)) == Some(id@),
            None => kept_install_id(file_texts(files@)) == None::<Seq<char>>,
        },
{
    let ghost all = file_texts(files@);
    let mut i: usize = 0;
    assert(all.skip(0) =~= all);
    while i < files.len()
        invariant
            i <= files.len(),
            all == file_texts(files@),
            kept_install_id(all) == kept_install_id(all.skip(i as int)),
        decreases files.len() - i,
    {
        assert(all.skip(i as int)[0] == all[i as int]);
        assert(all.skip(i as int).drop_first() =~= all.skip(i + 1));
        if let Some(f) = &files[i] {
            let t: String = text::trim(f.as_str());
            let bytes: &[u8] = t.as_str().as_bytes();
            if bytes.len() >= 4 {
                let head: String = take_chars(t.as_str(), 16);
                return Some(keep_hex(head.as_str()));
            }
        }
        i = i + 1;
    }
    assert(all.skip(i as int).len() == 0);
    None
}

/// One step of the xorshift generator.
pub open spec fn mixed(s: u64) -> u64 {
    let a = s ^ (s << 13);
    let b = a ^ (a >> 7);
    b ^ (b << 17)
}

/// `n` steps of the generator.
pub open spec fn mixed_n(s: u64, n: nat) -> u64
    decreases n,
{
    if n == 0 {
        s
    } else {
        mixed(mixed_n(s, (n - 1) as nat))
    }
}

/// The seed that a clock reading gives; never zero.
pub open spec fn seed(tick: u64) -> u64 {
    let s = tick ^ 0x9E37_79B9_7F4A_7C15;
    if s == 0 {
        0x2545_F491_4F6C_DD1D
    } else {
        s
    }
}

/// A new id from a clock reading: eight steps of the generator, of which the
/// lower 32 bits are written.
pub fn new_install_id(tick: u64) -> (r: String)
    ensures
        r@ == digits::hex((mixed_n(seed(tick), 8) % 0x1_0000_0000) as nat, 8),
{
    let mut state: u64 = tick ^ 0x9E37_79B9_7F4A_7C15;
    if state == 0 {
        state = 0x2545_F491_4F6C_DD1D;
    }
    let mut i: u64 = 0;
    while i < 8
        invariant
            i <= 8,
            state == mixed_n(seed(tick), i as nat),
        decreases 8 - i,
    {
        let a: u64 = state ^ (state << 13);
        let b: u64 = a ^ (a >> 7);
        state = b ^ (b << 17);
        i = i + 1;
    }
    digits::hex_padded(state % 0x1_0000_0000, 8)
}

/// A text of characters that are kept is kept whole.
proof fn filter_keeps(s: Seq<char>, keep: spec_fn(char) -> bool)
    requires
        forall|i: int| 0 <= i < s.len() ==> keep(#[trigger] s[i]),
    ensures
        s.filter(keep) == s,
    decreases s.len(),
{
    reveal(Seq::filter);
    if s.len() > 0 {
        let d = s.drop_last();
        assert forall|i: int| 0 <= i < d.len() implies keep(#[trigger] d[i]) by {
            assert(keep(s[i]));
        }
        filter_keeps(d, keep);
        assert(keep(s[s.len() - 1]));
        assert(d.push(s.last()) =~= s);
    } else {
        assert(s.filter(keep) =~= s);
    }
}

proof fn hex_is_hex(n: nat, width: nat)
    ensures
        digits::hex(n, width).len() == width,
        forall|i: int| 0 <= i < width ==> text::hex_digit(#[trigger] digits::hex(n, width)[i]),
    decreases width,
{
    if width > 0 {
        hex_is_hex(n / 16, (width - 1) as nat);
        let head = digits::hex(n / 16, (width - 1) as nat);
        let all = digits::hex(n, width);
        assert forall|i: int| 0 <= i < width implies text::hex_digit(#[trigger] all[i]) by {
            if i < width - 1 {
                assert(all[i] == head[i]);
            }
        }
    }
}

/// An id is made once: where it was written, it is the one that is read from then on,
/// whatever an older file says.
pub proof fn install_id_is_kept(tick: u64, older: Seq<Option<Seq<char>>>)
    ensures
        ({
            let id = digits::hex((mixed_n(seed(tick), 8) % 0x1_0000_0000) as nat, 8);
            kept_install_id(seq![Some(id)] + older) == Some(id)
        }),
{
    let n = (mixed_n(seed(tick), 8) % 0x1_0000_0000) as nat;
    let id = digits::hex(n, 8);
    hex_is_hex(n, 8);
    assert(text::hex_digit(id[0]) && text::hex_digit(id[7]));
    assert(text::trimmed(id) == id);
    assert forall|i: int| 0 <= i < id.len() implies '\0' <= #[trigger] id[i] <= '\u{7f}' by {
        assert(text::hex_digit(id[i]));
    }
    assert(vstd::utf8::is_ascii_chars(id));
    vstd::utf8::is_ascii_chars_encode_utf8(id);
    let keep = |c: char| text::hex_digit(c);
    filter_keeps(id, keep);
    assert(only_hex(id) == id);
    let files = seq![Some(id)] + older;
    assert(files[0] == Some(id));
}

/// The nickname in a kept file.
pub open spec fn nickname(file: Seq<char>) -> Seq<char> {
    first_chars(text::trimmed(file), 24)
}

/// The nickname in the first of the kept files that has one.
pub open spec fn author_in(files: Seq<Option<Seq<char>>>) -> Seq<char>
    decreases files.len(),
{
    if files.len() == 0 {
        Seq::empty()
    } else {
        match files[0] {
            Some(f) => if text::trimmed(f).len() > 0 {
                nickname(f)
            } else {
                author_in(files.drop_first())
            },
            None => author_in(files.drop_first()),
        }
    }
}

/// The nickname that is kept, from the files that may hold it; nothing if unset.
pub fn author_name(files: &Vec<Option<String>>) -> (r: String)
    ensures
        r@ == author_in(file_texts(files@)),
{
    let ghost all = file_texts(files@);
    let mut i: usize = 0;
    assert(all.skip(0) =~= all);
    while i < files.len()
        invariant
            i <= files.len(),
            all == file_texts(files@),
            author_in(all) == author_in(all.skip(i as int)),
        decreases files.len() - i,
    {
        assert(all.skip(i as int)[0] == all[i as int]);
        assert(all.skip(i as int).drop_first() =~= all.skip(i + 1));
        if let Some(f) = &files[i] {
            let t: String = text::trim(f.as_str());
            if t.unicode_len() > 0 {
                return take_chars(t.as_str(), 24);
            }
        }
        i = i + 1;
    }
    let r: String = String::new();
    assert(all.skip(i as int).len() == 0);
    assert(r@ =~= Seq::empty());
    r
}

/// What is done to the files that may hold the nickname.
pub enum NicknameChange {
    /// The nickname is cleared: every one of the files goes.
    Clear,
    /// The first of the files is written with this nickname.
    Keep(String),
}

/// The files after a nickname was typed.
pub open spec fn files_after(files: Seq<Option<Seq<char>>>, name: Seq<char>) -> Seq<
    Option<Seq<char>>,
> {
    if nickname(name).len() == 0 {
        Seq::new(files.len(), |i: int| None)
    } else {
        files.update(0, Some(nickname(name)))
    }
}

/// What a typed nickname does: it is kept, cut to 24 characters; an empty one clears
/// the nickname.
pub fn set_author_name(name: &str) -> (r: NicknameChange)
    ensures
        match r {
            NicknameChange::Clear => nickname(name@).len() == 0,
            NicknameChange::Keep(n) => n@ == nickname(name@) && n@.len() > 0,
        },
{
    let t: String = text::trim(name);
    let n: String = take_chars(t.as_str(), 24);
    if n.unicode_len() == 0 {
        NicknameChange::Clear
    } else {
        NicknameChange::Keep(n)
    }
}

/// There is no nickname exactly where none of the files holds more than white space.
pub proof fn nickname_is_unset(files: Seq<Option<Seq<char>>>)
    ensures
        author_in(files).len() == 0 <==> forall|i: int|
            0 <= i < files.len() ==> match #[trigger] files[i] {
                Some(f) => text::trimmed(f).len() == 0,
                None => true,
            },
    decreases files.len(),
{
    if files.len() > 0 {
        let t = files.drop_first();
        nickname_is_unset(t);
        assert forall|i: int| 0 <= i < t.len() implies #[trigger] t[i] == files[i + 1] by {}
        let blank = |o: Option<Seq<char>>| match o {
            Some(f) => text::trimmed(f).len() == 0,
            None => true,
        };
        if blank(files[0]) {
            if author_in(files).len() == 0 {
                assert forall|i: int| 0 <= i < files.len() implies match #[trigger] files[i] {
                    Some(f) => text::trimmed(f).len() == 0,
                    None => true,
                } by {
                    if i > 0 {
                        assert(t[i - 1] == files[i]);
                    }
                }
            }
        }
    }
}

/// An empty nickname clears the one that was kept, whichever of the files held it.
pub proof fn empty_nickname_clears(name: Seq<char>, files: Seq<Option<Seq<char>>>)
    requires
        text::trimmed(name).len() == 0,
    ensures
        author_in(files_after(files, name)).len() == 0,
{
    nickname_is_unset(files_after(files, name));
}

/// A nickname that was kept is the one that is shown, whatever an older file says.
/// One whose cut leaves a space at its end is shown without it.
pub proof fn nickname_round_trip(name: Seq<char>, files: Seq<Option<Seq<char>>>)
    requires
        files.len() > 0,
        nickname(name).len() > 0,
        text::trimmed(nickname(name)) == nickname(name),
    ensures
        author_in(files_after(files, name)) == nickname(name),
{
    assert(files_after(files, name)[0] == Some(nickname(name)));
    assert(nickname(name).len() <= 24);
}

/// The token in a kept file: letters and digits among its first 64 characters.
pub open spec fn token_of(file: Seq<char>) -> Seq<char> {
    only_alnum(first_chars(file, 64))
}

/// The token in the first of the kept files that has one.
pub open spec fn token_in(files: Seq<Option<Seq<char>>>) -> Seq<char>
    decreases files.len(),
{
    if files.len() == 0 {
        Seq::empty()
    } else {
        match files[0] {
            Some(f) => if token_of(text::trimmed(f)).len() > 0 {
                token_of(text::trimmed(f))
            } else {
                token_in(files.drop_first())
            },
            None => token_in(files.drop_first()),
        }
    }
}

/// The token that proves which shared profiles are this installation's; nothing
/// before the first share.
pub fn owner_token(files: &Vec<Option<String>>) -> (r: String)
    ensures
        r@ == token_in(file_texts(files@)),
{
    let ghost all = file_texts(files@);
    let mut i: usize = 0;
    assert(all.skip(0) =~= all);
    while i < files.len()
        invariant
            i <= files.len(),
            all == file_texts(files@),
            token_in(all) == token_in(all.skip(i as int)),
        decreases files.len() - i,
    {
        assert(all.skip(i as int)[0] == all[i as int]);
        assert(all.skip(i as int).drop_first() =~= all.skip(i + 1));
        if let Some(f) = &files[i] {
            let t: String = text::trim(f.as_str());
            let head: String = take_chars(t.as_str(), 64);
            let token: String = keep_alnum(head.as_str());
            if token.unicode_len() > 0 {
                return token;
            }
        }
        i = i + 1;
    }
    let r: String = String::new();
    assert(all.skip(i as int).len() == 0);
    assert(r@ =~= Seq::empty());
    r
}

/// The token to keep of what the relay sent; none where it is too short to be one.
pub fn set_owner_token(token: &str) -> (r: Option<String>)
    ensures
        match r {
            Some(t) => t@ == token_of(token@) && t@.len() >= 16,
            None => token_of(token@).len() < 16,
        },
{
    let head: String = take_chars(token, 64);
    let clean: String = keep_alnum(head.as_str());
    if clean.unicode_len() < 16 {
        None
    } else {
        Some(clean)
    }
}

/// A token that was kept is the one that is sent, whatever an older file says.
pub proof fn token_is_kept(token: Seq<char>, older: Seq<Option<Seq<char>>>)
    requires
        token_of(token).len() >= 16,
    ensures
        token_in(seq![Some(token_of(token))] + older) == token_of(token),
{
    let keep = |c: char| text::digit(c) || text::ascii_letter(c);
    let head = first_chars(token, 64);
    let t = token_of(token);
    assert(t == head.filter(keep));
    head.lemma_filter_len(keep);
    assert(t.len() <= 64);
    assert forall|i: int| 0 <= i < t.len() implies keep(#[trigger] t[i]) by {
        head.lemma_filter_pred(keep, i);
    }
    assert(keep(t[0]) && keep(t[t.len() - 1]));
    assert(text::trimmed(t) == t);
    filter_keeps(t, keep);
    assert(only_alnum(t) == t);
    let files = seq![Some(t)] + older;
    assert(files[0] == Some(t));
}

/// A shared profile's id ends in the id of the installation that shared it.
pub open spec fn shared_by(id: Seq<char>, install: Seq<char>) -> bool {
    install.len() > 0 && text::ends(id, "-"@ + install)
}

/// Did this installation share the profile?
pub fn is_mine(profile_id: &str, install: &str) -> (r: bool)
    ensures
        r == shared_by(profile_id@, install@),
{
    let suffix: String = parts::concat("-", install);
    let v: Vec<char> = text::chars_of(install);
    v.len() > 0 && text::ends_with(profile_id, suffix.as_str())
}

// ── Which profiles fit ─────────────────────────────────────────────────────

/// The lower-case form of a text, character by character.
pub open spec fn lowered(s: Seq<char>) -> Seq<char>
    decreases s.len(),
{
    if s.len() == 0 {
        Seq::empty()
    } else {
        lowered(s.drop_last()) + text::char_lowercase(s.last())
    }
}

/// The letters and digits of a text.
pub open spec fn letters_of(s: Seq<char>) -> Seq<char>
    decreases s.len(),
{
    if s.len() == 0 {
        Seq::empty()
    } else if text::alphanumeric(s.last()) {
        letters_of(s.drop_last()).push(s.last())
    } else {
        letters_of(s.drop_last())
    }
}

/// A title as titles are held against each other: in lower case, without
/// `.swf`, letters and digits only.
pub open spec fn normal_title(s: Seq<char>) -> Seq<char> {
    let low = lowered(s);
    letters_of(
        if text::ends(low, ".swf"@) {
            low.take(low.len() - 4)
        } else {
            low
        },
    )
}

fn normalize_title(s: &str) -> (r: String)
    ensures
        r@ == normal_title(s@),
{
    let v: Vec<char> = text::chars_of(s);
    let mut low: Vec<char> = Vec::new();
    let mut i: usize = 0;
    assert(v@.take(0) =~= Seq::empty());
    assert(low@ =~= lowered(v@.take(0)));
    while i < v.len()
        invariant
            i <= v.len(),
            v@ == s@,
            low@ == lowered(v@.take(i as int)),
        decreases v.len() - i,
    {
        assert(v@.take(i + 1).drop_last() =~= v@.take(i as int));
        let mut l: Vec<char> = text::lower_char(v[i]);
        low.append(&mut l);
        i = i + 1;
    }
    assert(v@.take(i as int) =~= v@);
    let whole: String = text::string_of(&low, 0, low.len());
    assert(whole@ =~= low@);
    proof {
        reveal_strlit(".swf");
    }
    let end: usize = if text::ends_with(whole.as_str(), ".swf") {
        low.len() - 4
    } else {
        low.len()
    };
    let mut out: String = String::new();
    let mut j: usize = 0;
    assert(low@.take(0) =~= Seq::empty());
    assert(out@ =~= letters_of(low@.take(0)));
    while j < end
        invariant
            j <= end <= low.len(),
            out@ == letters_of(low@.take(j as int)),
        decreases end - j,
    {
        assert(low@.take(j + 1).drop_last() =~= low@.take(j as int));
        if text::is_alphanumeric(low[j]) {
            out.push(low[j]);
        }
        j = j + 1;
    }
    assert(low@.take(low@.len() as int) =~= low@);
    out
}

/// How a profile fits a game.
#[derive(Clone, Copy, PartialEq, Eq, Structural, Debug)]
pub enum MatchKind {
    Uuid,
    Hash,
    Title,
}

/// How a profile for the game `(uuid, hash, title)` fits the game that is asked
/// for: by its id, by its file, or only by its title.
pub open spec fn fit(
    uuid: Seq<char>,
    hash: Seq<char>,
    title: Seq<char>,
    want_uuid: Seq<char>,
    want_hash: Seq<char>,
    want_title: Seq<char>,
) -> Option<MatchKind> {
    if want_uuid.len() > 0 && uuid == want_uuid {
        Some(MatchKind::Uuid)
    } else if want_hash.len() > 0 && hash == want_hash {
        Some(MatchKind::Hash)
    } else if normal_title(want_title).len() > 0 && normal_title(title) == normal_title(want_title) {
        Some(MatchKind::Title)
    } else {
        None
    }
}

fn fits(
    uuid: &str,
    hash: &str,
    title: &str,
    want_uuid: &str,
    want_hash: &str,
    want_title: &str,
) -> (r: Option<MatchKind>)
    ensures
        r == fit(uuid@, hash@, title@, want_uuid@, want_hash@, want_title@),
{
    let u: Vec<char> = text::chars_of(want_uuid);
    let h: Vec<char> = text::chars_of(want_hash);
    let want: String = normalize_title(want_title);
    if u.len() > 0 && text::str_eq(uuid, want_uuid) {
        return Some(MatchKind::Uuid);
    }
    if h.len() > 0 && text::str_eq(hash, want_hash) {
        return Some(MatchKind::Hash);
    }
    let have: String = normalize_title(title);
    if want.unicode_len() > 0 && text::str_eq(have.as_str(), want.as_str()) {
        return Some(MatchKind::Title);
    }
    None
}

/// A profile that fits, how it fits, and how often it was applied.
pub struct Match {
    pub profile: Profile,
    pub kind: MatchKind,
    pub applied: u32,
}

/// Does `a` stand before `b`: exact before alike, then verified, then the more
/// often applied, then the more complete.
pub open spec fn better(a: Match, b: Match) -> bool {
    let (ax, bx) = (a.kind != MatchKind::Title, b.kind != MatchKind::Title);
    if ax != bx {
        ax
    } else if a.profile.verified != b.profile.verified {
        a.profile.verified
    } else if a.applied != b.applied {
        a.applied > b.applied
    } else {
        a.profile.completeness_of() > b.profile.completeness_of()
    }
}

/// The key that `better` orders by.
pub open spec fn rank(m: Match) -> order::KeyView {
    order::KeyView {
        num: (if m.kind != MatchKind::Title {
            0int
        } else {
            2
        } + if m.profile.verified {
            0int
        } else {
            1
        }) * 0x1_0000_0000 + (0xffff_ffff - m.applied),
        num2: u64::MAX - m.profile.completeness_of(),
        first: Seq::empty(),
        second: Seq::empty(),
    }
}

/// The rank order is the order of `better`.
pub proof fn rank_is_better(a: Match, b: Match)
    ensures
        order::key_before(rank(a), rank(b)) == better(a, b),
{
    assert(!order::text_before(Seq::<char>::empty(), Seq::<char>::empty()));
}

/// `after` are the matches `before`, best first; of two alike, the earlier first.
pub open spec fn ranked(before: Seq<Match>, after: Seq<Match>) -> bool {
    exists|o: Seq<usize>|
        #![trigger order::is_permutation(o, before.len() as int)]
        {
            &&& order::is_permutation(o, before.len() as int)
            &&& after.len() == before.len()
            &&& forall|i: int| 0 <= i < after.len() ==> #[trigger] after[i] == before[o[i] as int]
            &&& forall|i: int, j: int|
                0 <= i < j < after.len() ==> better(
                    before[(#[trigger] o[i]) as int],
                    before[(#[trigger] o[j]) as int],
                ) || (!better(before[o[j] as int], before[o[i] as int]) && o[i] < o[j])
        }
}

/// In the order of matches no match stands behind a worse one: the exact ones come
/// first, and among those as exact the verified ones.
pub proof fn best_matches_lead(before: Seq<Match>, after: Seq<Match>, i: int, j: int)
    requires
        ranked(before, after),
        0 <= i < j < after.len(),
    ensures
        !better(after[j], after[i]),
        after[j].kind != MatchKind::Title ==> after[i].kind != MatchKind::Title,
        (after[i].kind == MatchKind::Title) == (after[j].kind == MatchKind::Title)
            && after[j].profile.verified ==> after[i].profile.verified,
{
    let o = choose|o: Seq<usize>|
        #![trigger order::is_permutation(o, before.len() as int)]
        {
            &&& order::is_permutation(o, before.len() as int)
            &&& after.len() == before.len()
            &&& forall|k: int| 0 <= k < after.len() ==> #[trigger] after[k] == before[o[k] as int]
            &&& forall|k: int, l: int|
                0 <= k < l < after.len() ==> better(
                    before[(#[trigger] o[k]) as int],
                    before[(#[trigger] o[l]) as int],
                ) || (!better(before[o[l] as int], before[o[k] as int]) && o[k] < o[l])
        };
    assert(after[i] == before[o[i] as int]);
    assert(after[j] == before[o[j] as int]);
}

fn key_of(m: &Match) -> (r: order::Key)
    ensures
        r@ == rank(*m),
{
    let class: u64 = if m.kind != MatchKind::Title {
        0
    } else {
        2
    };
    let state: u64 = if m.profile.verified {
        0
    } else {
        1
    };
    let k: order::Key = order::Key {
        num: (class + state) * 0x1_0000_0000 + (0xffff_ffff - m.applied as u64),
        num2: u64::MAX - m.profile.completeness() as u64,
        first: Vec::new(),
        second: Vec::new(),
    };
    assert(k@ =~= rank(*m));
    k
}

/// Puts the matches in order, best first.
fn rank_matches(list: Vec<Match>) -> (r: Vec<Match>)
    ensures
        ranked(list@, r@),
{
    let mut keys: Vec<order::Key> = Vec::new();
    let mut pinned: Vec<bool> = Vec::new();
    let n: usize = list.len();
    let mut i: usize = 0;
    while i < n
        invariant
            i <= n,
            n == list.len(),
            keys.len() == i,
            pinned.len() == i,
            forall|k: int| 0 <= k < i ==> (#[trigger] keys@[k])@ == rank(list@[k]),
            forall|k: int| 0 <= k < i ==> !(#[trigger] pinned@[k]),
        decreases n - i,
    {
        keys.push(key_of(&list[i]));
        pinned.push(false);
        i = i + 1;
    }
    let rows: Vec<usize> = order::sorted_rows(&keys, false, &pinned);
    let ghost kv = order::key_views(keys@);
    let ghost before = list@;
    let out: Vec<Match> = order::rearranged(list, &rows);
    proof {
        assert forall|i: int, j: int| 0 <= i < j < out@.len() implies better(
            before[(#[trigger] rows@[i]) as int],
            before[(#[trigger] rows@[j]) as int],
        ) || (!better(before[rows@[j] as int], before[rows@[i] as int]) && rows@[i] < rows@[j]) by {
            let (x, y) = (rows@[i] as int, rows@[j] as int);
            assert(order::row_before(kv, false, pinned@, x, y));
            assert(kv[x] == rank(before[x]) && kv[y] == rank(before[y]));
            rank_is_better(before[x], before[y]);
            rank_is_better(before[y], before[x]);
            if kv[x] == kv[y] {
                order::key_before_strict(kv[x]);
            }
        }
        assert(order::is_permutation(rows@, before.len() as int));
    }
    out
}

/// The profiles of `all` that fit, in their order, not applied yet.
pub open spec fn fitting(
    all: Seq<Profile>,
    uuid: Seq<char>,
    hash: Seq<char>,
    title: Seq<char>,
) -> Seq<Match>
    decreases all.len(),
{
    if all.len() == 0 {
        Seq::empty()
    } else {
        let p = all.last();
        let rest = fitting(all.drop_last(), uuid, hash, title);
        match fit(p.game.fp_uuid@, p.game.swf_hash@, p.game.title@, uuid, hash, title) {
            Some(kind) => rest.push(Match { profile: p, kind, applied: 0 }),
            None => rest,
        }
    }
}

/// The profiles of a catalogue that fit a game, best first.
pub fn matches_in(catalog: Vec<Profile>, fp_uuid: &str, swf_hash: &str, title: &str) -> (r: Vec<
    Match,
>)
    ensures
        ranked(fitting(catalog@, fp_uuid@, swf_hash@, title@), r@),
{
    let ghost all = catalog@;
    let mut rest: Vec<Profile> = catalog;
    let mut back: Vec<Profile> = Vec::new();
    let n: usize = rest.len();
    while rest.len() > 0
        invariant
            n == all.len(),
            rest@.len() + back@.len() == n,
            rest@ == all.take(rest@.len() as int),
            forall|k: int| 0 <= k < back@.len() ==> #[trigger] back@[k] == all[n - 1 - k],
        decreases rest.len(),
    {
        if let Some(p) = rest.pop() {
            back.push(p);
        }
        assert(rest@ =~= all.take(rest@.len() as int));
    }
    let mut out: Vec<Match> = Vec::new();
    assert(all.take(0) =~= Seq::empty());
    assert(out@ =~= fitting(all.take(0), fp_uuid@, swf_hash@, title@));
    while back.len() > 0
        invariant
            n == all.len(),
            back@.len() <= n,
            forall|k: int| 0 <= k < back@.len() ==> #[trigger] back@[k] == all[n - 1 - k],
            out@ == fitting(all.take(n - back@.len()), fp_uuid@, swf_hash@, title@),
        decreases back.len(),
    {
        let ghost m = n - back@.len();
        assert(all.take(m + 1).drop_last() =~= all.take(m));
        if let Some(p) = back.pop() {
            assert(p == all[m]);
            assert(all.take(m + 1).last() == p);
            let kind: Option<MatchKind> = fits(
                p.game.fp_uuid.as_str(),
                p.game.swf_hash.as_str(),
                p.game.title.as_str(),
                fp_uuid,
                swf_hash,
                title,
            );
            if let Some(kind) = kind {
                out.push(Match { profile: p, kind, applied: 0 });
            }
        }
    }
    assert(all.take(n as int) =~= all);
    rank_matches(out)
}

/// The profiles that come with the program and fit a game, best first.
pub fn matches_for(fp_uuid: &str, swf_hash: &str, title: &str) -> (r: Vec<Match>)
    ensures
        ranked(fitting(Seq::empty(), fp_uuid@, swf_hash@, title@), r@),
        r@.len() == 0,
{
    let own: Vec<Profile> = bundled();
    assert(own@ =~= Seq::empty());
    matches_in(own, fp_uuid, swf_hash, title)
}

// ── The shared catalogue ───────────────────────────────────────────────────

/// One profile of the shared catalogue, before its file was fetched.
pub struct IndexEntry {
    pub id: String,
    pub title: String,
    pub fp_uuid: String,
    pub swf_hash: String,
    pub file: String,
    pub verified: bool,
}

/// What is known of the shared catalogue in this session.
pub struct Catalog {
    /// The index, once it was read.
    pub index: Option<Vec<IndexEntry>>,
    /// Was the last reading of the index a success?
    pub index_ok: bool,
    /// How often each profile was applied, once it was asked.
    pub counts: Option<Vec<(String, u32)>>,
}

impl Catalog {
    /// Before anything was asked. Nothing is held against the network yet.
    pub fn new() -> (r: Catalog)
        ensures
            r.index is None,
            r.index_ok,
            r.counts is None,
    {
        Catalog { index: None, index_ok: true, counts: None }
    }
}

/// Did the last reading of the catalogue fail?
pub fn catalog_unavailable(c: &Catalog) -> (r: bool)
    ensures
        r == !c.index_ok,
{
    !c.index_ok
}

/// Forgets the catalogue and the counts, so that they are asked for again.
pub fn invalidate_online_cache(c: &mut Catalog)
    ensures
        *final(c) == (Catalog { index: None, counts: None, index_ok: old(c).index_ok }),
{
    c.index = None;
    c.counts = None;
}

/// Takes up an answer for the index: an index is kept for the session; a failed
/// reading (`None`) keeps nothing, so that the next one tries again.
pub fn index_answered(c: &mut Catalog, answer: Option<Vec<IndexEntry>>)
    ensures
        match answer {
            Some(v) => *final(c) == (Catalog { index: Some(v), index_ok: true, ..*old(c) }),
            None => *final(c) == (Catalog { index_ok: false, ..*old(c) }),
        },
{
    match answer {
        Some(v) => {
            c.index = Some(v);
            c.index_ok = true;
        },
        None => {
            c.index_ok = false;
        },
    }
}

/// What `serde_json::from_str` reads as counts by name, in the order of the names.
pub uninterp spec fn parsed_counts(s: Seq<char>) -> Option<Seq<(Seq<char>, u32)>>;

/// `serde_json::from_str` to a map from names to small numbers: nothing where
/// the text is no such map.
#[verifier::external_body]
fn parse_counts(s: &str) -> (r: Option<Vec<(String, u32)>>)
    ensures
        match r {
            Some(v) => parsed_counts(s@) == Some(count_views(v@)),
            None => parsed_counts(s@) == None::<Seq<(Seq<char>, u32)>>,
        },
{
    let map = serde_json::from_str::<std::collections::BTreeMap<String, u32>>(s);
    map.ok().map(|m| m.into_iter().collect())
}

/// The values of a list of counts.
pub open spec fn count_views(v: Seq<(String, u32)>) -> Seq<(Seq<char>, u32)> {
    Seq::new(v.len(), |i: int| (v[i].0@, v[i].1))
}

/// The counts in an answer: none where it is no such map.
pub open spec fn counts_in(answer: Option<Seq<char>>) -> Seq<(Seq<char>, u32)> {
    match answer {
        Some(t) => match parsed_counts(t) {
            Some(v) => v,
            None => Seq::empty(),
        },
        None => Seq::empty(),
    }
}

/// Takes up an answer for the counts. They are asked for once per session; a
/// failed answer counts as no counts.
pub fn counts_answered(c: &mut Catalog, answer: Option<&str>)
    ensures
        final(c).index == old(c).index,
        final(c).index_ok == old(c).index_ok,
        final(c).counts matches Some(v) && count_views(v@) == counts_in(
            match answer {
                Some(t) => Some(t@),
                None => None,
            },
        ),
{
    let v: Vec<(String, u32)> = match answer {
        Some(t) => match parse_counts(t) {
            Some(v) => v,
            None => Vec::new(),
        },
        None => Vec::new(),
    };
    assert(count_views(v@) =~= counts_in(
        match answer {
            Some(t) => Some(t@),
            None => None,
        },
    ));
    c.counts = Some(v);
}

/// How often a profile was applied.
pub open spec fn count_of(v: Seq<(Seq<char>, u32)>, id: Seq<char>) -> u32
    decreases v.len(),
{
    if v.len() == 0 {
        0
    } else if v[0].0 == id {
        v[0].1
    } else {
        count_of(v.drop_first(), id)
    }
}

fn times_applied(v: &Vec<(String, u32)>, id: &str) -> (r: u32)
    ensures
        r == count_of(count_views(v@), id@),
{
    let ghost all = count_views(v@);
    let mut i: usize = 0;
    assert(all.skip(0) =~= all);
    while i < v.len()
        invariant
            i <= v.len(),
            all == count_views(v@),
            count_of(all, id@) == count_of(all.skip(i as int), id@),
        decreases v.len() - i,
    {
        assert(all.skip(i as int)[0] == all[i as int]);
        assert(all.skip(i as int).drop_first() =~= all.skip(i + 1));
        if text::str_eq(v[i].0.as_str(), id) {
            return v[i].1;
        }
        i = i + 1;
    }
    assert(all.skip(i as int).len() == 0);
    0
}

/// The places of the index whose profiles fit a game, with how they fit.
pub open spec fn wanted(
    index: Seq<IndexEntry>,
    uuid: Seq<char>,
    hash: Seq<char>,
    title: Seq<char>,
) -> Seq<(int, MatchKind)>
    decreases index.len(),
{
    if index.len() == 0 {
        Seq::empty()
    } else {
        let e = index.last();
        let rest = wanted(index.drop_last(), uuid, hash, title);
        match fit(e.fp_uuid@, e.swf_hash@, e.title@, uuid, hash, title) {
            Some(kind) => rest.push((index.len() - 1, kind)),
            None => rest,
        }
    }
}

/// Places and kinds as mathematical values.
pub open spec fn place_views(v: Seq<(usize, MatchKind)>) -> Seq<(int, MatchKind)> {
    Seq::new(v.len(), |i: int| (v[i].0 as int, v[i].1))
}

/// Which files of the catalogue are to be fetched for a game.
pub fn wanted_files(index: &Vec<IndexEntry>, fp_uuid: &str, swf_hash: &str, title: &str) -> (r: Vec<
    (usize, MatchKind),
>)
    ensures
        place_views(r@) == wanted(index@, fp_uuid@, swf_hash@, title@),
        forall|i: int| 0 <= i < r@.len() ==> (#[trigger] r@[i]).0 < index@.len(),
{
    let mut out: Vec<(usize, MatchKind)> = Vec::new();
    let mut i: usize = 0;
    assert(index@.take(0) =~= Seq::empty());
    assert(place_views(out@) =~= wanted(index@.take(0), fp_uuid@, swf_hash@, title@));
    while i < index.len()
        invariant
            i <= index.len(),
            place_views(out@) == wanted(index@.take(i as int), fp_uuid@, swf_hash@, title@),
            forall|k: int| 0 <= k < out@.len() ==> (#[trigger] out@[k]).0 < i,
        decreases index.len() - i,
    {
        assert(index@.take(i + 1).drop_last() =~= index@.take(i as int));
        let ghost before = place_views(out@);
        let kind: Option<MatchKind> = fits(
            index[i].fp_uuid.as_str(),
            index[i].swf_hash.as_str(),
            index[i].title.as_str(),
            fp_uuid,
            swf_hash,
            title,
        );
        if let Some(kind) = kind {
            out.push((i, kind));
            assert(place_views(out@) =~= before.push((i as int, kind)));
        }
        i = i + 1;
    }
    assert(index@.take(i as int) =~= index@);
    out
}

/// Some match of `list` has the id `id`.
pub open spec fn has_id(list: Seq<Match>, id: Seq<char>) -> bool {
    exists|i: int| 0 <= i < list.len() && (#[trigger] list[i]).profile.id@ == id
}

/// `own` with those of `more` added whose id is not there yet, and the counts set.
pub open spec fn merged(own: Seq<Match>, more: Seq<Match>) -> Seq<Match>
    decreases more.len(),
{
    if more.len() == 0 {
        own
    } else {
        let sofar = merged(own, more.drop_last());
        if has_id(sofar, more.last().profile.id@) {
            sofar
        } else {
            sofar.push(more.last())
        }
    }
}

/// The matches with how often each was applied.
pub open spec fn counted(list: Seq<Match>, counts: Seq<(Seq<char>, u32)>) -> Seq<Match> {
    Seq::new(
        list.len(),
        |i: int|
            Match {
                profile: list[i].profile,
                kind: list[i].kind,
                applied: count_of(counts, list[i].profile.id@),
            },
    )
}

/// No two matches have the same id.
pub open spec fn ids_distinct(list: Seq<Match>) -> bool {
    forall|i: int, j: int|
        0 <= i < j < list.len() ==> (#[trigger] list[i]).profile.id@ != (
        #[trigger] list[j]).profile.id@
}

fn holds_id(list: &Vec<Match>, id: &str) -> (r: bool)
    ensures
        r == has_id(list@, id@),
{
    let mut i: usize = 0;
    while i < list.len()
        invariant
            i <= list.len(),
            forall|k: int| 0 <= k < i ==> (#[trigger] list@[k]).profile.id@ != id@,
        decreases list.len() - i,
    {
        if text::str_eq(list[i].profile.id.as_str(), id) {
            assert(list@[i as int].profile.id@ == id@);
            return true;
        }
        i = i + 1;
    }
    false
}

/// All profiles that fit a game: the program's own, then those fetched from the
/// catalogue whose id is not there yet, with their counts, best first.
pub fn all_matches_for(
    own: Vec<Match>,
    fetched: Vec<Match>,
    counts: &Vec<(String, u32)>,
) -> (r: Vec<Match>)
    ensures
        ranked(counted(merged(own@, fetched@), count_views(counts@)), r@),
{
    let ghost first = own@;
    let ghost more = fetched@;
    let mut back: Vec<Match> = Vec::new();
    let mut rest: Vec<Match> = fetched;
    let n: usize = rest.len();
    while rest.len() > 0
        invariant
            n == more.len(),
            rest@.len() + back@.len() == n,
            rest@ == more.take(rest@.len() as int),
            forall|k: int| 0 <= k < back@.len() ==> #[trigger] back@[k] == more[n - 1 - k],
        decreases rest.len(),
    {
        if let Some(m) = rest.pop() {
            back.push(m);
        }
        assert(rest@ =~= more.take(rest@.len() as int));
    }
    let mut all: Vec<Match> = own;
    assert(more.take(0) =~= Seq::empty());
    while back.len() > 0
        invariant
            n == more.len(),
            back@.len() <= n,
            forall|k: int| 0 <= k < back@.len() ==> #[trigger] back@[k] == more[n - 1 - k],
            all@ == merged(first, more.take(n - back@.len())),
        decreases back.len(),
    {
        let ghost m = n - back@.len();
        assert(more.take(m + 1).drop_last() =~= more.take(m));
        if let Some(x) = back.pop() {
            assert(x == more[m]);
            assert(more.take(m + 1).last() == x);
            if !holds_id(&all, x.profile.id.as_str()) {
                all.push(x);
            }
        }
    }
    assert(more.take(n as int) =~= more);
    let ghost joined = all@;
    let ghost cv = count_views(counts@);
    let mut i: usize = 0;
    while i < all.len()
        invariant
            i <= all.len(),
            all.len() == joined.len(),
            cv == count_views(counts@),
            forall|k: int| 0 <= k < i ==> #[trigger] all@[k] == counted(joined, cv)[k],
            forall|k: int| i <= k < all.len() ==> #[trigger] all@[k] == joined[k],
        decreases all.len() - i,
    {
        let n_applied: u32 = times_applied(counts, all[i].profile.id.as_str());
        all[i].applied = n_applied;
        i = i + 1;
    }
    assert(all@ =~= counted(joined, cv));
    rank_matches(all)
}

/// No profile is offered twice, and each of the program's own is offered.
pub proof fn merged_is_distinct(own: Seq<Match>, more: Seq<Match>)
    requires
        ids_distinct(own),
    ensures
        ids_distinct(merged(own, more)),
        merged(own, more).len() >= own.len(),
        forall|i: int| 0 <= i < own.len() ==> merged(own, more)[i] == #[trigger] own[i],
        forall|i: int|
            0 <= i < more.len() ==> has_id(merged(own, more), (#[trigger] more[i]).profile.id@),
    decreases more.len(),
{
    if more.len() > 0 {
        let rest = more.drop_last();
        merged_is_distinct(own, rest);
        let sofar = merged(own, rest);
        let all = merged(own, more);
        let m = more.last();
        if !has_id(sofar, m.profile.id@) {
            assert(all == sofar.push(m));
            assert forall|i: int, j: int| 0 <= i < j < all.len() implies (
            #[trigger] all[i]).profile.id@ != (#[trigger] all[j]).profile.id@ by {
                if j == sofar.len() {
                    assert(all[i] == sofar[i]);
                } else {
                    assert(all[i] == sofar[i] && all[j] == sofar[j]);
                }
            }
            assert(all[sofar.len() as int].profile.id@ == m.profile.id@);
        }
        assert forall|i: int| 0 <= i < more.len() implies has_id(
            all,
            (#[trigger] more[i]).profile.id@,
        ) by {
            if i < rest.len() {
                assert(rest[i] == more[i]);
                assert(has_id(sofar, rest[i].profile.id@));
                let k = choose|k: int|
                    0 <= k < sofar.len() && (#[trigger] sofar[k]).profile.id@
                        == rest[i].profile.id@;
                assert(all[k] == sofar[k]);
            } else {
                assert(more[i] == m);
            }
        }
    }
}

// ── Requests ───────────────────────────────────────────────────────────────

/// The address of a file of the catalogue. The clock reading keeps it from being
/// answered from a cache.
pub fn catalog_url(path: &str, tick: u64) -> (r: String)
    ensures
        r@ == "https://api.github.com/repos/Jonathan8520/FlashNX/contents/"@ + path@
            + "?ref=community-profiles&_="@ + digits::decimal(tick as nat),
{
    let mut url: String = parts::concat3(
        "https://api.github.com/repos/Jonathan8520/FlashNX/contents/",
        path,
        "?ref=community-profiles&_=",
    );
    let t: String = digits::dec(tick);
    url.append(t.as_str());
    url
}

/// The text of a file of the catalogue, from the base64 in the answer.
pub open spec fn catalog_text(content: Seq<char>) -> Option<Seq<char>> {
    let b = crate::base64::bytes_of(crate::base64::sextets(content));
    if vstd::utf8::valid_utf8(b) {
        Some(vstd::utf8::decode_utf8(b))
    } else {
        None
    }
}

/// The text of a file of the catalogue, from the base64 in the answer.
pub fn catalog_file(content: &str) -> (r: Option<String>)
    ensures
        match r {
            Some(t) => catalog_text(content@) == Some(t@),
            None => catalog_text(content@) == None::<Seq<char>>,
        },
{
    crate::net::utf8_text(crate::base64::base64_decode(content))
}

/// The relay's address for `path`, beside that for reports.
pub open spec fn relay_address(endpoint: Seq<char>, path: Seq<char>) -> Seq<char> {
    (if text::ends(endpoint, "/report"@) {
        endpoint.take(endpoint.len() - 7)
    } else {
        endpoint
    }) + path
}

/// The relay's address for `path`.
pub fn worker_url(endpoint: &str, path: &str) -> (r: String)
    ensures
        r@ == relay_address(endpoint@, path@),
{
    proof {
        reveal_strlit("/report");
    }
    let v: Vec<char> = text::chars_of(endpoint);
    let base: String = if text::ends_with(endpoint, "/report") {
        text::string_of(&v, 0, v.len() - 7)
    } else {
        endpoint.to_owned()
    };
    proof {
        if text::ends(endpoint@, "/report"@) {
            assert(base@ =~= endpoint@.take(endpoint@.len() - 7));
        }
    }
    parts::concat(base.as_str(), path)
}

/// The title that a share goes under: without `.swf` and the white space before it.
pub open spec fn shared_title(title: Seq<char>) -> Seq<char> {
    if text::ends(text::ascii_lower(title), ".swf"@) {
        text::trim_end(title.take(title.len() - 4))
    } else {
        title
    }
}

/// The title that a share goes under.
pub fn share_title(title: &str) -> (r: String)
    ensures
        r@ == shared_title(title@),
{
    proof {
        reveal_strlit(".swf");
    }
    let low: String = text::to_ascii_lower(title);
    if text::ends_with(low.as_str(), ".swf") {
        let v: Vec<char> = text::chars_of(title);
        let head: String = text::string_of(&v, 0, v.len() - 4);
        assert(head@ =~= title@.take(title@.len() - 4));
        text::trim_back(head.as_str())
    } else {
        title.to_owned()
    }
}

/// What is sent to the relay to share a game's keys.
pub struct SharePayload {
    pub kind: String,
    pub app_version: String,
    pub lang: String,
    pub title: String,
    pub fp_uuid: String,
    pub swf_hash: String,
    pub install_id: String,
    pub author: String,
    pub owner_token: String,
    pub bindings: Vec<(String, String)>,
    pub bindings_p2: Vec<(String, String)>,
    pub combo_layers: Vec<(String, Vec<(String, String)>)>,
    pub combo_layers_p2: Vec<(String, Vec<(String, String)>)>,
    pub cursor_speed: i32,
    pub show_cursor: bool,
}

/// Who shares: the program, this installation, the nickname and the token.
pub struct Sharer {
    pub app_version: String,
    pub install_id: String,
    pub author: String,
    pub owner_token: String,
}

/// The payload shares the keys `km` of a game: all of them, with the cursor, under
/// the game's title and by this player.
pub open spec fn shares(
    p: SharePayload,
    lang: loc::Lang,
    who: Sharer,
    title: Seq<char>,
    fp_uuid: Seq<char>,
    swf_hash: Seq<char>,
    km: Keymap,
    cursor_speed: i32,
) -> bool {
    &&& p.kind@ == "profile"@
    &&& p.app_version@ == who.app_version@
    &&& p.lang@ == loc::lang_code(lang)
    &&& p.title@ == shared_title(title)
    &&& p.fp_uuid@ == fp_uuid
    &&& p.swf_hash@ == swf_hash
    &&& p.install_id@ == who.install_id@
    &&& p.author@ == who.author@
    &&& p.owner_token@ == who.owner_token@
    &&& same_pairs(p.bindings@, km.bindings@)
    &&& same_pairs(p.bindings_p2@, km.bindings_p2@)
    &&& same_layers(p.combo_layers@, km.combo_layers@)
    &&& same_layers(p.combo_layers_p2@, km.combo_layers_p2@)
    &&& p.cursor_speed == cursor_speed
    &&& p.show_cursor == km.show_cursor
}

/// What is sent to share the keys of a game; the answer goes to `share_answered`.
pub fn share(
    st: &Settings,
    who: &Sharer,
    title: &str,
    fp_uuid: &str,
    swf_hash: &str,
    km: &Keymap,
    cursor_speed: i32,
) -> (r: SharePayload)
    ensures
        shares(r, st.lang, *who, title@, fp_uuid@, swf_hash@, *km, cursor_speed),
{
    SharePayload {
        kind: "profile".to_owned(),
        app_version: who.app_version.clone(),
        lang: loc::current(st).code().to_owned(),
        title: share_title(title),
        fp_uuid: fp_uuid.to_owned(),
        swf_hash: swf_hash.to_owned(),
        install_id: who.install_id.clone(),
        author: who.author.clone(),
        owner_token: who.owner_token.clone(),
        bindings: copy_pairs(&km.bindings),
        bindings_p2: copy_pairs(&km.bindings_p2),
        combo_layers: copy_layers(&km.combo_layers),
        combo_layers_p2: copy_layers(&km.combo_layers_p2),
        cursor_speed,
        show_cursor: km.show_cursor,
    }
}

/// What the relay answers.
pub struct RelayAnswer {
    pub ok: bool,
    pub id: String,
    pub token: String,
    pub error: String,
}

/// The words for a request that the relay did not grant: its own, or ours.
pub open spec fn refusal(lc: Strings, error: Seq<char>) -> Seq<char> {
    if error.len() == 0 {
        lc.bug_fail_title@
    } else {
        error
    }
}

/// What became of a share: the id in the catalogue and the token to keep, or why
/// it failed. An answer that is none (`None`) is a failure without words.
pub fn share_answered(st: &Settings, answer: Option<RelayAnswer>) -> (r: Result<
    (String, Option<String>),
    String,
>)
    ensures
        match r {
            Ok((id, token)) => answer matches Some(a) && a.ok && id == a.id && match token {
                Some(t) => t@ == token_of(a.token@) && t@.len() >= 16,
                None => token_of(a.token@).len() < 16,
            },
            Err(e) => match answer {
                Some(a) => !a.ok && e@ == refusal(loc::table_of(st.lang), a.error@),
                None => e@ == loc::table_of(st.lang).bug_fail_title@,
            },
        },
{
    let lc: Strings = loc::s(st);
    match answer {
        Some(a) => if a.ok {
            let token: Option<String> = set_owner_token(a.token.as_str());
            Ok((a.id, token))
        } else if a.error.unicode_len() == 0 {
            Err(lc.bug_fail_title.to_owned())
        } else {
            Err(a.error)
        },
        None => Err(lc.bug_fail_title.to_owned()),
    }
}

/// What is sent to the relay to delete a shared profile.
pub struct DeletePayload {
    pub kind: String,
    pub id: String,
    pub install_id: String,
    pub owner_token: String,
}

/// What is sent to delete the profile `id`; the answer goes to `delete_answered`.
/// Without a token nothing was shared from here, and nothing is sent.
pub fn delete(st: &Settings, install_id: &str, token: &str, id: &str) -> (r: Result<
    DeletePayload,
    String,
>)
    ensures
        match r {
            Ok(p) => {
                &&& token@.len() > 0
                &&& p.kind@ == "profile_delete"@
                &&& p.id@ == id@
                &&& p.install_id@ == install_id@
                &&& p.owner_token@ == token@
            },
            Err(e) => token@.len() == 0 && e@ == loc::table_of(st.lang).profile_del_not_mine@,
        },
{
    let v: Vec<char> = text::chars_of(token);
    if v.len() == 0 {
        let lc: Strings = loc::s(st);
        return Err(lc.profile_del_not_mine.to_owned());
    }
    Ok(
        DeletePayload {
            kind: "profile_delete".to_owned(),
            id: id.to_owned(),
            install_id: install_id.to_owned(),
            owner_token: token.to_owned(),
        },
    )
}

/// What became of a deletion. A granted one forgets the catalogue.
pub fn delete_answered(st: &Settings, c: &mut Catalog, answer: Option<RelayAnswer>) -> (r: Result<
    (),
    String,
>)
    ensures
        match r {
            Ok(_) => answer matches Some(a) && a.ok && *final(c) == (Catalog {
                index: None,
                counts: None,
                index_ok: old(c).index_ok,
            }),
            Err(e) => *final(c) == *old(c) && match answer {
                Some(a) => !a.ok && e@ == refusal(loc::table_of(st.lang), a.error@),
                None => e@ == loc::table_of(st.lang).bug_fail_title@,
            },
        },
{
    let lc: Strings = loc::s(st);
    match answer {
        Some(a) => if a.ok {
            invalidate_online_cache(c);
            Ok(())
        } else if a.error.unicode_len() == 0 {
            Err(lc.bug_fail_title.to_owned())
        } else {
            Err(a.error)
        },
        None => Err(lc.bug_fail_title.to_owned()),
    }
}

} // verus!
