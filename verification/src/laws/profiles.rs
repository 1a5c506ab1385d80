//! The shared key profiles: which fit a game, in what order, and what is shared.

use crate::library::order;
use crate::loc::Lang;
use crate::profiles;
use crate::profiles::{IndexEntry, Keymap, Match, MatchKind, Profile, SharePayload, Sharer};
use crate::text;
use vstd::prelude::*;

verus! {

/// The lower-case form of a text, character by character.
pub open spec fn low(s: Seq<char>) -> Seq<char> {
    Seq::new(s.len(), |i: int| text::char_lowercase(s[i])).flatten()
}

proof fn lowered_is(s: Seq<char>)
    ensures
        profiles::lowered(s) == low(s),
    decreases s.len(),
{
    let parts = Seq::new(s.len(), |i: int| text::char_lowercase(s[i]));
    if s.len() == 0 {
        assert(parts.flatten() =~= Seq::empty());
    } else {
        let d = s.drop_last();
        lowered_is(d);
        let sub = Seq::new(d.len(), |i: int| text::char_lowercase(d[i]));
        assert(parts =~= sub.push(text::char_lowercase(s.last())));
        parts.lemma_flatten_and_flatten_alt_are_equivalent();
        sub.lemma_flatten_and_flatten_alt_are_equivalent();
        assert(parts.drop_last() =~= sub);
    }
}

proof fn letters_are(s: Seq<char>)
    ensures
        profiles::letters_of(s) == s.filter(|c: char| text::alphanumeric(c)),
    decreases s.len(),
{
    reveal(Seq::filter);
    if s.len() > 0 {
        letters_are(s.drop_last());
    }
}

/// A title is held against others by all of its letters and digits, in lower case and
/// in their order, and by nothing else; an ending `.swf` does not count.
pub proof fn a_title_counts_by_its_letters_and_digits(s: Seq<char>)
    ensures
        ({
            let l = low(s);
            let swf = l.len() >= 4 && l.subrange(l.len() - 4, l.len() as int) == ".swf"@;
            profiles::normal_title(s) == (if swf {
                l.take(l.len() - 4)
            } else {
                l
            }).filter(|c: char| text::alphanumeric(c))
        }),
{
    reveal_strlit(".swf");
    lowered_is(s);
    let l = low(s);
    if l.len() >= 4 {
        assert(l.subrange(l.len() - 4, l.len() as int) =~= l.skip(l.len() - 4));
    }
    letters_are(l);
    letters_are(l.take(l.len() - 4));
}

/// The characters of a text are letters and digits without a lower-case form of their
/// own, and the text does not end in `.swf`.
pub open spec fn plain_title(s: Seq<char>) -> bool {
    &&& forall|i: int|
        0 <= i < s.len() ==> text::alphanumeric(#[trigger] s[i]) && text::char_lowercase(s[i])
            == seq![s[i]]
    &&& !(s.len() >= 4 && s.subrange(s.len() - 4, s.len() as int) == ".swf"@)
}

proof fn plain_low(s: Seq<char>)
    requires
        forall|i: int| 0 <= i < s.len() ==> text::char_lowercase(#[trigger] s[i]) == seq![s[i]],
    ensures
        profiles::lowered(s) == s,
    decreases s.len(),
{
    if s.len() > 0 {
        let d = s.drop_last();
        assert forall|i: int| 0 <= i < d.len() implies text::char_lowercase(#[trigger] d[i]) == seq![
            d[i],
        ] by {
            assert(d[i] == s[i]);
        }
        plain_low(d);
        assert(s[s.len() - 1] == s.last());
        assert(d + seq![s.last()] =~= s);
    } else {
        assert(profiles::lowered(s) =~= s);
    }
}

proof fn plain_letters(s: Seq<char>)
    requires
        forall|i: int| 0 <= i < s.len() ==> text::alphanumeric(#[trigger] s[i]),
    ensures
        profiles::letters_of(s) == s,
    decreases s.len(),
{
    if s.len() > 0 {
        let d = s.drop_last();
        assert forall|i: int| 0 <= i < d.len() implies text::alphanumeric(#[trigger] d[i]) by {
            assert(d[i] == s[i]);
        }
        plain_letters(d);
        assert(text::alphanumeric(s[s.len() - 1]));
        assert(d.push(s.last()) =~= s);
    } else {
        assert(profiles::letters_of(s) =~= s);
    }
}

/// A profile fits a game by its id, by its file, or by its title, the first of these
/// that agrees. Titles of lower-case letters and digits agree where they are equal.
pub proof fn a_profile_fits_the_game_it_was_made_for(
    uuid: Seq<char>,
    hash: Seq<char>,
    title: Seq<char>,
    want_uuid: Seq<char>,
    want_hash: Seq<char>,
    want_title: Seq<char>,
)
    ensures
        ({
            let fit = profiles::fit(uuid, hash, title, want_uuid, want_hash, want_title);
            let by_id = want_uuid.len() > 0 && uuid == want_uuid;
            let by_file = want_hash.len() > 0 && hash == want_hash;
            &&& fit == Some(MatchKind::Uuid) <==> by_id
            &&& fit == Some(MatchKind::Hash) <==> !by_id && by_file
            &&& plain_title(title) && plain_title(want_title) && !by_id && !by_file ==> (fit
                == Some(MatchKind::Title) <==> title == want_title && title.len() > 0) && (fit
                is None <==> title != want_title || title.len() == 0)
        }),
{
    reveal_strlit(".swf");
    if plain_title(title) && plain_title(want_title) {
        plain_low(title);
        plain_letters(title);
        plain_low(want_title);
        plain_letters(want_title);
        if title.len() >= 4 {
            assert(title.subrange(title.len() - 4, title.len() as int) =~= title.skip(
                title.len() - 4,
            ));
        }
        if want_title.len() >= 4 {
            assert(want_title.subrange(want_title.len() - 4, want_title.len() as int)
                =~= want_title.skip(want_title.len() - 4));
        }
    }
}

// ── What is offered ────────────────────────────────────────────────────────

/// How many of a profile's buttons have a key.
pub open spec fn keys_bound(p: Profile) -> nat {
    p.bindings@.filter(|b: (String, String)| b.1@.len() > 0).len()
}

proof fn bound_is_counted(b: Seq<(String, String)>, n: int)
    requires
        0 <= n <= b.len(),
    ensures
        profiles::keys_set(b, n) == b.take(n).filter(|x: (String, String)| x.1@.len() > 0).len(),
    decreases n,
{
    reveal(Seq::filter);
    if n > 0 {
        bound_is_counted(b, n - 1);
        assert(b.take(n).drop_last() =~= b.take(n - 1));
    }
}

/// A profile that is shown behind another is no better: one for the game itself comes
/// before one that only has its title; of two such the verified one; then the one that
/// was applied more often; then the one with more keys.
pub proof fn better_profiles_come_first(before: Seq<Match>, after: Seq<Match>, i: int, j: int)
    requires
        profiles::ranked(before, after),
        0 <= i < j < after.len(),
    ensures
        ({
            let (x, y) = (after[i], after[j]);
            let (ex, ey) = (x.kind != MatchKind::Title, y.kind != MatchKind::Title);
            &&& ey ==> ex
            &&& ex == ey && y.profile.verified ==> x.profile.verified
            &&& ex == ey && x.profile.verified == y.profile.verified ==> x.applied >= y.applied
            &&& ex == ey && x.profile.verified == y.profile.verified && x.applied == y.applied
                ==> keys_bound(x.profile) >= keys_bound(y.profile)
        }),
{
    profiles::best_matches_lead(before, after, i, j);
    let (a, b) = (after[i].profile.bindings@, after[j].profile.bindings@);
    bound_is_counted(a, a.len() as int);
    bound_is_counted(b, b.len() as int);
    assert(a.take(a.len() as int) =~= a);
    assert(b.take(b.len() as int) =~= b);
}

proof fn fitting_is(all: Seq<Profile>, uuid: Seq<char>, hash: Seq<char>, title: Seq<char>)
    ensures
        forall|k: int|
            0 <= k < profiles::fitting(all, uuid, hash, title).len() ==> {
                let x = #[trigger] profiles::fitting(all, uuid, hash, title)[k];
                all.contains(x.profile) && x.applied == 0 && profiles::fit(
                    x.profile.game.fp_uuid@,
                    x.profile.game.swf_hash@,
                    x.profile.game.title@,
                    uuid,
                    hash,
                    title,
                ) == Some(x.kind)
            },
        forall|k: int|
            0 <= k < all.len() && profiles::fit(
                (#[trigger] all[k]).game.fp_uuid@,
                all[k].game.swf_hash@,
                all[k].game.title@,
                uuid,
                hash,
                title,
            ) is Some ==> exists|l: int|
                0 <= l < profiles::fitting(all, uuid, hash, title).len() && (
                #[trigger] profiles::fitting(all, uuid, hash, title)[l]).profile == all[k],
    decreases all.len(),
{
    if all.len() > 0 {
        let d = all.drop_last();
        fitting_is(d, uuid, hash, title);
        let (f, g) = (
            profiles::fitting(all, uuid, hash, title),
            profiles::fitting(d, uuid, hash, title),
        );
        assert forall|k: int| 0 <= k < f.len() implies {
            let x = #[trigger] f[k];
            all.contains(x.profile) && x.applied == 0 && profiles::fit(
                x.profile.game.fp_uuid@,
                x.profile.game.swf_hash@,
                x.profile.game.title@,
                uuid,
                hash,
                title,
            ) == Some(x.kind)
        } by {
            if k < g.len() {
                assert(f[k] == g[k]);
                let i = choose|i: int| 0 <= i < d.len() && d[i] == g[k].profile;
                assert(all[i] == g[k].profile);
            } else {
                assert(all[all.len() - 1] == f[k].profile);
            }
        }
        assert forall|k: int|
            0 <= k < all.len() && profiles::fit(
                (#[trigger] all[k]).game.fp_uuid@,
                all[k].game.swf_hash@,
                all[k].game.title@,
                uuid,
                hash,
                title,
            ) is Some implies exists|l: int|
            0 <= l < f.len() && (#[trigger] f[l]).profile == all[k] by {
            if k < d.len() {
                assert(d[k] == all[k]);
                let l = choose|l: int| 0 <= l < g.len() && (#[trigger] g[l]).profile == d[k];
                assert(f[l] == g[l]);
            } else {
                assert(f[f.len() - 1].profile == all[k]);
            }
        }
    }
}

/// A profile of the catalogue is offered for a game where it fits it, and no other; it
/// is offered as what it fits by.
pub proof fn the_profiles_that_fit_are_offered(
    catalog: Seq<Profile>,
    uuid: Seq<char>,
    hash: Seq<char>,
    title: Seq<char>,
    r: Seq<Match>,
)
    requires
        profiles::ranked(profiles::fitting(catalog, uuid, hash, title), r),
    ensures
        forall|i: int|
            0 <= i < r.len() ==> {
                let x = #[trigger] r[i];
                catalog.contains(x.profile) && profiles::fit(
                    x.profile.game.fp_uuid@,
                    x.profile.game.swf_hash@,
                    x.profile.game.title@,
                    uuid,
                    hash,
                    title,
                ) == Some(x.kind)
            },
        forall|k: int|
            0 <= k < catalog.len() && profiles::fit(
                (#[trigger] catalog[k]).game.fp_uuid@,
                catalog[k].game.swf_hash@,
                catalog[k].game.title@,
                uuid,
                hash,
                title,
            ) is Some ==> exists|i: int| 0 <= i < r.len() && (#[trigger] r[i]).profile == catalog[k],
{
    let f = profiles::fitting(catalog, uuid, hash, title);
    fitting_is(catalog, uuid, hash, title);
    let o = choose|o: Seq<usize>|
        #![trigger order::is_permutation(o, f.len() as int)]
        {
            &&& order::is_permutation(o, f.len() as int)
            &&& r.len() == f.len()
            &&& forall|i: int| 0 <= i < r.len() ==> #[trigger] r[i] == f[o[i] as int]
            &&& forall|i: int, j: int|
                0 <= i < j < r.len() ==> profiles::better(
                    f[(#[trigger] o[i]) as int],
                    f[(#[trigger] o[j]) as int],
                ) || (!profiles::better(f[o[j] as int], f[o[i] as int]) && o[i] < o[j])
        };
    assert forall|i: int| 0 <= i < r.len() implies #[trigger] r[i] == f[o[i] as int] && o[i] < f.len() by {
        assert(o[i] < f.len());
    }
    assert forall|k: int|
        0 <= k < catalog.len() && profiles::fit(
            (#[trigger] catalog[k]).game.fp_uuid@,
            catalog[k].game.swf_hash@,
            catalog[k].game.title@,
            uuid,
            hash,
            title,
        ) is Some implies exists|i: int|
        0 <= i < r.len() && (#[trigger] r[i]).profile == catalog[k] by {
        let l = choose|l: int| 0 <= l < f.len() && (#[trigger] f[l]).profile == catalog[k];
        order::permutation_covers(o, f.len() as int, l);
        let i = choose|i: int| 0 <= i < f.len() && o[i] == l;
        assert(r[i] == f[o[i] as int]);
    }
}

// ── Sharing ────────────────────────────────────────────────────────────────

/// The same keys, button by button.
pub open spec fn same_keys(a: Seq<(String, String)>, b: Seq<(String, String)>) -> bool {
    &&& a.len() == b.len()
    &&& forall|i: int|
        0 <= i < a.len() ==> (#[trigger] a[i]).0@ == b[i].0@ && a[i].1@ == b[i].1@
}

/// The same layers, each with the same keys.
pub open spec fn same_layer_keys(
    a: Seq<(String, Vec<(String, String)>)>,
    b: Seq<(String, Vec<(String, String)>)>,
) -> bool {
    &&& a.len() == b.len()
    &&& forall|i: int|
        0 <= i < a.len() ==> (#[trigger] a[i]).0@ == b[i].0@ && same_keys(a[i].1@, b[i].1@)
}

/// Keys that one player shares are those that another applies: of both players, in all
/// layers, with the cursor and its speed. `p` is the profile with what was sent.
pub proof fn shared_keys_come_back(
    sent: SharePayload,
    lang: Lang,
    who: Sharer,
    title: Seq<char>,
    uuid: Seq<char>,
    hash: Seq<char>,
    keys: Keymap,
    speed: i32,
    p: Profile,
    got: Keymap,
    got_speed: Option<i32>,
)
    requires
        profiles::shares(sent, lang, who, title, uuid, hash, keys, speed),
        p.bindings == sent.bindings,
        p.bindings_p2 == sent.bindings_p2,
        p.combo_layers == sent.combo_layers,
        p.combo_layers_p2 == sent.combo_layers_p2,
        p.cursor_speed == sent.cursor_speed,
        p.show_cursor == sent.show_cursor,
        profiles::applies(p, got, got_speed),
    ensures
        same_keys(got.bindings@, keys.bindings@),
        same_keys(got.bindings_p2@, keys.bindings_p2@),
        same_layer_keys(got.combo_layers@, keys.combo_layers@),
        same_layer_keys(got.combo_layers_p2@, keys.combo_layers_p2@),
        got.show_cursor == keys.show_cursor,
        speed >= 0 ==> got_speed == Some(speed),
        speed < 0 ==> got_speed is None,
        sent.fp_uuid@ == uuid && sent.swf_hash@ == hash,
        sent.install_id@ == who.install_id@ && sent.owner_token@ == who.owner_token@,
{
    layers_chain(got.combo_layers@, p.combo_layers@, keys.combo_layers@);
    layers_chain(got.combo_layers_p2@, p.combo_layers_p2@, keys.combo_layers_p2@);
}

proof fn layers_chain(
    a: Seq<(String, Vec<(String, String)>)>,
    b: Seq<(String, Vec<(String, String)>)>,
    c: Seq<(String, Vec<(String, String)>)>,
)
    requires
        profiles::same_layers(a, b),
        profiles::same_layers(b, c),
    ensures
        same_layer_keys(a, c),
{
    assert forall|i: int| 0 <= i < a.len() implies (#[trigger] a[i]).0@ == c[i].0@ && same_keys(
        a[i].1@,
        c[i].1@,
    ) by {
        assert(b[i].0@ == c[i].0@);
        assert(profiles::same_pairs(a[i].1@, b[i].1@));
        assert(profiles::same_pairs(b[i].1@, c[i].1@));
    }
}

// ── The shared catalogue ───────────────────────────────────────────────────

proof fn count_is_first(v: Seq<(Seq<char>, u32)>, id: Seq<char>)
    ensures
        ({
            let c = profiles::count_of(v, id);
            ||| exists|i: int|
                {
                    &&& 0 <= i < v.len()
                    &&& #[trigger] v[i] == (id, c)
                    &&& forall|j: int| 0 <= j < i ==> (#[trigger] v[j]).0 != id
                }
            ||| c == 0 && forall|j: int| 0 <= j < v.len() ==> (#[trigger] v[j]).0 != id
        }),
    decreases v.len(),
{
    if v.len() > 0 && v[0].0 != id {
        let t = v.drop_first();
        count_is_first(t, id);
        let c = profiles::count_of(v, id);
        if exists|i: int|
            {
                &&& 0 <= i < t.len()
                &&& #[trigger] t[i] == (id, c)
                &&& forall|j: int| 0 <= j < i ==> (#[trigger] t[j]).0 != id
            } {
            let i = choose|i: int|
                {
                    &&& 0 <= i < t.len()
                    &&& #[trigger] t[i] == (id, c)
                    &&& forall|j: int| 0 <= j < i ==> (#[trigger] t[j]).0 != id
                };
            assert(v[i + 1] == (id, c));
            assert forall|j: int| 0 <= j < i + 1 implies (#[trigger] v[j]).0 != id by {
                if j > 0 {
                    assert(t[j - 1] == v[j]);
                }
            }
        } else {
            assert forall|j: int| 0 <= j < v.len() implies (#[trigger] v[j]).0 != id by {
                if j > 0 {
                    assert(t[j - 1] == v[j]);
                }
            }
        }
    } else if v.len() > 0 {
        assert(v[0] == (id, v[0].1));
    }
}

/// A match that is offered counts as often applied as the catalogue says of its id,
/// and not at all where it says nothing.
pub proof fn matches_are_counted(
    list: Seq<Match>,
    counts: Seq<(Seq<char>, u32)>,
    r: Seq<Match>,
    i: int,
)
    requires
        profiles::ranked(profiles::counted(list, counts), r),
        0 <= i < r.len(),
    ensures
        ({
            let (id, c) = (r[i].profile.id@, r[i].applied);
            ||| exists|k: int|
                {
                    &&& 0 <= k < counts.len()
                    &&& #[trigger] counts[k] == (id, c)
                    &&& forall|j: int| 0 <= j < k ==> (#[trigger] counts[j]).0 != id
                }
            ||| c == 0 && forall|j: int| 0 <= j < counts.len() ==> (#[trigger] counts[j]).0 != id
        }),
        exists|k: int|
            0 <= k < list.len() && (#[trigger] list[k]).profile == r[i].profile && list[k].kind
                == r[i].kind,
{
    let f = profiles::counted(list, counts);
    let o = choose|o: Seq<usize>|
        #![trigger order::is_permutation(o, f.len() as int)]
        {
            &&& order::is_permutation(o, f.len() as int)
            &&& r.len() == f.len()
            &&& forall|i: int| 0 <= i < r.len() ==> #[trigger] r[i] == f[o[i] as int]
            &&& forall|i: int, j: int|
                0 <= i < j < r.len() ==> profiles::better(
                    f[(#[trigger] o[i]) as int],
                    f[(#[trigger] o[j]) as int],
                ) || (!profiles::better(f[o[j] as int], f[o[i] as int]) && o[i] < o[j])
        };
    let k = o[i] as int;
    assert(0 <= k < f.len());
    assert(r[i] == f[k]);
    assert(list[k].profile == r[i].profile);
    count_is_first(counts, r[i].profile.id@);
}

/// Of the catalogue those profiles are fetched that fit the game, each as what it fits
/// by, and no other.
pub proof fn the_profiles_that_fit_are_fetched(
    index: Seq<IndexEntry>,
    uuid: Seq<char>,
    hash: Seq<char>,
    title: Seq<char>,
    k: int,
    kind: MatchKind,
)
    requires
        0 <= k < index.len(),
    ensures
        profiles::wanted(index, uuid, hash, title).contains((k, kind)) <==> profiles::fit(
            index[k].fp_uuid@,
            index[k].swf_hash@,
            index[k].title@,
            uuid,
            hash,
            title,
        ) == Some(kind),
    decreases index.len(),
{
    let d = index.drop_last();
    let (w, v) = (
        profiles::wanted(index, uuid, hash, title),
        profiles::wanted(d, uuid, hash, title),
    );
    wanted_places(d, uuid, hash, title);
    if k < d.len() {
        the_profiles_that_fit_are_fetched(d, uuid, hash, title, k, kind);
        assert(d[k] == index[k]);
        if v.contains((k, kind)) {
            let i = choose|i: int| 0 <= i < v.len() && v[i] == (k, kind);
            assert(w[i] == (k, kind));
        }
        if w.contains((k, kind)) {
            let i = choose|i: int| 0 <= i < w.len() && w[i] == (k, kind);
            assert(v[i] == (k, kind));
        }
    } else {
        if w.contains((k, kind)) {
            let i = choose|i: int| 0 <= i < w.len() && w[i] == (k, kind);
            if i < v.len() {
                assert(v[i].0 < d.len());
            }
        }
        if w.len() > v.len() {
            assert(w[v.len() as int] == w.last());
        }
    }
}

proof fn wanted_places(index: Seq<IndexEntry>, uuid: Seq<char>, hash: Seq<char>, title: Seq<char>)
    ensures
        forall|i: int|
            0 <= i < profiles::wanted(index, uuid, hash, title).len() ==> (
            #[trigger] profiles::wanted(index, uuid, hash, title)[i]).0 < index.len(),
    decreases index.len(),
{
    if index.len() > 0 {
        let d = index.drop_last();
        wanted_places(d, uuid, hash, title);
        let (w, v) = (
            profiles::wanted(index, uuid, hash, title),
            profiles::wanted(d, uuid, hash, title),
        );
        assert forall|i: int| 0 <= i < w.len() implies (#[trigger] w[i]).0 < index.len() by {
            if i < v.len() {
                assert(w[i] == v[i]);
            }
        }
    }
}

/// A game is shared under its title, without a `.swf` behind it, in either case, and
/// the blanks before that.
pub proof fn a_title_is_shared_without_its_ending(title: Seq<char>, blanks: Seq<char>, ending: Seq<char>)
    requires
        title.len() > 0,
        !text::white(title.last()),
        forall|i: int| 0 <= i < blanks.len() ==> text::white(#[trigger] blanks[i]),
        ending.len() == 4,
        ending[0] == '.',
        ending[1] == 's' || ending[1] == 'S',
        ending[2] == 'w' || ending[2] == 'W',
        ending[3] == 'f' || ending[3] == 'F',
    ensures
        profiles::shared_title(title + blanks + ending) == title,
{
    reveal_strlit(".swf");
    let s = title + blanks + ending;
    let low = text::ascii_lower(s);
    let n = s.len() as int;
    assert(s[n - 4] == ending[0] && s[n - 3] == ending[1] && s[n - 2] == ending[2] && s[n - 1]
        == ending[3]);
    assert(low.subrange(n - 4, n) =~= ".swf"@);
    assert(s.take(n - 4) =~= title + blanks);
    blanks_go(title, blanks);
}

proof fn blanks_go(title: Seq<char>, blanks: Seq<char>)
    requires
        title.len() > 0,
        !text::white(title.last()),
        forall|i: int| 0 <= i < blanks.len() ==> text::white(#[trigger] blanks[i]),
    ensures
        text::trim_end(title + blanks) == title,
    decreases blanks.len(),
{
    let s = title + blanks;
    if blanks.len() > 0 {
        assert(s.last() == blanks[blanks.len() - 1]);
        assert(s.drop_last() =~= title + blanks.drop_last());
        blanks_go(title, blanks.drop_last());
    } else {
        assert(s =~= title);
    }
}

} // verus!
