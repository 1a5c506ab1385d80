//! What panels and toasts say, for the library and for the menu in a game.

use crate::digits;
use crate::loc::strings::Strings;
use crate::parts;
use crate::profiles::{Match, Profile};
use crate::text;
use vstd::prelude::*;

verus! {

// ── Toasts ─────────────────────────────────────────────────────────────────

/// A short message over the screen, gone after some frames.
pub struct Toast {
    pub msg: String,
    pub kind: u8,
    pub frames: u32,
}

/// A success, a failure, a notice.
pub const TOAST_OK: u8 = 0;

pub const TOAST_ERR: u8 = 1;

pub const TOAST_INFO: u8 = 2;

/// How many frames a toast stays.
pub const TOAST_FRAMES: u32 = 150;

/// The toast says `msg` from now on.
pub open spec fn says(t: Toast, msg: Seq<char>, kind: u8) -> bool {
    t.msg@ == msg && t.kind == kind && t.frames == TOAST_FRAMES
}

impl Toast {
    /// No message.
    pub fn new() -> (r: Toast)
        ensures
            r.msg@.len() == 0,
            r.kind == 0,
            r.frames == 0,
    {
        Toast { msg: String::new(), kind: 0, frames: 0 }
    }

    /// A message, from now on.
    pub fn saying(msg: String, kind: u8) -> (r: Toast)
        ensures
            says(r, msg@, kind),
    {
        Toast { msg, kind, frames: TOAST_FRAMES }
    }

    /// A message in success or in failure.
    pub fn result(msg: &str, ok: bool) -> (r: Toast)
        ensures
            says(
                r,
                msg@,
                if ok {
                    TOAST_OK
                } else {
                    TOAST_ERR
                },
            ),
    {
        Toast {
            msg: msg.to_owned(),
            kind: if ok {
                TOAST_OK
            } else {
                TOAST_ERR
            },
            frames: TOAST_FRAMES,
        }
    }

    /// One frame passes; what is shown in it.
    pub fn tick(&mut self) -> (r: Option<(String, u8)>)
        ensures
            final(self).msg == old(self).msg,
            final(self).kind == old(self).kind,
            old(self).frames == 0 ==> r is None && final(self).frames == 0,
            old(self).frames > 0 ==> final(self).frames == old(self).frames - 1 && (r matches Some(
                t,
            ) && t.0@ == old(self).msg@ && t.1 == old(self).kind),
    {
        if self.frames > 0 {
            self.frames = self.frames - 1;
            Some((self.msg.clone(), self.kind))
        } else {
            None
        }
    }
}

// ── Panels ─────────────────────────────────────────────────────────────────

/// A panel of rows: title, line below it, the row with the cursor, rows, footer.
pub struct Panel {
    pub title: String,
    pub subtitle: String,
    pub selection: Option<usize>,
    pub rows: Vec<String>,
    pub footer: String,
    pub wide: bool,
}

/// What a panel says.
pub open spec fn shows(
    p: Panel,
    title: Seq<char>,
    subtitle: Seq<char>,
    selection: Option<usize>,
    rows: Seq<Seq<char>>,
    footer: Seq<char>,
    wide: bool,
) -> bool {
    &&& p.title@ == title
    &&& p.subtitle@ == subtitle
    &&& p.selection == selection
    &&& text::texts(p.rows@) == rows
    &&& p.footer@ == footer
    &&& p.wide == wide
}

/// Copies of a list of strings.
pub fn copy_strings(v: &Vec<String>) -> (r: Vec<String>)
    ensures
        text::texts(r@) == text::texts(v@),
        r@.len() == v@.len(),
{
    let mut out: Vec<String> = Vec::new();
    let mut i: usize = 0;
    while i < v.len()
        invariant
            i <= v.len(),
            out.len() == i,
            forall|k: int| 0 <= k < i ==> (#[trigger] out@[k])@ == v@[k]@,
        decreases v.len() - i,
    {
        out.push(v[i].clone());
        i = i + 1;
    }
    assert(text::texts(out@) =~= text::texts(v@));
    out
}

/// `name: value`.
pub open spec fn labelled(name: Seq<char>, value: Seq<char>) -> Seq<char> {
    name + ": "@ + value
}

/// `name: value`.
pub fn label(name: &str, value: &str) -> (r: String)
    ensures
        r@ == labelled(name@, value@),
{
    parts::concat3(name, ": ", value)
}

/// A speed in tenths, as `x1.5`.
pub open spec fn speed_text(x10: int) -> Seq<char> {
    "x"@ + digits::decimal((x10 / 10) as nat) + "."@ + digits::decimal((x10 % 10) as nat)
}

/// A speed in tenths, as `x1.5`.
pub fn speed(x10: u32) -> (r: String)
    ensures
        r@ == speed_text(x10 as int),
{
    let whole: String = digits::dec((x10 / 10) as u64);
    let tenth: String = digits::dec((x10 % 10) as u64);
    let mut out: String = parts::concat3("x", whole.as_str(), ".");
    out.append(tenth.as_str());
    out
}

/// The rows of the key menu: edit, apply, share, cursor speed, cursor shown, and
/// the revert where there is something to revert to.
pub open spec fn touches_rows(
    lc: Strings,
    speed_x10: int,
    shown: bool,
    can_revert: bool,
    has_backup: bool,
) -> Seq<Seq<char>> {
    let fixed = seq![
        lc.touches_edit@,
        lc.opt_apply@,
        lc.opt_share@,
        labelled(lc.set_cursor_speed@, speed_text(speed_x10)),
        labelled(
            lc.show_cursor@,
            if shown {
                lc.cursor_shown@
            } else {
                lc.cursor_hidden@
            },
        ),
    ];
    if can_revert {
        fixed.push(
            if has_backup {
                lc.profile_revert@
            } else {
                lc.touches_revert_default@
            },
        )
    } else {
        fixed
    }
}

/// The panel of the key menu.
pub fn touches_panel(
    lc: &Strings,
    game: &str,
    selection: usize,
    speed_x10: u32,
    shown: bool,
    can_revert: bool,
    has_backup: bool,
) -> (r: Panel)
    ensures
        shows(
            r,
            lc.opt_keys@,
            game@,
            Some(selection),
            touches_rows(*lc, speed_x10 as int, shown, can_revert, has_backup),
            lc.touches_footer@,
            false,
        ),
{
    let mut rows: Vec<String> = Vec::new();
    rows.push(lc.touches_edit.to_owned());
    rows.push(lc.opt_apply.to_owned());
    rows.push(lc.opt_share.to_owned());
    let v: String = speed(speed_x10);
    rows.push(label(lc.set_cursor_speed, v.as_str()));
    let state: &str = if shown {
        lc.cursor_shown
    } else {
        lc.cursor_hidden
    };
    rows.push(label(lc.show_cursor, state));
    if can_revert {
        let l: &str = if has_backup {
            lc.profile_revert
        } else {
            lc.touches_revert_default
        };
        rows.push(l.to_owned());
    }
    assert(text::texts(rows@) =~= touches_rows(
        *lc,
        speed_x10 as int,
        shown,
        can_revert,
        has_backup,
    ));
    Panel {
        title: lc.opt_keys.to_owned(),
        subtitle: game.to_owned(),
        selection: Some(selection),
        rows,
        footer: lc.touches_footer.to_owned(),
        wide: false,
    }
}

/// How a profile is named: its game, and who shared it.
pub open spec fn profile_name(p: Profile) -> Seq<char> {
    if p.author@.len() == 0 {
        p.game.title@
    } else {
        p.game.title@ + " - "@ + p.author@
    }
}

/// How a profile is named.
pub fn name_of_profile(p: &Profile) -> (r: String)
    ensures
        r@ == profile_name(*p),
{
    if p.author.unicode_len() == 0 {
        p.game.title.clone()
    } else {
        parts::concat3(p.game.title.as_str(), " - ", p.author.as_str())
    }
}

/// The row of a profile; the one in use is marked.
pub open spec fn profile_row(lc: Strings, m: Match, active: Seq<char>) -> Seq<char> {
    if active.len() > 0 && m.profile.id@ == active {
        profile_name(m.profile) + " "@ + lc.profile_active@
    } else {
        profile_name(m.profile)
    }
}

/// The rows of the profile list. Where there is none, why: the catalogue could
/// not be read, or nobody shared one.
pub open spec fn profile_rows(
    lc: Strings,
    matches: Seq<Match>,
    active: Seq<char>,
    unavailable: bool,
) -> Seq<Seq<char>> {
    if matches.len() == 0 {
        seq![
            if unavailable {
                lc.profile_catalog_offline@
            } else {
                lc.profile_none@
            },
        ]
    } else {
        Seq::new(matches.len(), |i: int| profile_row(lc, matches[i], active))
    }
}

/// The footer of the profile list; on an own profile it tells how to delete it.
pub open spec fn profile_footer(lc: Strings, mine: bool) -> Seq<char> {
    if mine {
        lc.profile_footer@ + "   "@ + lc.profile_del_hint@
    } else {
        lc.profile_footer@
    }
}

/// The profile at `i` was shared by this installation.
pub open spec fn mine_at(matches: Seq<Match>, i: int, install: Seq<char>) -> bool {
    0 <= i < matches.len() && crate::profiles::shared_by(matches[i].profile.id@, install)
}

/// Was the profile at `i` shared by this installation?
pub fn is_mine_at(matches: &Vec<Match>, i: usize, install: &str) -> (r: bool)
    ensures
        r == mine_at(matches@, i as int, install@),
{
    i < matches.len() && crate::profiles::is_mine(matches[i].profile.id.as_str(), install)
}

/// The panel of the profile list.
pub fn profiles_panel(
    lc: &Strings,
    game: &str,
    selection: usize,
    matches: &Vec<Match>,
    active: &str,
    unavailable: bool,
    install: &str,
) -> (r: Panel)
    ensures
        shows(
            r,
            lc.profile_title@,
            game@,
            Some(selection),
            profile_rows(*lc, matches@, active@, unavailable),
            profile_footer(*lc, mine_at(matches@, selection as int, install@)),
            true,
        ),
{
    let mut rows: Vec<String> = Vec::new();
    let a: Vec<char> = text::chars_of(active);
    if matches.len() == 0 {
        let l: &str = if unavailable {
            lc.profile_catalog_offline
        } else {
            lc.profile_none
        };
        rows.push(l.to_owned());
        assert(text::texts(rows@) =~= profile_rows(*lc, matches@, active@, unavailable));
    } else {
        let mut i: usize = 0;
        while i < matches.len()
            invariant
                i <= matches.len(),
                a@ == active@,
                rows.len() == i,
                forall|k: int|
                    0 <= k < i ==> (#[trigger] rows@[k])@ == profile_row(*lc, matches@[k], active@),
            decreases matches.len() - i,
        {
            let name: String = name_of_profile(&matches[i].profile);
            let row: String = if a.len() > 0 && text::str_eq(
                matches[i].profile.id.as_str(),
                active,
            ) {
                parts::concat3(name.as_str(), " ", lc.profile_active)
            } else {
                name
            };
            rows.push(row);
            i = i + 1;
        }
        assert(text::texts(rows@) =~= profile_rows(*lc, matches@, active@, unavailable));
    }
    let footer: String = if is_mine_at(matches, selection, install) {
        parts::concat3(lc.profile_footer, "   ", lc.profile_del_hint)
    } else {
        lc.profile_footer.to_owned()
    };
    Panel {
        title: lc.profile_title.to_owned(),
        subtitle: game.to_owned(),
        selection: Some(selection),
        rows,
        footer,
        wide: true,
    }
}

/// The panel that asks whether a shared profile is to be deleted.
pub fn delete_profile_panel(lc: &Strings, matches: &Vec<Match>, i: usize) -> (r: Panel)
    ensures
        shows(
            r,
            lc.profile_del_confirm@,
            Seq::empty(),
            None,
            seq![
                if i < matches@.len() {
                    profile_name(matches@[i as int].profile)
                } else {
                    Seq::empty()
                },
            ],
            lc.del_footer@,
            true,
        ),
{
    let name: String = if i < matches.len() {
        name_of_profile(&matches[i].profile)
    } else {
        let e: String = String::new();
        assert(e@ =~= Seq::empty());
        e
    };
    let mut rows: Vec<String> = Vec::new();
    rows.push(name);
    assert(text::texts(rows@) =~= seq![name@]);
    let subtitle: String = String::new();
    assert(subtitle@ =~= Seq::empty());
    Panel {
        title: lc.profile_del_confirm.to_owned(),
        subtitle,
        selection: None,
        rows,
        footer: lc.del_footer.to_owned(),
        wide: true,
    }
}

/// The rows of a preview; where nothing changes, that nothing changes.
pub open spec fn preview_lines(lc: Strings, rows: Seq<Seq<char>>) -> Seq<Seq<char>> {
    if rows.len() == 0 {
        seq![lc.profile_preview_none@]
    } else {
        rows
    }
}

/// A panel of preview rows, without a cursor.
pub fn preview_panel(
    lc: &Strings,
    title: &str,
    subtitle: &str,
    preview: &Vec<String>,
    footer: &str,
) -> (r: Panel)
    ensures
        shows(
            r,
            title@,
            subtitle@,
            None,
            preview_lines(*lc, text::texts(preview@)),
            footer@,
            true,
        ),
{
    let mut rows: Vec<String> = copy_strings(preview);
    if rows.len() == 0 {
        rows.push(lc.profile_preview_none.to_owned());
        assert(text::texts(rows@) =~= seq![lc.profile_preview_none@]);
    }
    Panel {
        title: title.to_owned(),
        subtitle: subtitle.to_owned(),
        selection: None,
        rows,
        footer: footer.to_owned(),
        wide: true,
    }
}

/// The line under the title when keys are to be shared.
pub open spec fn share_subtitle(lc: Strings, update: bool) -> Seq<char> {
    if update {
        lc.share_confirm_update@
    } else {
        lc.profile_share_confirm@
    }
}

/// The panel that asks whether keys are to be shared.
pub fn share_panel(lc: &Strings, update: bool, preview: &Vec<String>) -> (r: Panel)
    ensures
        shows(
            r,
            lc.opt_share@,
            share_subtitle(*lc, update),
            None,
            preview_lines(*lc, text::texts(preview@)),
            lc.lang_footer@,
            true,
        ),
{
    let subtitle: &str = if update {
        lc.share_confirm_update
    } else {
        lc.profile_share_confirm
    };
    preview_panel(lc, lc.opt_share, subtitle, preview, lc.lang_footer)
}

/// The first match that is in use: its keys are the game's keys, or the game's
/// keys say that they come from it.
pub open spec fn in_use(matches: Seq<Match>, same: Seq<bool>, source: Seq<char>, i: int) -> bool {
    (i < same.len() && same[i]) || (source.len() > 0 && matches[i].profile.id@ == source)
}

/// The id of the first match that is in use, or nothing.
pub open spec fn active_of(matches: Seq<Match>, same: Seq<bool>, source: Seq<char>, from: int) -> Seq<
    char,
>
    decreases matches.len() - from,
{
    if from < 0 || from >= matches.len() {
        Seq::empty()
    } else if in_use(matches, same, source, from) {
        matches[from].profile.id@
    } else {
        active_of(matches, same, source, from + 1)
    }
}

/// The first of the profiles that this installation shared.
pub open spec fn own_match(matches: Seq<Match>, install: Seq<char>, from: int) -> Option<int>
    decreases matches.len() - from,
{
    if from < 0 || from >= matches.len() {
        None
    } else if text::ends(matches[from].profile.id@, "-"@ + install) {
        Some(from)
    } else {
        own_match(matches, install, from + 1)
    }
}

/// The profile that sharing would replace.
pub fn find_own_match(matches: &Vec<Match>, install: &str) -> (r: Option<usize>)
    ensures
        match r {
            Some(i) => i < matches@.len() && own_match(matches@, install@, 0) == Some(i as int),
            None => own_match(matches@, install@, 0) == None::<int>,
        },
{
    let suffix: String = parts::concat("-", install);
    let mut i: usize = 0;
    while i < matches.len()
        invariant
            i <= matches.len(),
            suffix@ == "-"@ + install@,
            own_match(matches@, install@, 0) == own_match(matches@, install@, i as int),
        decreases matches.len() - i,
    {
        if text::ends_with(matches[i].profile.id.as_str(), suffix.as_str()) {
            return Some(i);
        }
        i = i + 1;
    }
    None
}

/// The id of the profile that keys say they are from, or nothing.
pub open spec fn source_id(provenance: Seq<char>) -> Seq<char> {
    match parts::without_prefix(provenance, "community:"@) {
        Some(id) => id,
        None => Seq::empty(),
    }
}

/// The id of the profile that is in use. `same` says of each match whether its
/// keys are the game's; `provenance` is where the game's keys say they are from.
pub fn active_id(matches: &Vec<Match>, same: &Vec<bool>, provenance: &str) -> (r: String)
    ensures
        r@ == active_of(matches@, same@, source_id(provenance@), 0),
{
    let source: String = match parts::strip_prefix(provenance, "community:") {
        Some(id) => id,
        None => {
            let e: String = String::new();
            assert(e@ =~= Seq::empty());
            e
        },
    };
    let mut i: usize = 0;
    while i < matches.len()
        invariant
            i <= matches.len(),
            source@ == source_id(provenance@),
            active_of(matches@, same@, source@, 0) == active_of(
                matches@,
                same@,
                source@,
                i as int,
            ),
        decreases matches.len() - i,
    {
        if (i < same.len() && same[i]) || (source.unicode_len() > 0 && text::str_eq(
            matches[i].profile.id.as_str(),
            source.as_str(),
        )) {
            return matches[i].profile.id.clone();
        }
        i = i + 1;
    }
    let r: String = String::new();
    assert(r@ =~= Seq::empty());
    r
}

} // verus!
