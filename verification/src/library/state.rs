//! What the library knows: the games, the imports, and where the player is.

use crate::library::gallery::Layout;
use crate::library::screen::{PendingClose, PendingNet, Screen};
use crate::loc::Settings;
use crate::net::RemoteFile;
use crate::panel::Toast;
use crate::playtime::Playtime;
use crate::profiles::Match;
use crate::text;
use vstd::prelude::*;

verus! {

/// How a movie file is packed.
#[derive(Clone, Copy, PartialEq, Eq, Structural, Debug)]
pub enum Compression {
    Fws,
    Cws,
    Zws,
}

/// The signature of a packing.
pub open spec fn signature(c: Compression) -> Seq<char> {
    match c {
        Compression::Fws => "FWS"@,
        Compression::Cws => "CWS"@,
        Compression::Zws => "ZWS"@,
    }
}

impl Compression {
    /// The signature of the packing.
    pub fn label(self) -> (r: &'static str)
        ensures
            r@ == signature(self),
    {
        match self {
            Compression::Fws => "FWS",
            Compression::Cws => "CWS",
            Compression::Zws => "ZWS",
        }
    }
}

/// The packing of a signature.
pub open spec fn packing(s: Seq<char>) -> Option<Compression> {
    if s == "FWS"@ {
        Some(Compression::Fws)
    } else if s == "CWS"@ {
        Some(Compression::Cws)
    } else if s == "ZWS"@ {
        Some(Compression::Zws)
    } else {
        None
    }
}

/// The packing of a signature.
pub fn static_compression_label(s: &str) -> (r: Option<Compression>)
    ensures
        r == packing(s@),
{
    if text::str_eq(s, "FWS") {
        Some(Compression::Fws)
    } else if text::str_eq(s, "CWS") {
        Some(Compression::Cws)
    } else if text::str_eq(s, "ZWS") {
        Some(Compression::Zws)
    } else {
        None
    }
}

/// A signature names its packing.
pub proof fn signature_round_trip(c: Compression)
    ensures
        packing(signature(c)) == Some(c),
{
    reveal_strlit("FWS");
    reveal_strlit("CWS");
    reveal_strlit("ZWS");
    assert("FWS"@[0] == 'F' && "CWS"@[0] == 'C' && "ZWS"@[0] == 'Z');
}

/// What the first bytes of a movie say.
#[derive(Clone, Copy, PartialEq, Eq, Structural, Debug)]
pub struct Header {
    pub size_bytes: u64,
    pub version: u8,
    pub compression: Compression,
    pub is_as3: bool,
}

/// A game on the card.
pub struct Entry {
    pub path: String,
    pub basename: String,
    pub display_name: String,
    pub size_bytes: u64,
    pub swf_version: u8,
    pub compression: Compression,
    /// Does the movie run on the newer engine?
    pub is_as3: bool,
    /// The hue of the game's colour, in degrees.
    pub hue: u32,
    /// When the file was written; 0 where that is not known.
    pub mtime: u64,
    /// The archive.org item that the game came from, or nothing.
    pub source_item: String,
}

impl Entry {
    /// The same game.
    pub fn copy(&self) -> (r: Entry)
        ensures
            r == *self,
    {
        Entry {
            path: self.path.clone(),
            basename: self.basename.clone(),
            display_name: self.display_name.clone(),
            size_bytes: self.size_bytes,
            swf_version: self.swf_version,
            compression: self.compression,
            is_as3: self.is_as3,
            hue: self.hue,
            mtime: self.mtime,
            source_item: self.source_item.clone(),
        }
    }
}

/// A game of the Flashpoint catalogue.
pub struct Candidate {
    pub id: String,
    pub title: String,
    pub developer: String,
    pub publisher: String,
    pub release_date: String,
    pub cover_url: String,
    pub launch_command: String,
    pub zipped: bool,
}

/// The linked files of a game that is being downloaded.
pub struct Companions {
    pub active: bool,
    pub base: String,
    pub dir: String,
    pub current: String,
    pub queue: Vec<String>,
    /// Every name that was ever queued.
    pub seen: Vec<String>,
    pub done: u32,
}

impl Companions {
    /// No linked files.
    pub fn new() -> (r: Companions)
        ensures
            r.idle(),
    {
        Companions {
            active: false,
            base: String::new(),
            dir: String::new(),
            current: String::new(),
            queue: Vec::new(),
            seen: Vec::new(),
            done: 0,
        }
    }

    /// No linked files are being fetched, and nothing is left of a fetch.
    pub open spec fn idle(&self) -> bool {
        &&& !self.active
        &&& self.base@.len() == 0
        &&& self.dir@.len() == 0
        &&& self.current@.len() == 0
        &&& self.queue@.len() == 0
        &&& self.seen@.len() == 0
        &&& self.done == 0
    }
}

/// The running download.
pub struct Download {
    pub file_name: String,
    pub out_path: String,
    pub source_url: String,
    /// The movie to unpack from the archive that is being downloaded.
    pub zip_extract: Option<String>,
    /// Is the file itself a movie of the Flashpoint catalogue?
    pub fp_direct: bool,
    pub launch_command: String,
    pub cover_url: Option<String>,
    pub title: Option<String>,
    /// The row and the scroll of the list that the download was started from.
    pub resume_pos: Option<(usize, usize)>,
    pub companions: Companions,
}

impl Download {
    /// No download.
    pub fn new() -> (r: Download)
        ensures
            r.idle(),
    {
        Download {
            file_name: String::new(),
            out_path: String::new(),
            source_url: String::new(),
            zip_extract: None,
            fp_direct: false,
            launch_command: String::new(),
            cover_url: None,
            title: None,
            resume_pos: None,
            companions: Companions::new(),
        }
    }

    /// Nothing is downloaded, and nothing is left of a download.
    pub open spec fn idle(&self) -> bool {
        &&& self.file_name@.len() == 0
        &&& self.out_path@.len() == 0
        &&& self.source_url@.len() == 0
        &&& self.zip_extract is None
        &&& !self.fp_direct
        &&& self.launch_command@.len() == 0
        &&& self.cover_url is None
        &&& self.title is None
        &&& self.resume_pos is None
        &&& self.companions.idle()
    }
}

/// The files of an item, and what came of the last import.
pub struct Remote {
    pub files: Vec<RemoteFile>,
    pub filter: Option<String>,
    pub error: String,
    /// The URL whose import failed, or nothing.
    pub failed_url: String,
    /// The names of the files that were downloaded since the start.
    pub downloaded: Vec<String>,
    /// The URL that is being fetched.
    pub pending_url: String,
}

impl Remote {
    /// Nothing was imported.
    pub fn new() -> (r: Remote)
        ensures
            r.files@.len() == 0,
            r.filter is None,
            r.error@.len() == 0,
            r.failed_url@.len() == 0,
            r.downloaded@.len() == 0,
            r.pending_url@.len() == 0,
    {
        Remote {
            files: Vec::new(),
            filter: None,
            error: String::new(),
            failed_url: String::new(),
            downloaded: Vec::new(),
            pending_url: String::new(),
        }
    }
}

/// What is known of the server behind a URL.
pub struct UrlSource {
    pub url: String,
    /// The address that serves the file itself.
    pub raw: String,
    /// Is the URL that of a movie?
    pub direct: bool,
}

/// The saved URLs, oldest first, and what is known of each.
pub struct History {
    pub urls: Vec<String>,
    /// The URL that was added or opened last.
    pub index: Option<usize>,
    /// Were the URLs read from the card, or are there none on it?
    pub loaded: bool,
    /// Per URL: how many files it holds, when it was saved, is it a favourite?
    pub meta: Vec<(String, u32, u64, bool)>,
    pub meta_loaded: bool,
    pub filter: Option<String>,
    pub sources: Vec<UrlSource>,
}

impl History {
    /// Nothing was read yet.
    pub fn new() -> (r: History)
        ensures
            r.urls@.len() == 0,
            r.index is None,
            !r.loaded,
            r.meta@.len() == 0,
            !r.meta_loaded,
            r.filter is None,
            r.sources@.len() == 0,
    {
        History {
            urls: Vec::new(),
            index: None,
            loaded: false,
            meta: Vec::new(),
            meta_loaded: false,
            filter: None,
            sources: Vec::new(),
        }
    }
}

/// The games found on Flashpoint, for a cover or for an import.
pub struct Covers {
    pub candidates: Vec<Candidate>,
    /// Are screenshots shown in place of logos?
    pub use_shot: bool,
    /// What is said where there is no list.
    pub msg: String,
    pub query: String,
    /// Is a search under way?
    pub loading: bool,
    /// Are mature games hidden?
    pub content_filter: bool,
    /// The text of the game whose details are shown.
    pub desc: String,
}

impl Covers {
    /// Nothing was searched.
    pub fn new() -> (r: Covers)
        ensures
            r.candidates@.len() == 0,
            !r.use_shot,
            r.msg@.len() == 0,
            r.query@.len() == 0,
            !r.loading,
            r.content_filter,
            r.desc@.len() == 0,
    {
        Covers {
            candidates: Vec::new(),
            use_shot: false,
            msg: String::new(),
            query: String::new(),
            loading: false,
            content_filter: true,
            desc: String::new(),
        }
    }
}

/// What is known of the keys of the game whose key menu is open.
pub struct Touches {
    pub can_revert: bool,
    pub has_backup: bool,
    /// The cursor speed preset, -1 where the game has none of its own.
    pub cursor_idx: i32,
    pub show_cursor: bool,
    pub matches: Vec<Match>,
    pub preview: Vec<String>,
    pub active_id: String,
    pub share_is_update: bool,
}

impl Touches {
    /// No key menu was opened.
    pub fn new() -> (r: Touches)
        ensures
            !r.can_revert,
            !r.has_backup,
            r.cursor_idx == -1,
            r.show_cursor,
            r.matches@.len() == 0,
            r.preview@.len() == 0,
            r.active_id@.len() == 0,
            !r.share_is_update,
    {
        Touches {
            can_revert: false,
            has_backup: false,
            cursor_idx: -1,
            show_cursor: true,
            matches: Vec::new(),
            preview: Vec::new(),
            active_id: String::new(),
            share_is_update: false,
        }
    }
}

/// The orders of the game list and of the saved URLs.
#[derive(Clone, Copy, PartialEq, Eq, Structural, Debug)]
pub struct Sorting {
    pub mode: u8,
    pub reverse: bool,
    pub import_mode: u8,
    pub import_reverse: bool,
}

/// The scrolls that the tabs go back to.
#[derive(Clone, Copy, PartialEq, Eq, Structural, Debug)]
pub struct Scroll {
    pub jouer: usize,
    pub import: usize,
}

/// The game that is or was played.
pub struct Session {
    /// Its file name and its shown name.
    pub last_played: Option<(String, String)>,
    /// When it was launched.
    pub launch_tick: Option<u64>,
    /// How many linked files it has.
    pub companions: i32,
}

impl Session {
    /// No game was played.
    pub fn new() -> (r: Session)
        ensures
            r.last_played is None,
            r.launch_tick is None,
            r.companions == 0,
    {
        Session { last_played: None, launch_tick: None, companions: 0 }
    }
}

/// The banner: its texture, 0 where there is none, and its size.
#[derive(Clone, Copy, PartialEq, Eq, Structural, Debug)]
pub struct Banner {
    pub tex: u32,
    pub w: u32,
    pub h: u32,
}

/// The library.
pub struct State {
    pub screen: Screen,
    pub entries: Vec<Entry>,
    /// The game that was picked.
    pub selected_path: Option<String>,
    /// Is there too little memory to launch a game?
    pub applet_mode: bool,
    pub local_filter: Option<String>,
    pub sorting: Sorting,
    pub scroll: Scroll,
    pub layout: Layout,
    pub session: Session,
    /// The file names of the favourite games.
    pub favorites: Vec<String>,
    pub playtime: Playtime,
    pub remote: Remote,
    pub history: History,
    pub download: Download,
    pub covers: Covers,
    pub touches: Touches,
    pub toast: Toast,
    pub bug_msg: String,
    pub bug_ok: bool,
    pub pending_close: Option<PendingClose>,
    /// A request, and whether its panel has been shown.
    pub pending_net: Option<(PendingNet, bool)>,
    /// What the panel of a request is about.
    pub net_label: String,
    /// Does the panel announce the tidying at the first start?
    pub optimizing: bool,
    /// Was it decided whether to tidy?
    pub migrations_checked: bool,
    /// Is the font of the language names in place: 0 no, 1 its panel is shown, 2 yes.
    pub lang_font: u8,
    /// The panel that the last frame showed.
    pub last_modal: u8,
    pub banner: Banner,
    /// When the library was opened.
    pub anim_origin: u64,
    pub settings: Settings,
}

impl State {
    /// The library before the card was read.
    pub fn new() -> (r: State)
        ensures
            r.screen == Screen::Inactive,
            r.entries@.len() == 0,
            r.selected_path is None,
            !r.applet_mode,
            r.local_filter is None,
            r.sorting == (Sorting {
                mode: 0,
                reverse: false,
                import_mode: 0,
                import_reverse: false,
            }),
            r.scroll == (Scroll { jouer: 0, import: 0 }),
            r.layout.cells@.len() == 0,
            r.layout.rows == 0,
            r.session.last_played is None,
            r.session.launch_tick is None,
            r.session.companions == 0,
            r.favorites@.len() == 0,
            r.playtime@.len() == 0,
            r.remote.files@.len() == 0,
            r.remote.filter is None,
            r.remote.error@.len() == 0,
            r.remote.failed_url@.len() == 0,
            r.remote.downloaded@.len() == 0,
            r.remote.pending_url@.len() == 0,
            r.history.urls@.len() == 0,
            r.history.index is None,
            !r.history.loaded,
            r.history.meta@.len() == 0,
            !r.history.meta_loaded,
            r.history.filter is None,
            r.history.sources@.len() == 0,
            r.download.idle(),
            r.covers.candidates@.len() == 0,
            !r.covers.use_shot,
            r.covers.msg@.len() == 0,
            r.covers.query@.len() == 0,
            !r.covers.loading,
            r.covers.content_filter,
            r.covers.desc@.len() == 0,
            !r.touches.can_revert,
            !r.touches.has_backup,
            r.touches.cursor_idx == -1,
            r.touches.show_cursor,
            r.touches.matches@.len() == 0,
            r.touches.preview@.len() == 0,
            r.touches.active_id@.len() == 0,
            !r.touches.share_is_update,
            r.toast.msg@.len() == 0,
            r.toast.kind == 0,
            r.toast.frames == 0,
            r.bug_msg@.len() == 0,
            !r.bug_ok,
            r.pending_close is None,
            r.pending_net is None,
            r.net_label@.len() == 0,
            !r.optimizing,
            !r.migrations_checked,
            r.lang_font == 0,
            r.last_modal == 0,
            r.banner == (Banner { tex: 0, w: 0, h: 0 }),
            r.anim_origin == 0,
            r.settings == (Settings {
                lang: crate::loc::Lang::En,
                covers_online: false,
                display_mode: 0,
                screen_filter: 0,
                home_view: 0,
            }),
    {
        State {
            screen: Screen::Inactive,
            entries: Vec::new(),
            selected_path: None,
            applet_mode: false,
            local_filter: None,
            sorting: Sorting { mode: 0, reverse: false, import_mode: 0, import_reverse: false },
            scroll: Scroll { jouer: 0, import: 0 },
            layout: Layout { cells: Vec::new(), rows: 0 },
            session: Session::new(),
            favorites: Vec::new(),
            playtime: Playtime::new(),
            remote: Remote::new(),
            history: History::new(),
            download: Download::new(),
            covers: Covers::new(),
            touches: Touches::new(),
            toast: Toast::new(),
            bug_msg: String::new(),
            bug_ok: false,
            pending_close: None,
            pending_net: None,
            net_label: String::new(),
            optimizing: false,
            migrations_checked: false,
            lang_font: 0,
            last_modal: 0,
            banner: Banner { tex: 0, w: 0, h: 0 },
            anim_origin: 0,
            settings: Settings::new(),
        }
    }
}

// ── Favourites ─────────────────────────────────────────────────────────────

/// Is `name` in the list?
pub open spec fn listed(list: Seq<String>, name: Seq<char>) -> bool {
    exists|i: int| 0 <= i < list.len() && (#[trigger] list[i])@ == name
}

/// The place of a name in a list, where it first stands.
pub fn place_of(list: &Vec<String>, name: &str) -> (r: Option<usize>)
    ensures
        match r {
            Some(i) => i < list@.len() && list@[i as int]@ == name@ && forall|k: int|
                0 <= k < i ==> (#[trigger] list@[k])@ != name@,
            None => !listed(list@, name@),
        },
{
    let mut i: usize = 0;
    while i < list.len()
        invariant
            i <= list.len(),
            forall|k: int| 0 <= k < i ==> (#[trigger] list@[k])@ != name@,
        decreases list.len() - i,
    {
        if text::str_eq(list[i].as_str(), name) {
            return Some(i);
        }
        i = i + 1;
    }
    None
}

/// Is the game a favourite?
pub fn is_favorite(favorites: &Vec<String>, basename: &str) -> (r: bool)
    ensures
        r == listed(favorites@, basename@),
{
    match place_of(favorites, basename) {
        Some(i) => {
            assert(favorites@[i as int]@ == basename@);
            true
        },
        None => false,
    }
}

/// Makes a game a favourite, or no longer one; says which.
pub fn toggle_favorite(favorites: &mut Vec<String>, basename: &str) -> (r: bool)
    ensures
        r == !listed(old(favorites)@, basename@),
        r == listed(final(favorites)@, basename@),
        forall|other: Seq<char>|
            other != basename@ ==> #[trigger] listed(final(favorites)@, other) == listed(
                old(favorites)@,
                other,
            ),
{
    let ghost before = favorites@;
    if !is_favorite(favorites, basename) {
        favorites.push(basename.to_owned());
        proof {
            let after = favorites@;
            assert(after[before.len() as int]@ == basename@);
            assert forall|other: Seq<char>| other != basename@ implies #[trigger] listed(
                after,
                other,
            ) == listed(before, other) by {
                if listed(before, other) {
                    let k = choose|k: int| 0 <= k < before.len() && (#[trigger] before[k])@ == other;
                    assert(after[k]@ == other);
                }
            }
        }
        return true;
    }
    let mut i: usize = 0;
    while i < favorites.len()
        invariant
            i <= favorites.len(),
            forall|k: int| 0 <= k < i ==> (#[trigger] favorites@[k])@ != basename@,
            forall|other: Seq<char>|
                other != basename@ ==> #[trigger] listed(favorites@, other) == listed(before, other),
        decreases favorites.len() - i,
    {
        if text::str_eq(favorites[i].as_str(), basename) {
            let ghost held = favorites@;
            favorites.remove(i);
            proof {
                let after = favorites@;
                assert forall|other: Seq<char>| other != basename@ implies #[trigger] listed(
                    after,
                    other,
                ) == listed(before, other) by {
                    assert(listed(held, other) == listed(before, other));
                    if listed(held, other) {
                        let k = choose|k: int|
                            0 <= k < held.len() && (#[trigger] held[k])@ == other;
                        if k < i {
                            assert(after[k]@ == other);
                        } else {
                            assert(after[k - 1]@ == other);
                        }
                    }
                    if listed(after, other) {
                        let k = choose|k: int|
                            0 <= k < after.len() && (#[trigger] after[k])@ == other;
                        if k < i {
                            assert(held[k]@ == other);
                        } else {
                            assert(held[k + 1]@ == other);
                        }
                    }
                }
            }
        } else {
            i = i + 1;
        }
    }
    false
}

} // verus!
