//! The screens of the library, the buttons, and what is asked of the outside.

use crate::text;
use vstd::prelude::*;

verus! {

/// What the library shows.
#[derive(Clone, Copy, PartialEq, Eq, Structural, Debug)]
pub enum Screen {
    /// Before the first list and after a game was picked.
    Inactive,
    /// There is no game on the card.
    Empty,
    /// The games; `selection` is a row of the filtered list.
    List { selection: usize, scroll_offset: usize },
    /// The options of one game.
    OptionsModal { game_idx: usize, selection: usize },
    /// A game was picked.
    Picked,
    /// The cover opens before the game is loaded.
    Launching { selection: usize, scroll_offset: usize },
    /// There is too little memory to launch a game.
    AppletNotice { selection: usize, scroll_offset: usize },
    /// The program ends.
    Quit,
    /// The key editor of one game.
    TouchesEditor { game_idx: usize },
    /// Is the game to be deleted?
    DeleteConfirm { game_idx: usize },
    /// The covers found for a game.
    CoverPicker { game_idx: usize, selection: usize },
    /// The games found on Flashpoint.
    FpGallery { selection: usize, scroll: usize },
    /// The details of a game found on Flashpoint.
    FpDetails { selection: usize, scroll: usize, size: u64 },
    /// The orders of the game list.
    SortModal { selection: usize, prev_sel: usize, prev_scroll: usize },
    /// The orders of one of the import lists.
    RemoteSortModal {
        selection: usize,
        kind: u8,
        reverse: bool,
        prev_sel: usize,
        prev_scroll: usize,
    },
    /// The saved URLs; row 0 adds one.
    DistantIdle { selection: usize, scroll_offset: usize },
    /// The files of an item are being fetched.
    DistantLoading,
    /// The files of an item.
    DistantFiles { selection: usize, scroll_offset: usize },
    /// A download runs.
    DistantDownloading,
    /// An import failed.
    DistantError,
    /// Is the saved URL to be removed?
    DistantHistoryConfirm,
    /// The options of a saved URL.
    DistantUrlOptions { url_idx: usize, selection: usize },
    /// The settings tab.
    SettingsModal { selection: usize },
    /// The editor of the default keys.
    SettingsKeymapEditor,
    /// The languages.
    SettingsLanguagePicker { selection: usize },
    /// The defaults for games.
    SettingsPrefsModal { selection: usize },
    /// Which game has the bug?
    BugPicker { selection: usize, scroll_offset: usize },
    /// What became of a report.
    BugResult,
    /// All about the keys of one game.
    TouchesMenu { game_idx: usize, selection: usize },
    /// The shared key profiles for a game.
    ProfileList { game_idx: usize, selection: usize },
    /// What a profile would change.
    ProfilePreview { game_idx: usize, profile_idx: usize },
    /// What a revert would change.
    RevertPreview { game_idx: usize },
    /// Are the keys to be shared?
    ProfileShareConfirm { game_idx: usize },
    /// Is the shared profile to be deleted?
    ProfileDeleteConfirm { game_idx: usize, profile_idx: usize },
    /// A request is about to be made.
    ProfileLoading,
}

/// A button, or a direction of the left stick, which counts as the button.
#[derive(Clone, Copy, PartialEq, Eq, Structural, Debug)]
pub enum Button {
    Up,
    Down,
    Left,
    Right,
    A,
    B,
    X,
    Y,
    L,
    R,
    Plus,
    Minus,
    BothTriggers,
    Other,
}

/// The button of a name.
pub open spec fn button_named(s: Seq<char>) -> Button {
    if s == "Up"@ || s == "StickLUp"@ {
        Button::Up
    } else if s == "Down"@ || s == "StickLDown"@ {
        Button::Down
    } else if s == "Left"@ || s == "StickLLeft"@ {
        Button::Left
    } else if s == "Right"@ || s == "StickLRight"@ {
        Button::Right
    } else if s == "A"@ {
        Button::A
    } else if s == "B"@ {
        Button::B
    } else if s == "X"@ {
        Button::X
    } else if s == "Y"@ {
        Button::Y
    } else if s == "L"@ {
        Button::L
    } else if s == "R"@ {
        Button::R
    } else if s == "Plus"@ {
        Button::Plus
    } else if s == "Minus"@ {
        Button::Minus
    } else if s == "ZL+ZR"@ {
        Button::BothTriggers
    } else {
        Button::Other
    }
}

/// The button of a name.
pub fn button_of(s: &str) -> (r: Button)
    ensures
        r == button_named(s@),
{
    if text::str_eq(s, "Up") || text::str_eq(s, "StickLUp") {
        Button::Up
    } else if text::str_eq(s, "Down") || text::str_eq(s, "StickLDown") {
        Button::Down
    } else if text::str_eq(s, "Left") || text::str_eq(s, "StickLLeft") {
        Button::Left
    } else if text::str_eq(s, "Right") || text::str_eq(s, "StickLRight") {
        Button::Right
    } else if text::str_eq(s, "A") {
        Button::A
    } else if text::str_eq(s, "B") {
        Button::B
    } else if text::str_eq(s, "X") {
        Button::X
    } else if text::str_eq(s, "Y") {
        Button::Y
    } else if text::str_eq(s, "L") {
        Button::L
    } else if text::str_eq(s, "R") {
        Button::R
    } else if text::str_eq(s, "Plus") {
        Button::Plus
    } else if text::str_eq(s, "Minus") {
        Button::Minus
    } else if text::str_eq(s, "ZL+ZR") {
        Button::BothTriggers
    } else {
        Button::Other
    }
}

/// What the outside has to do after an event: show a keyboard, make a request,
/// write a file, start an animation. Indices are those of the state.
#[derive(Clone, Copy, PartialEq, Eq, Structural, Debug)]
pub enum Effect {
    Nothing,
    /// The tab's content slides in, from the left or from the right.
    SlideTab { left: bool },
    /// The panel on the screen opens.
    OpenPanel,
    /// The panel on the screen closes; then `close_finished`.
    ClosePanel,
    /// The list is a new one: no glide from the old place.
    ResetGallery,
    /// The home layout changed: keep the settings, drop the old layout's motion.
    SaveHomeView,
    /// Keep the settings.
    SaveSettings,
    /// Keep the settings with the language of that number.
    SaveLanguage { index: usize },
    /// Step the cursor speed outside a game.
    CycleCursorSpeed,
    /// Edit the default keys.
    EditDefaultKeys,
    /// Edit a game's keys.
    EditKeys { game_idx: usize },
    /// Look up what is known of a game's keys, then `goto_touches_menu`.
    EnterTouches { game_idx: usize, selection: usize },
    /// As `EnterTouches`, and the panel opens.
    ReturnToTouches { game_idx: usize },
    /// Keep a game's cursor speed.
    SetCursorSpeed { game_idx: usize, speed: i32 },
    /// Flip whether a game shows its cursor.
    ToggleShowCursor { game_idx: usize },
    /// Build the preview of a profile, then `preview_built`.
    OpenPreview { game_idx: usize, profile_idx: usize },
    /// Build what sharing would send, then `share_preview_built`.
    OpenShareConfirm { game_idx: usize },
    /// Build the preview of a revert, then `revert_preview_built`.
    OpenRevertPreview { game_idx: usize },
    /// Revert a game's keys, then `reverted`.
    Revert { game_idx: usize },
    /// Ask for a new name, then `renamed`.
    Rename { game_idx: usize },
    /// Search a game's cover by its name, then `cover_results`.
    SearchCover { game_idx: usize },
    /// Ask for another search term, then `cover_results`.
    RefineCover { game_idx: usize },
    /// Fetch a cover, then `cover_fetched`.
    FetchCover { game_idx: usize, selection: usize },
    /// Pictures that are on their way are no longer wanted.
    CancelThumbs,
    /// Ask for a term, then `fp_search_started`.
    SearchFlashpoint,
    /// Search again with the other filter, then `fp_search_started`.
    SearchAgain,
    /// Ask for a filter of the saved URLs, then `import_searched`.
    SearchHistory,
    /// Ask for a filter of the files, then `remote_searched`.
    SearchRemote,
    /// Ask for a filter of the games, then `local_searched`.
    SearchLocal,
    /// Ask for a URL, then `plan_fetch`.
    AddUrl,
    /// Import a saved URL: `plan_fetch`.
    FetchUrl { url_idx: usize, row: usize, scroll: usize },
    /// Ask for the failed URL again, then `url_fixed`.
    FixUrl,
    /// Ask for a saved URL again, then `url_edited`.
    EditUrl { url_idx: usize },
    /// Download a remote file: `remote_download`, then `remote_download_started`.
    DownloadRemote { file_idx: usize, selection: usize, scroll: usize },
    /// Download a game of the gallery: `fp_download`, then `fp_download_started`.
    DownloadFp { selection: usize, scroll: usize },
    /// Look up a game's size and text, then `fp_details`.
    FpInfo { selection: usize, scroll: usize },
    /// The running fetch is no longer wanted.
    CancelFetch,
    /// The running download is no longer wanted.
    CancelDownload,
    /// The file list closes; then `collapse_finished`.
    CollapseRemote,
    /// Keep the saved URLs' side data.
    SaveMeta,
    /// Keep the order of the game list.
    SaveSort,
    /// Keep the order of the saved URLs.
    SaveImportSort,
    /// Keep the favourites.
    SaveFavorites,
    /// The cover opens and the game is loaded behind it; `launched`.
    Launch { game_idx: usize },
    /// Ask what the bug is and send the report, then `report_sent`.
    ReportBug { game_idx: usize },
    /// Ask for a proposal and send it, then `report_sent`.
    Suggest,
    /// Ask for the nickname, then `pseudo_set`.
    SetPseudo,
}

/// What happens when a panel has closed.
#[derive(Clone, Copy, PartialEq, Eq, Structural, Debug)]
pub enum PendingClose {
    Goto(Screen),
    /// The key editor closes too.
    CloseMenuGoto(Screen),
    DeleteGame { game_idx: usize },
    DeleteHistory,
}

/// A request that is made once its panel has been shown.
#[derive(Clone, Copy, PartialEq, Eq, Structural, Debug)]
pub enum PendingNet {
    OpenProfiles { game_idx: usize },
    OpenShareConfirm { game_idx: usize },
    ShareProfile { game_idx: usize },
    ApplyProfile { game_idx: usize, profile_idx: usize },
    DeleteProfile { game_idx: usize, profile_idx: usize },
    RunStartupMigrations,
}

// ── Rows of the options ────────────────────────────────────────────────────

/// The rows of a game's options: favourite, keys, rename, cover, delete.
pub const OPTIONS_ROWS: usize = 5;

pub const OPTION_FAVORITE: usize = 0;

pub const OPTION_KEYS: usize = 1;

pub const OPTION_RENAME: usize = 2;

pub const OPTION_COVER: usize = 3;

pub const OPTION_DELETE: usize = 4;

// ── Tabs ───────────────────────────────────────────────────────────────────

/// The tabs, switched by the shoulder buttons.
#[derive(Clone, Copy, PartialEq, Eq, Structural, Debug)]
pub enum Tab {
    Jouer,
    Importer,
    Reglages,
}

/// The place of a tab in the bar.
pub open spec fn tab_index(t: Tab) -> int {
    match t {
        Tab::Jouer => 0,
        Tab::Importer => 1,
        Tab::Reglages => 2,
    }
}

/// The tab to the right, and around.
pub open spec fn tab_next(t: Tab) -> Tab {
    match t {
        Tab::Jouer => Tab::Importer,
        Tab::Importer => Tab::Reglages,
        Tab::Reglages => Tab::Jouer,
    }
}

/// The tab to the left, and around.
pub open spec fn tab_prev(t: Tab) -> Tab {
    match t {
        Tab::Jouer => Tab::Reglages,
        Tab::Importer => Tab::Jouer,
        Tab::Reglages => Tab::Importer,
    }
}

/// A step to the right and a step to the left cancel, three steps go round, and
/// the places follow each other.
pub proof fn tabs_go_round(t: Tab)
    ensures
        tab_prev(tab_next(t)) == t,
        tab_next(tab_prev(t)) == t,
        tab_next(tab_next(tab_next(t))) == t,
        tab_index(tab_next(t)) == (tab_index(t) + 1) % 3,
{
}

impl Tab {
    /// The place of the tab in the bar.
    pub fn index(self) -> (r: usize)
        ensures
            r == tab_index(self),
    {
        match self {
            Tab::Jouer => 0,
            Tab::Importer => 1,
            Tab::Reglages => 2,
        }
    }

    /// The tab to the right, and around.
    pub fn next(self) -> (r: Tab)
        ensures
            r == tab_next(self),
    {
        match self {
            Tab::Jouer => Tab::Importer,
            Tab::Importer => Tab::Reglages,
            Tab::Reglages => Tab::Jouer,
        }
    }

    /// The tab to the left, and around.
    pub fn prev(self) -> (r: Tab)
        ensures
            r == tab_prev(self),
    {
        match self {
            Tab::Jouer => Tab::Reglages,
            Tab::Importer => Tab::Jouer,
            Tab::Reglages => Tab::Importer,
        }
    }
}

/// The tab whose home a screen is.
pub open spec fn tab_of(s: Screen) -> Option<Tab> {
    match s {
        Screen::List { .. } => Some(Tab::Jouer),
        Screen::Empty => Some(Tab::Jouer),
        Screen::DistantIdle { .. } => Some(Tab::Importer),
        Screen::SettingsModal { .. } => Some(Tab::Reglages),
        _ => None,
    }
}

/// The tab whose home a screen is; other screens have none.
pub fn screen_tab(screen: Screen) -> (r: Option<Tab>)
    ensures
        r == tab_of(screen),
{
    match screen {
        Screen::List { .. } => Some(Tab::Jouer),
        Screen::Empty => Some(Tab::Jouer),
        Screen::DistantIdle { .. } => Some(Tab::Importer),
        Screen::SettingsModal { .. } => Some(Tab::Reglages),
        _ => None,
    }
}

// ── Panels ─────────────────────────────────────────────────────────────────

/// The number of a screen that is a panel, 0 for the others. `menu` is the
/// number of the key editor's own screen.
pub open spec fn panel(s: Screen, menu: int) -> int {
    match s {
        Screen::OptionsModal { .. } => 1,
        Screen::DeleteConfirm { .. } => 2,
        Screen::CoverPicker { .. } => 3,
        Screen::SettingsLanguagePicker { .. } => 4,
        Screen::SettingsPrefsModal { .. } => 10,
        Screen::DistantUrlOptions { .. } => 5,
        Screen::DistantHistoryConfirm => 6,
        Screen::TouchesEditor { .. } => 70 + menu,
        Screen::SettingsKeymapEditor => 80 + menu,
        Screen::SortModal { .. } => 9,
        Screen::RemoteSortModal { .. } => 10,
        Screen::FpDetails { .. } => 11,
        Screen::TouchesMenu { .. } => 12,
        Screen::ProfileList { .. } => 13,
        Screen::ProfilePreview { .. } => 14,
        Screen::RevertPreview { .. } => 15,
        Screen::ProfileShareConfirm { .. } => 16,
        Screen::ProfileDeleteConfirm { .. } => 17,
        _ => 0,
    }
}

/// The number of a screen that is a panel, 0 for the others.
pub fn modal_kind(screen: Screen, menu_kind: u8) -> (r: u8)
    requires
        menu_kind <= 9,
    ensures
        r == panel(screen, menu_kind as int),
{
    match screen {
        Screen::OptionsModal { .. } => 1,
        Screen::DeleteConfirm { .. } => 2,
        Screen::CoverPicker { .. } => 3,
        Screen::SettingsLanguagePicker { .. } => 4,
        Screen::SettingsPrefsModal { .. } => 10,
        Screen::DistantUrlOptions { .. } => 5,
        Screen::DistantHistoryConfirm => 6,
        Screen::TouchesEditor { .. } => 70 + menu_kind,
        Screen::SettingsKeymapEditor => 80 + menu_kind,
        Screen::SortModal { .. } => 9,
        Screen::RemoteSortModal { .. } => 10,
        Screen::FpDetails { .. } => 11,
        Screen::TouchesMenu { .. } => 12,
        Screen::ProfileList { .. } => 13,
        Screen::ProfilePreview { .. } => 14,
        Screen::RevertPreview { .. } => 15,
        Screen::ProfileShareConfirm { .. } => 16,
        Screen::ProfileDeleteConfirm { .. } => 17,
        _ => 0,
    }
}

/// The panels that close before the screen behind them comes back.
pub open spec fn closes_first(kind: int) -> bool {
    kind == 1 || kind == 3 || kind == 4 || kind == 5 || kind == 9 || kind == 10 || kind == 11
}

/// Does the panel close before the screen behind it comes back?
pub fn modal_close_deferred(kind: u8) -> (r: bool)
    ensures
        r == closes_first(kind as int),
{
    matches!(kind, 1 | 3 | 4 | 5 | 9 | 10 | 11)
}

// ── Moving a cursor ────────────────────────────────────────────────────────

/// One row up, from the first to the last.
pub open spec fn up_in(sel: int, last: int) -> int {
    if sel == 0 {
        last
    } else {
        sel - 1
    }
}

/// One row down, from the last to the first.
pub open spec fn down_in(sel: int, last: int) -> int {
    if sel >= last {
        0
    } else {
        sel + 1
    }
}

/// One row up, from the first to the last.
pub fn wrap_up(sel: usize, last: usize) -> (r: usize)
    ensures
        r == up_in(sel as int, last as int),
{
    if sel == 0 {
        last
    } else {
        sel - 1
    }
}

/// One row down, from the last to the first.
pub fn wrap_down(sel: usize, last: usize) -> (r: usize)
    ensures
        r == down_in(sel as int, last as int),
{
    if sel >= last {
        0
    } else {
        sel + 1
    }
}

/// On the rows `0..=last` a step down and a step up cancel.
pub proof fn wrapping_cancels(sel: int, last: int)
    requires
        0 <= sel <= last,
    ensures
        0 <= up_in(sel, last) <= last,
        0 <= down_in(sel, last) <= last,
        up_in(down_in(sel, last), last) == sel,
        down_in(up_in(sel, last), last) == sel,
{
}

/// The scroll that is nearest to `scroll` and shows row `sel` among `rows` rows.
pub open spec fn scrolled_to(scroll: int, sel: int, rows: int) -> int {
    if sel < scroll {
        sel
    } else if sel >= scroll + rows {
        sel + 1 - rows
    } else {
        scroll
    }
}

/// The scroll that is nearest to `scroll` and shows `selection`.
pub fn clamp_scroll(scroll: usize, selection: usize, visible_rows: usize) -> (r: usize)
    requires
        visible_rows >= 1,
    ensures
        r == scrolled_to(scroll as int, selection as int, visible_rows as int),
{
    if selection < scroll {
        selection
    } else if selection - scroll >= visible_rows {
        selection - (visible_rows - 1)
    } else {
        scroll
    }
}

/// The row is shown, a row that was shown moves nothing, and doing it again
/// changes nothing.
pub proof fn scrolled_shows(scroll: int, sel: int, rows: int)
    requires
        rows >= 1,
        scroll >= 0,
        sel >= 0,
    ensures
        0 <= scrolled_to(scroll, sel, rows) <= sel < scrolled_to(scroll, sel, rows) + rows,
        scroll <= sel < scroll + rows ==> scrolled_to(scroll, sel, rows) == scroll,
        scrolled_to(scrolled_to(scroll, sel, rows), sel, rows) == scrolled_to(scroll, sel, rows),
{
}

/// The rows of the saved URLs that are shown.
pub const IMPORTER_VISIBLE_ROWS: usize = 10;

/// The rows of an item's files that are shown.
pub const DISTANT_VISIBLE_ROWS: usize = 10;

/// The rows of the bug picker that are shown.
pub const BUG_PICKER_VISIBLE_ROWS: usize = 10;

/// The columns of the cover picker.
pub const COVER_PICKER_COLS: usize = 4;

/// The columns of the Flashpoint gallery.
pub const FP_GALLERY_COLS: usize = 5;

/// The rows of the Flashpoint gallery that are shown.
pub const FP_GALLERY_ROWS: usize = 3;

/// The saved URLs with the cursor on `row`, scrolled from `scroll` only as far
/// as the row needs it.
pub open spec fn idle_at(scroll: int, row: int) -> Screen {
    Screen::DistantIdle {
        selection: row as usize,
        scroll_offset: scrolled_to(scroll, row, IMPORTER_VISIBLE_ROWS as int) as usize,
    }
}

/// The saved URLs with the cursor on `row`.
pub fn distant_idle_at(scroll: usize, row: usize) -> (r: Screen)
    ensures
        r == idle_at(scroll as int, row as int),
{
    Screen::DistantIdle {
        selection: row,
        scroll_offset: clamp_scroll(scroll, row, IMPORTER_VISIBLE_ROWS),
    }
}

/// A box on the screen, in pixels.
#[derive(Clone, Copy, PartialEq, Eq, Structural, Debug)]
pub struct Rect {
    pub x: i64,
    pub y: i64,
    pub w: i64,
    pub h: i64,
}

/// How far below the first shown row a row of the saved URLs stands; one above or
/// below the shown rows counts as the first or the last of them.
pub open spec fn rows_down(sel: int, scroll: int) -> int {
    if sel <= scroll {
        0
    } else if sel - scroll < IMPORTER_VISIBLE_ROWS {
        sel - scroll
    } else {
        IMPORTER_VISIBLE_ROWS - 1
    }
}

/// Where a row of the saved URLs is drawn, on a screen `vw` pixels wide: the box that
/// the list of files opens from and closes to.
pub fn distant_row_rect(sel: usize, scroll: usize, vw: u32) -> (r: Rect)
    ensures
        r == (Rect {
            x: 20,
            y: (152 + 50 * rows_down(sel as int, scroll as int)) as i64,
            w: (vw - 40) as i64,
            h: 54,
        }),
{
    let down: usize = if sel <= scroll {
        0
    } else if sel - scroll < IMPORTER_VISIBLE_ROWS {
        sel - scroll
    } else {
        IMPORTER_VISIBLE_ROWS - 1
    };
    Rect { x: 20, y: 152 + 50 * (down as i64), w: vw as i64 - 40, h: 54 }
}

/// The box of a row lies in the list, whatever the row and the scroll, and the box of
/// a shown row lies below that of the row before it.
pub proof fn row_rect_in_list(sel: int, scroll: int)
    ensures
        0 <= rows_down(sel, scroll) < IMPORTER_VISIBLE_ROWS,
        scroll <= sel && sel + 1 < scroll + IMPORTER_VISIBLE_ROWS ==> rows_down(sel + 1, scroll)
            == rows_down(sel, scroll) + 1,
{
}

} // verus!
