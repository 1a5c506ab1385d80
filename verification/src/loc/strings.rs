//! The texts of the interface, by name.

use crate::loc::tables;
use vstd::prelude::*;

verus! {

/// Every text of the interface, in one language. `{}` in a text stands for what is
/// filled in when it is shown.
#[derive(Clone, Copy)]
pub struct Strings {
    pub menu_resume: &'static str,
    pub menu_keys: &'static str,
    pub menu_restart: &'static str,
    pub menu_quit: &'static str,
    pub menu_cursor: &'static str,
    pub pause_title: &'static str,
    pub pause_footer: &'static str,
    pub keys_title: &'static str,
    pub keys_footer: &'static str,
    pub keys_dropdown_footer: &'static str,
    pub none: &'static str,
    pub flash_mouse_left: &'static str,
    pub flash_mouse_right: &'static str,
    pub flash_space: &'static str,
    pub flash_enter: &'static str,
    pub flash_escape: &'static str,
    pub flash_shift: &'static str,
    pub flash_control: &'static str,
    pub flash_alt: &'static str,
    pub flash_tab: &'static str,
    pub flash_backspace: &'static str,
    pub flash_up: &'static str,
    pub flash_down: &'static str,
    pub flash_left: &'static str,
    pub flash_right: &'static str,
    pub empty_title: &'static str,
    pub empty_l1: &'static str,
    pub empty_l2: &'static str,
    pub empty_l3: &'static str,
    pub empty_footer: &'static str,
    pub list_footer: &'static str,
    pub applet_title: &'static str,
    pub applet_notice: &'static str,
    pub options_title: &'static str,
    pub opt_keys: &'static str,
    pub opt_rename: &'static str,
    pub opt_edit: &'static str,
    pub opt_delete: &'static str,
    pub opt_back: &'static str,
    pub options_footer: &'static str,
    pub del_title: &'static str,
    pub del_l1: &'static str,
    pub del_l2: &'static str,
    pub del_l3: &'static str,
    pub del_footer: &'static str,
    pub dist_title: &'static str,
    pub dist_add: &'static str,
    pub dist_list_footer: &'static str,
    pub dist_count: &'static str,
    pub dist_subtitle: &'static str,
    pub dist_press_a: &'static str,
    pub dist_example1: &'static str,
    pub dist_example2: &'static str,
    pub dist_history: &'static str,
    pub dist_hint_zr: &'static str,
    pub dist_hint_a: &'static str,
    pub dist_hint_lr: &'static str,
    pub dist_footer_hist: &'static str,
    pub dist_footer_nohist: &'static str,
    pub files_title: &'static str,
    pub files_filter: &'static str,
    pub files_footer: &'static str,
    pub dl_title: &'static str,
    pub dl_footer: &'static str,
    pub toast_dl_ok: &'static str,
    pub toast_assets_missing: &'static str,
    pub err_title: &'static str,
    pub err_footer: &'static str,
    pub err_footer_fix: &'static str,
    pub settings_title: &'static str,
    pub set_keys: &'static str,
    pub set_language: &'static str,
    pub set_quit: &'static str,
    pub set_cursor_speed: &'static str,
    pub set_display_mode: &'static str,
    pub display_fit: &'static str,
    pub display_fill: &'static str,
    pub display_stretch: &'static str,
    pub set_home_view: &'static str,
    pub home_grid: &'static str,
    pub home_list: &'static str,
    pub home_strip: &'static str,
    pub home_shelf: &'static str,
    pub set_game_prefs: &'static str,
    pub prefs_title: &'static str,
    pub set_screen_filter: &'static str,
    pub filter_none: &'static str,
    pub filter_scanlines: &'static str,
    pub filter_crt: &'static str,
    pub show_cursor: &'static str,
    pub cursor_shown: &'static str,
    pub cursor_hidden: &'static str,
    pub set_pseudo: &'static str,
    pub kbd_pseudo_guide: &'static str,
    pub set_back: &'static str,
    pub set_report_bug: &'static str,
    pub tab_play: &'static str,
    pub tab_import: &'static str,
    pub tab_settings: &'static str,
    pub set_covers: &'static str,
    pub lbl_on: &'static str,
    pub lbl_off: &'static str,
    pub opt_cover: &'static str,
    pub opt_favorite: &'static str,
    pub opt_unfavorite: &'static str,
    pub opt_share: &'static str,
    pub profile_shared_ok: &'static str,
    pub opt_apply: &'static str,
    pub profile_title: &'static str,
    pub profile_footer: &'static str,
    pub profile_none: &'static str,
    pub profile_catalog_offline: &'static str,
    pub profile_revert: &'static str,
    pub profile_applied_ok: &'static str,
    pub profile_reverted_ok: &'static str,
    pub profile_share_confirm: &'static str,
    pub share_confirm_update: &'static str,
    pub touches_edit: &'static str,
    pub touches_footer: &'static str,
    pub touches_revert_default: &'static str,
    pub profile_preview_title: &'static str,
    pub profile_preview_footer: &'static str,
    pub profile_preview_none: &'static str,
    pub profile_active: &'static str,
    pub profile_share_dup: &'static str,
    pub toast_already_imported: &'static str,
    pub profile_del_confirm: &'static str,
    pub profile_del_ok: &'static str,
    pub profile_del_not_mine: &'static str,
    pub profile_del_hint: &'static str,
    pub revert_preview_title: &'static str,
    pub revert_preview_footer: &'static str,
    pub cover_title: &'static str,
    pub cover_footer: &'static str,
    pub cover_show_logos: &'static str,
    pub cover_show_shots: &'static str,
    pub cover_off_notice: &'static str,
    pub cover_none: &'static str,
    pub fp_title: &'static str,
    pub fp_footer: &'static str,
    pub fp_details_title: &'static str,
    pub fp_details_dev: &'static str,
    pub fp_details_publisher: &'static str,
    pub fp_details_date: &'static str,
    pub fp_details_size: &'static str,
    pub fp_details_footer: &'static str,
    pub sort_title: &'static str,
    pub sort_footer: &'static str,
    pub sort_alpha: &'static str,
    pub sort_recent: &'static str,
    pub sort_played: &'static str,
    pub sort_size: &'static str,
    pub played_label: &'static str,
    pub sort_recent_played: &'static str,
    pub sort_dev: &'static str,
    pub sort_source: &'static str,
    pub sort_files: &'static str,
    pub fav_added: &'static str,
    pub fav_removed: &'static str,
    pub multifile: &'static str,
    pub sort_dir_asc: &'static str,
    pub sort_dir_desc: &'static str,
    pub settings_footer: &'static str,
    pub lang_title: &'static str,
    pub lang_footer: &'static str,
    pub histdel_title: &'static str,
    pub url_info_type: &'static str,
    pub url_type_swf: &'static str,
    pub url_type_list: &'static str,
    pub url_info_files: &'static str,
    pub url_info_added: &'static str,
    pub histdel_msg: &'static str,
    pub err_too_large: &'static str,
    pub err_https: &'static str,
    pub err_offline: &'static str,
    pub err_timeout: &'static str,
    pub err_tls: &'static str,
    pub err_response_big: &'static str,
    pub err_sd_write: &'static str,
    pub err_http_status: &'static str,
    pub err_not_found: &'static str,
    pub err_json: &'static str,
    pub err_json_no_files: &'static str,
    pub err_dl_start: &'static str,
    pub err_dl_failed: &'static str,
    pub err_dl_cancelled: &'static str,
    pub err_url_invalid: &'static str,
    pub err_no_swf: &'static str,
    pub err_dl_not_a_game: &'static str,
    pub err_fp_html_game: &'static str,
    pub kbd_url_header: &'static str,
    pub kbd_url_guide: &'static str,
    pub kbd_rename_header: &'static str,
    pub kbd_rename_guide: &'static str,
    pub kbd_search_header: &'static str,
    pub kbd_search_guide: &'static str,
    pub bug_pick_title: &'static str,
    pub bug_pick_footer: &'static str,
    pub bug_no_games: &'static str,
    pub bug_ok_title: &'static str,
    pub bug_ok_msg: &'static str,
    pub bug_fail_title: &'static str,
    pub kbd_bug_header: &'static str,
    pub kbd_bug_guide: &'static str,
    pub set_suggest: &'static str,
    pub kbd_suggest_header: &'static str,
    pub kbd_suggest_guide: &'static str,
    pub optimizing: &'static str,
}

/// The texts of the language with number `i`.
pub open spec fn named(i: int) -> Strings {
    Strings {
        menu_resume: tables::MENU_RESUME@[i],
        menu_keys: tables::MENU_KEYS@[i],
        menu_restart: tables::MENU_RESTART@[i],
        menu_quit: tables::MENU_QUIT@[i],
        menu_cursor: tables::MENU_CURSOR@[i],
        pause_title: tables::PAUSE_TITLE@[i],
        pause_footer: tables::PAUSE_FOOTER@[i],
        keys_title: tables::KEYS_TITLE@[i],
        keys_footer: tables::KEYS_FOOTER@[i],
        keys_dropdown_footer: tables::KEYS_DROPDOWN_FOOTER@[i],
        none: tables::NONE@[i],
        flash_mouse_left: tables::FLASH_MOUSE_LEFT@[i],
        flash_mouse_right: tables::FLASH_MOUSE_RIGHT@[i],
        flash_space: tables::FLASH_SPACE@[i],
        flash_enter: tables::FLASH_ENTER@[i],
        flash_escape: tables::FLASH_ESCAPE@[i],
        flash_shift: tables::FLASH_SHIFT@[i],
        flash_control: tables::FLASH_CONTROL@[i],
        flash_alt: tables::FLASH_ALT@[i],
        flash_tab: tables::FLASH_TAB@[i],
        flash_backspace: tables::FLASH_BACKSPACE@[i],
        flash_up: tables::FLASH_UP@[i],
        flash_down: tables::FLASH_DOWN@[i],
        flash_left: tables::FLASH_LEFT@[i],
        flash_right: tables::FLASH_RIGHT@[i],
        empty_title: tables::EMPTY_TITLE@[i],
        empty_l1: tables::EMPTY_L1@[i],
        empty_l2: tables::EMPTY_L2@[i],
        empty_l3: tables::EMPTY_L3@[i],
        empty_footer: tables::EMPTY_FOOTER@[i],
        list_footer: tables::LIST_FOOTER@[i],
        applet_title: tables::APPLET_TITLE@[i],
        applet_notice: tables::APPLET_NOTICE@[i],
        options_title: tables::OPTIONS_TITLE@[i],
        opt_keys: tables::OPT_KEYS@[i],
        opt_rename: tables::OPT_RENAME@[i],
        opt_edit: tables::OPT_EDIT@[i],
        opt_delete: tables::OPT_DELETE@[i],
        opt_back: tables::OPT_BACK@[i],
        options_footer: tables::OPTIONS_FOOTER@[i],
        del_title: tables::DEL_TITLE@[i],
        del_l1: tables::DEL_L1@[i],
        del_l2: tables::DEL_L2@[i],
        del_l3: tables::DEL_L3@[i],
        del_footer: tables::DEL_FOOTER@[i],
        dist_title: tables::DIST_TITLE@[i],
        dist_add: tables::DIST_ADD@[i],
        dist_list_footer: tables::DIST_LIST_FOOTER@[i],
        dist_count: tables::DIST_COUNT@[i],
        dist_subtitle: tables::DIST_SUBTITLE@[i],
        dist_press_a: tables::DIST_PRESS_A@[i],
        dist_example1: tables::DIST_EXAMPLE1@[i],
        dist_example2: tables::DIST_EXAMPLE2@[i],
        dist_history: tables::DIST_HISTORY@[i],
        dist_hint_zr: tables::DIST_HINT_ZR@[i],
        dist_hint_a: tables::DIST_HINT_A@[i],
        dist_hint_lr: tables::DIST_HINT_LR@[i],
        dist_footer_hist: tables::DIST_FOOTER_HIST@[i],
        dist_footer_nohist: tables::DIST_FOOTER_NOHIST@[i],
        files_title: tables::FILES_TITLE@[i],
        files_filter: tables::FILES_FILTER@[i],
        files_footer: tables::FILES_FOOTER@[i],
        dl_title: tables::DL_TITLE@[i],
        dl_footer: tables::DL_FOOTER@[i],
        toast_dl_ok: tables::TOAST_DL_OK@[i],
        toast_assets_missing: tables::TOAST_ASSETS_MISSING@[i],
        err_title: tables::ERR_TITLE@[i],
        err_footer: tables::ERR_FOOTER@[i],
        err_footer_fix: tables::ERR_FOOTER_FIX@[i],
        settings_title: tables::SETTINGS_TITLE@[i],
        set_keys: tables::SET_KEYS@[i],
        set_language: tables::SET_LANGUAGE@[i],
        set_quit: tables::SET_QUIT@[i],
        set_cursor_speed: tables::SET_CURSOR_SPEED@[i],
        set_display_mode: tables::SET_DISPLAY_MODE@[i],
        display_fit: tables::DISPLAY_FIT@[i],
        display_fill: tables::DISPLAY_FILL@[i],
        display_stretch: tables::DISPLAY_STRETCH@[i],
        set_home_view: tables::SET_HOME_VIEW@[i],
        home_grid: tables::HOME_GRID@[i],
        home_list: tables::HOME_LIST@[i],
        home_strip: tables::HOME_STRIP@[i],
        home_shelf: tables::HOME_SHELF@[i],
        set_game_prefs: tables::SET_GAME_PREFS@[i],
        prefs_title: tables::PREFS_TITLE@[i],
        set_screen_filter: tables::SET_SCREEN_FILTER@[i],
        filter_none: tables::FILTER_NONE@[i],
        filter_scanlines: tables::FILTER_SCANLINES@[i],
        filter_crt: tables::FILTER_CRT@[i],
        show_cursor: tables::SHOW_CURSOR@[i],
        cursor_shown: tables::CURSOR_SHOWN@[i],
        cursor_hidden: tables::CURSOR_HIDDEN@[i],
        set_pseudo: tables::SET_PSEUDO@[i],
        kbd_pseudo_guide: tables::KBD_PSEUDO_GUIDE@[i],
        set_back: tables::SET_BACK@[i],
        set_report_bug: tables::SET_REPORT_BUG@[i],
        tab_play: tables::TAB_PLAY@[i],
        tab_import: tables::TAB_IMPORT@[i],
        tab_settings: tables::TAB_SETTINGS@[i],
        set_covers: tables::SET_COVERS@[i],
        lbl_on: tables::LBL_ON@[i],
        lbl_off: tables::LBL_OFF@[i],
        opt_cover: tables::OPT_COVER@[i],
        opt_favorite: tables::OPT_FAVORITE@[i],
        opt_unfavorite: tables::OPT_UNFAVORITE@[i],
        opt_share: tables::OPT_SHARE@[i],
        profile_shared_ok: tables::PROFILE_SHARED_OK@[i],
        opt_apply: tables::OPT_APPLY@[i],
        profile_title: tables::PROFILE_TITLE@[i],
        profile_footer: tables::PROFILE_FOOTER@[i],
        profile_none: tables::PROFILE_NONE@[i],
        profile_catalog_offline: tables::PROFILE_CATALOG_OFFLINE@[i],
        profile_revert: tables::PROFILE_REVERT@[i],
        profile_applied_ok: tables::PROFILE_APPLIED_OK@[i],
        profile_reverted_ok: tables::PROFILE_REVERTED_OK@[i],
        profile_share_confirm: tables::PROFILE_SHARE_CONFIRM@[i],
        share_confirm_update: tables::SHARE_CONFIRM_UPDATE@[i],
        touches_edit: tables::TOUCHES_EDIT@[i],
        touches_footer: tables::TOUCHES_FOOTER@[i],
        touches_revert_default: tables::TOUCHES_REVERT_DEFAULT@[i],
        profile_preview_title: tables::PROFILE_PREVIEW_TITLE@[i],
        profile_preview_footer: tables::PROFILE_PREVIEW_FOOTER@[i],
        profile_preview_none: tables::PROFILE_PREVIEW_NONE@[i],
        profile_active: tables::PROFILE_ACTIVE@[i],
        profile_share_dup: tables::PROFILE_SHARE_DUP@[i],
        toast_already_imported: tables::TOAST_ALREADY_IMPORTED@[i],
        profile_del_confirm: tables::PROFILE_DEL_CONFIRM@[i],
        profile_del_ok: tables::PROFILE_DEL_OK@[i],
        profile_del_not_mine: tables::PROFILE_DEL_NOT_MINE@[i],
        profile_del_hint: tables::PROFILE_DEL_HINT@[i],
        revert_preview_title: tables::REVERT_PREVIEW_TITLE@[i],
        revert_preview_footer: tables::REVERT_PREVIEW_FOOTER@[i],
        cover_title: tables::COVER_TITLE@[i],
        cover_footer: tables::COVER_FOOTER@[i],
        cover_show_logos: tables::COVER_SHOW_LOGOS@[i],
        cover_show_shots: tables::COVER_SHOW_SHOTS@[i],
        cover_off_notice: tables::COVER_OFF_NOTICE@[i],
        cover_none: tables::COVER_NONE@[i],
        fp_title: tables::FP_TITLE@[i],
        fp_footer: tables::FP_FOOTER@[i],
        fp_details_title: tables::FP_DETAILS_TITLE@[i],
        fp_details_dev: tables::FP_DETAILS_DEV@[i],
        fp_details_publisher: tables::FP_DETAILS_PUBLISHER@[i],
        fp_details_date: tables::FP_DETAILS_DATE@[i],
        fp_details_size: tables::FP_DETAILS_SIZE@[i],
        fp_details_footer: tables::FP_DETAILS_FOOTER@[i],
        sort_title: tables::SORT_TITLE@[i],
        sort_footer: tables::SORT_FOOTER@[i],
        sort_alpha: tables::SORT_ALPHA@[i],
        sort_recent: tables::SORT_RECENT@[i],
        sort_played: tables::SORT_PLAYED@[i],
        sort_size: tables::SORT_SIZE@[i],
        played_label: tables::PLAYED_LABEL@[i],
        sort_recent_played: tables::SORT_RECENT_PLAYED@[i],
        sort_dev: tables::SORT_DEV@[i],
        sort_source: tables::SORT_SOURCE@[i],
        sort_files: tables::SORT_FILES@[i],
        fav_added: tables::FAV_ADDED@[i],
        fav_removed: tables::FAV_REMOVED@[i],
        multifile: tables::MULTIFILE@[i],
        sort_dir_asc: tables::SORT_DIR_ASC@[i],
        sort_dir_desc: tables::SORT_DIR_DESC@[i],
        settings_footer: tables::SETTINGS_FOOTER@[i],
        lang_title: tables::LANG_TITLE@[i],
        lang_footer: tables::LANG_FOOTER@[i],
        histdel_title: tables::HISTDEL_TITLE@[i],
        url_info_type: tables::URL_INFO_TYPE@[i],
        url_type_swf: tables::URL_TYPE_SWF@[i],
        url_type_list: tables::URL_TYPE_LIST@[i],
        url_info_files: tables::URL_INFO_FILES@[i],
        url_info_added: tables::URL_INFO_ADDED@[i],
        histdel_msg: tables::HISTDEL_MSG@[i],
        err_too_large: tables::ERR_TOO_LARGE@[i],
        err_https: tables::ERR_HTTPS@[i],
        err_offline: tables::ERR_OFFLINE@[i],
        err_timeout: tables::ERR_TIMEOUT@[i],
        err_tls: tables::ERR_TLS@[i],
        err_response_big: tables::ERR_RESPONSE_BIG@[i],
        err_sd_write: tables::ERR_SD_WRITE@[i],
        err_http_status: tables::ERR_HTTP_STATUS@[i],
        err_not_found: tables::ERR_NOT_FOUND@[i],
        err_json: tables::ERR_JSON@[i],
        err_json_no_files: tables::ERR_JSON_NO_FILES@[i],
        err_dl_start: tables::ERR_DL_START@[i],
        err_dl_failed: tables::ERR_DL_FAILED@[i],
        err_dl_cancelled: tables::ERR_DL_CANCELLED@[i],
        err_url_invalid: tables::ERR_URL_INVALID@[i],
        err_no_swf: tables::ERR_NO_SWF@[i],
        err_dl_not_a_game: tables::ERR_DL_NOT_A_GAME@[i],
        err_fp_html_game: tables::ERR_FP_HTML_GAME@[i],
        kbd_url_header: tables::KBD_URL_HEADER@[i],
        kbd_url_guide: tables::KBD_URL_GUIDE@[i],
        kbd_rename_header: tables::KBD_RENAME_HEADER@[i],
        kbd_rename_guide: tables::KBD_RENAME_GUIDE@[i],
        kbd_search_header: tables::KBD_SEARCH_HEADER@[i],
        kbd_search_guide: tables::KBD_SEARCH_GUIDE@[i],
        bug_pick_title: tables::BUG_PICK_TITLE@[i],
        bug_pick_footer: tables::BUG_PICK_FOOTER@[i],
        bug_no_games: tables::BUG_NO_GAMES@[i],
        bug_ok_title: tables::BUG_OK_TITLE@[i],
        bug_ok_msg: tables::BUG_OK_MSG@[i],
        bug_fail_title: tables::BUG_FAIL_TITLE@[i],
        kbd_bug_header: tables::KBD_BUG_HEADER@[i],
        kbd_bug_guide: tables::KBD_BUG_GUIDE@[i],
        set_suggest: tables::SET_SUGGEST@[i],
        kbd_suggest_header: tables::KBD_SUGGEST_HEADER@[i],
        kbd_suggest_guide: tables::KBD_SUGGEST_GUIDE@[i],
        optimizing: tables::OPTIMIZING@[i],
    }
}

/// The texts of the language with number `i`.
pub fn by_number(i: usize) -> (r: Strings)
    requires
        i < 9,
    ensures
        r == named(i as int),
{
    Strings {
        menu_resume: tables::MENU_RESUME[i],
        menu_keys: tables::MENU_KEYS[i],
        menu_restart: tables::MENU_RESTART[i],
        menu_quit: tables::MENU_QUIT[i],
        menu_cursor: tables::MENU_CURSOR[i],
        pause_title: tables::PAUSE_TITLE[i],
        pause_footer: tables::PAUSE_FOOTER[i],
        keys_title: tables::KEYS_TITLE[i],
        keys_footer: tables::KEYS_FOOTER[i],
        keys_dropdown_footer: tables::KEYS_DROPDOWN_FOOTER[i],
        none: tables::NONE[i],
        flash_mouse_left: tables::FLASH_MOUSE_LEFT[i],
        flash_mouse_right: tables::FLASH_MOUSE_RIGHT[i],
        flash_space: tables::FLASH_SPACE[i],
        flash_enter: tables::FLASH_ENTER[i],
        flash_escape: tables::FLASH_ESCAPE[i],
        flash_shift: tables::FLASH_SHIFT[i],
        flash_control: tables::FLASH_CONTROL[i],
        flash_alt: tables::FLASH_ALT[i],
        flash_tab: tables::FLASH_TAB[i],
        flash_backspace: tables::FLASH_BACKSPACE[i],
        flash_up: tables::FLASH_UP[i],
        flash_down: tables::FLASH_DOWN[i],
        flash_left: tables::FLASH_LEFT[i],
        flash_right: tables::FLASH_RIGHT[i],
        empty_title: tables::EMPTY_TITLE[i],
        empty_l1: tables::EMPTY_L1[i],
        empty_l2: tables::EMPTY_L2[i],
        empty_l3: tables::EMPTY_L3[i],
        empty_footer: tables::EMPTY_FOOTER[i],
        list_footer: tables::LIST_FOOTER[i],
        applet_title: tables::APPLET_TITLE[i],
        applet_notice: tables::APPLET_NOTICE[i],
        options_title: tables::OPTIONS_TITLE[i],
        opt_keys: tables::OPT_KEYS[i],
        opt_rename: tables::OPT_RENAME[i],
        opt_edit: tables::OPT_EDIT[i],
        opt_delete: tables::OPT_DELETE[i],
        opt_back: tables::OPT_BACK[i],
        options_footer: tables::OPTIONS_FOOTER[i],
        del_title: tables::DEL_TITLE[i],
        del_l1: tables::DEL_L1[i],
        del_l2: tables::DEL_L2[i],
        del_l3: tables::DEL_L3[i],
        del_footer: tables::DEL_FOOTER[i],
        dist_title: tables::DIST_TITLE[i],
        dist_add: tables::DIST_ADD[i],
        dist_list_footer: tables::DIST_LIST_FOOTER[i],
        dist_count: tables::DIST_COUNT[i],
        dist_subtitle: tables::DIST_SUBTITLE[i],
        dist_press_a: tables::DIST_PRESS_A[i],
        dist_example1: tables::DIST_EXAMPLE1[i],
        dist_example2: tables::DIST_EXAMPLE2[i],
        dist_history: tables::DIST_HISTORY[i],
        dist_hint_zr: tables::DIST_HINT_ZR[i],
        dist_hint_a: tables::DIST_HINT_A[i],
        dist_hint_lr: tables::DIST_HINT_LR[i],
        dist_footer_hist: tables::DIST_FOOTER_HIST[i],
        dist_footer_nohist: tables::DIST_FOOTER_NOHIST[i],
        files_title: tables::FILES_TITLE[i],
        files_filter: tables::FILES_FILTER[i],
        files_footer: tables::FILES_FOOTER[i],
        dl_title: tables::DL_TITLE[i],
        dl_footer: tables::DL_FOOTER[i],
        toast_dl_ok: tables::TOAST_DL_OK[i],
        toast_assets_missing: tables::TOAST_ASSETS_MISSING[i],
        err_title: tables::ERR_TITLE[i],
        err_footer: tables::ERR_FOOTER[i],
        err_footer_fix: tables::ERR_FOOTER_FIX[i],
        settings_title: tables::SETTINGS_TITLE[i],
        set_keys: tables::SET_KEYS[i],
        set_language: tables::SET_LANGUAGE[i],
        set_quit: tables::SET_QUIT[i],
        set_cursor_speed: tables::SET_CURSOR_SPEED[i],
        set_display_mode: tables::SET_DISPLAY_MODE[i],
        display_fit: tables::DISPLAY_FIT[i],
        display_fill: tables::DISPLAY_FILL[i],
        display_stretch: tables::DISPLAY_STRETCH[i],
        set_home_view: tables::SET_HOME_VIEW[i],
        home_grid: tables::HOME_GRID[i],
        home_list: tables::HOME_LIST[i],
        home_strip: tables::HOME_STRIP[i],
        home_shelf: tables::HOME_SHELF[i],
        set_game_prefs: tables::SET_GAME_PREFS[i],
        prefs_title: tables::PREFS_TITLE[i],
        set_screen_filter: tables::SET_SCREEN_FILTER[i],
        filter_none: tables::FILTER_NONE[i],
        filter_scanlines: tables::FILTER_SCANLINES[i],
        filter_crt: tables::FILTER_CRT[i],
        show_cursor: tables::SHOW_CURSOR[i],
        cursor_shown: tables::CURSOR_SHOWN[i],
        cursor_hidden: tables::CURSOR_HIDDEN[i],
        set_pseudo: tables::SET_PSEUDO[i],
        kbd_pseudo_guide: tables::KBD_PSEUDO_GUIDE[i],
        set_back: tables::SET_BACK[i],
        set_report_bug: tables::SET_REPORT_BUG[i],
        tab_play: tables::TAB_PLAY[i],
        tab_import: tables::TAB_IMPORT[i],
        tab_settings: tables::TAB_SETTINGS[i],
        set_covers: tables::SET_COVERS[i],
        lbl_on: tables::LBL_ON[i],
        lbl_off: tables::LBL_OFF[i],
        opt_cover: tables::OPT_COVER[i],
        opt_favorite: tables::OPT_FAVORITE[i],
        opt_unfavorite: tables::OPT_UNFAVORITE[i],
        opt_share: tables::OPT_SHARE[i],
        profile_shared_ok: tables::PROFILE_SHARED_OK[i],
        opt_apply: tables::OPT_APPLY[i],
        profile_title: tables::PROFILE_TITLE[i],
        profile_footer: tables::PROFILE_FOOTER[i],
        profile_none: tables::PROFILE_NONE[i],
        profile_catalog_offline: tables::PROFILE_CATALOG_OFFLINE[i],
        profile_revert: tables::PROFILE_REVERT[i],
        profile_applied_ok: tables::PROFILE_APPLIED_OK[i],
        profile_reverted_ok: tables::PROFILE_REVERTED_OK[i],
        profile_share_confirm: tables::PROFILE_SHARE_CONFIRM[i],
        share_confirm_update: tables::SHARE_CONFIRM_UPDATE[i],
        touches_edit: tables::TOUCHES_EDIT[i],
        touches_footer: tables::TOUCHES_FOOTER[i],
        touches_revert_default: tables::TOUCHES_REVERT_DEFAULT[i],
        profile_preview_title: tables::PROFILE_PREVIEW_TITLE[i],
        profile_preview_footer: tables::PROFILE_PREVIEW_FOOTER[i],
        profile_preview_none: tables::PROFILE_PREVIEW_NONE[i],
        profile_active: tables::PROFILE_ACTIVE[i],
        profile_share_dup: tables::PROFILE_SHARE_DUP[i],
        toast_already_imported: tables::TOAST_ALREADY_IMPORTED[i],
        profile_del_confirm: tables::PROFILE_DEL_CONFIRM[i],
        profile_del_ok: tables::PROFILE_DEL_OK[i],
        profile_del_not_mine: tables::PROFILE_DEL_NOT_MINE[i],
        profile_del_hint: tables::PROFILE_DEL_HINT[i],
        revert_preview_title: tables::REVERT_PREVIEW_TITLE[i],
        revert_preview_footer: tables::REVERT_PREVIEW_FOOTER[i],
        cover_title: tables::COVER_TITLE[i],
        cover_footer: tables::COVER_FOOTER[i],
        cover_show_logos: tables::COVER_SHOW_LOGOS[i],
        cover_show_shots: tables::COVER_SHOW_SHOTS[i],
        cover_off_notice: tables::COVER_OFF_NOTICE[i],
        cover_none: tables::COVER_NONE[i],
        fp_title: tables::FP_TITLE[i],
        fp_footer: tables::FP_FOOTER[i],
        fp_details_title: tables::FP_DETAILS_TITLE[i],
        fp_details_dev: tables::FP_DETAILS_DEV[i],
        fp_details_publisher: tables::FP_DETAILS_PUBLISHER[i],
        fp_details_date: tables::FP_DETAILS_DATE[i],
        fp_details_size: tables::FP_DETAILS_SIZE[i],
        fp_details_footer: tables::FP_DETAILS_FOOTER[i],
        sort_title: tables::SORT_TITLE[i],
        sort_footer: tables::SORT_FOOTER[i],
        sort_alpha: tables::SORT_ALPHA[i],
        sort_recent: tables::SORT_RECENT[i],
        sort_played: tables::SORT_PLAYED[i],
        sort_size: tables::SORT_SIZE[i],
        played_label: tables::PLAYED_LABEL[i],
        sort_recent_played: tables::SORT_RECENT_PLAYED[i],
        sort_dev: tables::SORT_DEV[i],
        sort_source: tables::SORT_SOURCE[i],
        sort_files: tables::SORT_FILES[i],
        fav_added: tables::FAV_ADDED[i],
        fav_removed: tables::FAV_REMOVED[i],
        multifile: tables::MULTIFILE[i],
        sort_dir_asc: tables::SORT_DIR_ASC[i],
        sort_dir_desc: tables::SORT_DIR_DESC[i],
        settings_footer: tables::SETTINGS_FOOTER[i],
        lang_title: tables::LANG_TITLE[i],
        lang_footer: tables::LANG_FOOTER[i],
        histdel_title: tables::HISTDEL_TITLE[i],
        url_info_type: tables::URL_INFO_TYPE[i],
        url_type_swf: tables::URL_TYPE_SWF[i],
        url_type_list: tables::URL_TYPE_LIST[i],
        url_info_files: tables::URL_INFO_FILES[i],
        url_info_added: tables::URL_INFO_ADDED[i],
        histdel_msg: tables::HISTDEL_MSG[i],
        err_too_large: tables::ERR_TOO_LARGE[i],
        err_https: tables::ERR_HTTPS[i],
        err_offline: tables::ERR_OFFLINE[i],
        err_timeout: tables::ERR_TIMEOUT[i],
        err_tls: tables::ERR_TLS[i],
        err_response_big: tables::ERR_RESPONSE_BIG[i],
        err_sd_write: tables::ERR_SD_WRITE[i],
        err_http_status: tables::ERR_HTTP_STATUS[i],
        err_not_found: tables::ERR_NOT_FOUND[i],
        err_json: tables::ERR_JSON[i],
        err_json_no_files: tables::ERR_JSON_NO_FILES[i],
        err_dl_start: tables::ERR_DL_START[i],
        err_dl_failed: tables::ERR_DL_FAILED[i],
        err_dl_cancelled: tables::ERR_DL_CANCELLED[i],
        err_url_invalid: tables::ERR_URL_INVALID[i],
        err_no_swf: tables::ERR_NO_SWF[i],
        err_dl_not_a_game: tables::ERR_DL_NOT_A_GAME[i],
        err_fp_html_game: tables::ERR_FP_HTML_GAME[i],
        kbd_url_header: tables::KBD_URL_HEADER[i],
        kbd_url_guide: tables::KBD_URL_GUIDE[i],
        kbd_rename_header: tables::KBD_RENAME_HEADER[i],
        kbd_rename_guide: tables::KBD_RENAME_GUIDE[i],
        kbd_search_header: tables::KBD_SEARCH_HEADER[i],
        kbd_search_guide: tables::KBD_SEARCH_GUIDE[i],
        bug_pick_title: tables::BUG_PICK_TITLE[i],
        bug_pick_footer: tables::BUG_PICK_FOOTER[i],
        bug_no_games: tables::BUG_NO_GAMES[i],
        bug_ok_title: tables::BUG_OK_TITLE[i],
        bug_ok_msg: tables::BUG_OK_MSG[i],
        bug_fail_title: tables::BUG_FAIL_TITLE[i],
        kbd_bug_header: tables::KBD_BUG_HEADER[i],
        kbd_bug_guide: tables::KBD_BUG_GUIDE[i],
        set_suggest: tables::SET_SUGGEST[i],
        kbd_suggest_header: tables::KBD_SUGGEST_HEADER[i],
        kbd_suggest_guide: tables::KBD_SUGGEST_GUIDE[i],
        optimizing: tables::OPTIMIZING[i],
    }
}

} // verus!
