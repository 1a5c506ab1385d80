//! Playing: the time that it takes, and what a movie's first bytes say.

use crate::laws::games;
use crate::library::banner;
use crate::library::banner::Pixels;
use crate::library::date;
use crate::library::sorting;
use crate::library::state::{Compression, Session};
use crate::library::swf;
use crate::playtime;
use crate::playtime::Row;
use vstd::prelude::*;

verus! {

/// A session adds its seconds to those that the game was played, up to the largest
/// number there is, and sets its last time; the other games keep theirs.
pub proof fn a_session_adds_up(
    pre: Seq<Row>,
    name: Seq<char>,
    secs: u64,
    now: u64,
    post: Seq<Row>,
    other: Seq<char>,
    s: u64,
    l: u64,
)
    requires
        playtime::session_counted(pre, name, secs, now, post),
        name.len() > 0,
        games::played(pre, other, s, l),
    ensures
        other == name && s + secs <= u64::MAX ==> games::played(
            post,
            name,
            (s + secs) as u64,
            now,
        ),
        other == name && s + secs > u64::MAX ==> games::played(post, name, u64::MAX, now),
        other != name ==> games::played(post, other, s, l),
{
    games::lookup_is_played(pre, other);
    games::lookup_is_played(post, other);
    games::played_is_one(
        pre,
        other,
        s,
        l,
        playtime::seconds(pre, other),
        playtime::last(pre, other),
    );
}

/// When a game is left, the time since its launch counts for it in whole seconds, and
/// it was played now; no other game's time changes, and the launch counts once.
pub proof fn the_time_since_the_launch_counts(
    pre: Session,
    rows: Seq<Row>,
    now: u64,
    freq: u64,
    epoch: u64,
    post: Session,
    after: Seq<Row>,
    start: u64,
    name: Seq<char>,
    other: Seq<char>,
    s: u64,
    l: u64,
)
    requires
        sorting::banked(pre, rows, now, freq, epoch, post, after),
        pre.launch_tick == Some(start),
        start < now,
        freq > 0,
        pre.last_played matches Some(p) && p.0@ == name,
        name.len() > 0,
        games::played(rows, other, s, l),
        s <= 0xffff_ffff_ffff,
        now - start <= 0xffff_ffff_ffff,
    ensures
        post.launch_tick is None,
        other != name ==> games::played(after, other, s, l),
        other == name ==> exists|t: u64| #[trigger]
            games::played(after, name, t, epoch) && (t - s) * freq <= now - start < (t - s + 1)
                * freq,
{
    games::lookup_is_played(rows, other);
    games::lookup_is_played(after, other);
    games::played_is_one(
        rows,
        other,
        s,
        l,
        playtime::seconds(rows, other),
        playtime::last(rows, other),
    );
    let (d, f) = (now - start, freq as int);
    let q = d / f;
    assert(0 <= q <= d && q * f <= d < (q + 1) * f) by (nonlinear_arith)
        requires
            q == d / f,
            f > 0,
            d >= 0,
    ;
    if other == name {
        let t = playtime::seconds(after, name);
        assert(t == s + q);
        assert(games::played(after, name, t, epoch));
    }
}

// ── Movies ─────────────────────────────────────────────────────────────────

/// Where the first tag of a movie's body stands: behind the bytes that five bits and
/// four fields of `width` bits fill, and four more.
pub open spec fn tag_place(width: int, p: int) -> bool {
    8 * (p - 5) < 5 + 4 * width <= 8 * (p - 4)
}

/// The engine of a movie is told by its first tag: where that is tag 69, by its bit of
/// weight eight; any other tag is that of the older engine. `width` is what the top
/// five bits of the body say.
pub proof fn the_first_tag_tells_the_engine(b: Seq<u8>, width: u8, p: int)
    requires
        b.len() > 0,
        8 * width <= b[0] < 8 * width + 8,
        tag_place(width as int, p),
        p + 2 < b.len(),
    ensures
        ({
            let word = b[p] + 256 * b[p + 1];
            let flags = b[p + 2];
            if 69 * 64 <= word < 70 * 64 {
                swf::as3_flag(b) == Some(flags & 8 != 0)
            } else {
                swf::as3_flag(b) == Some(false)
            }
        }),
{
    let flags = b[p + 2];
    assert(((flags / 8) % 2 == 1) == (flags & 8 != 0)) by (bit_vector);
    assert(b[0] / 8 == width);
    assert(swf::first_tag(b[0]) == p);
}

/// A movie is read by its first eight bytes: `FWS`, `CWS` or `ZWS`, the version, and
/// the length, lowest byte first. A file that is shorter, or begins otherwise, is no
/// movie.
pub proof fn a_header_is_read(file: Seq<u8>)
    ensures
        ({
            let first = file.len() >= 8 && (file[0] == 0x46 || file[0] == 0x43 || file[0] == 0x5a);
            let movie = first && file[1] == 0x57 && file[2] == 0x53;
            match swf::header_in(file) {
                None => !movie,
                Some(h) => {
                    &&& movie
                    &&& h.version == file[3]
                    &&& h.size_bytes == file[4] + 256 * (file[5] + 256 * (file[6] + 256 * file[7]))
                    &&& (h.compression == Compression::Fws) == (file[0] == 0x46)
                    &&& (h.compression == Compression::Cws) == (file[0] == 0x43)
                    &&& (h.compression == Compression::Zws) == (file[0] == 0x5a)
                    &&& h.version < 8 ==> !h.is_as3
                    &&& h.version >= 8 && h.compression == Compression::Zws ==> h.is_as3
                },
            }
        }),
{
}

// ── Dates ──────────────────────────────────────────────────────────────────

/// The date of a day follows that of the day before: the next day of the month, the
/// first of the next month behind the last of a month, and the first of the next year
/// behind the 31st of December.
pub proof fn days_follow(y: int, m: int, d: int)
    requires
        date::is_date(y, m, d),
    ensures
        date::is_date(y, m, d + 1) ==> date::day_number(y, m, d + 1) == date::day_number(y, m, d)
            + 1,
        !date::is_date(y, m, d + 1) && m < 12 ==> date::is_date(y, m + 1, 1) && date::day_number(
            y,
            m + 1,
            1,
        ) == date::day_number(y, m, d) + 1,
        !date::is_date(y, m, d + 1) && m == 12 ==> date::is_date(y + 1, 1, 1) && date::day_number(
            y + 1,
            1,
            1,
        ) == date::day_number(y, m, d) + 1,
        date::day_number(1970, 1, 1) == 0,
{
    reveal_with_fuel(date::days_before_month, 14);
}

/// The months have the days that the calendar gives them: 31 but for April, June,
/// September and November, which have 30, and February, which has 28, or 29 in every
/// fourth year but those hundreds that four does not divide.
pub proof fn months_have_their_days(y: int, m: int, d: int)
    requires
        1970 <= y,
        1 <= m <= 12,
    ensures
        date::is_date(y, m, d) <==> 1 <= d && if seq![4int, 6, 9, 11].contains(m) {
            d <= 30
        } else if m == 2 {
            d <= 28 || (d == 29 && (y % 400 == 0 || (y % 4 == 0 && y % 100 != 0)))
        } else {
            d <= 31
        },
{
    let s = seq![4int, 6, 9, 11];
    assert(s[0] == 4 && s[1] == 6 && s[2] == 9 && s[3] == 11);
}

// ── Pictures ───────────────────────────────────────────────────────────────

/// A picture keeps its pixels: colours stay, greys become as much red, green and blue,
/// opacity stays, and what has none is opaque. A picture with a palette is none.
pub proof fn pixels_are_kept(p: Pixels, b: Seq<u8>, i: int)
    requires
        i >= 0,
    ensures
        p == Pixels::Indexed ==> banner::as_rgba(p, b) is None,
        p == Pixels::Rgba ==> banner::as_rgba(p, b) == Some(b),
        p == Pixels::Rgb && 3 * i + 3 <= b.len() ==> (banner::as_rgba(p, b) matches Some(t) && t[4
            * i] == b[3 * i] && t[4 * i + 1] == b[3 * i + 1] && t[4 * i + 2] == b[3 * i + 2] && t[4
            * i + 3] == 255),
        p == Pixels::Gray && i < b.len() ==> (banner::as_rgba(p, b) matches Some(t) && t[4 * i]
            == b[i] && t[4 * i + 1] == b[i] && t[4 * i + 2] == b[i] && t[4 * i + 3] == 255),
        p == Pixels::GrayAlpha && 2 * i + 2 <= b.len() ==> (banner::as_rgba(p, b) matches Some(t)
            && t[4 * i] == b[2 * i] && t[4 * i + 1] == b[2 * i] && t[4 * i + 2] == b[2 * i] && t[4
            * i + 3] == b[2 * i + 1]),
{
}

} // verus!
