//! Downloads that ended: what was fetched, the files it links to, and the game
//! that it becomes.

use crate::library::buttons::{games, urls};
use crate::library::filters;
use crate::library::index;
use crate::library::index::{HeaderIndex, Sidecars};
use crate::library::names;
use crate::library::order;
use crate::library::screen;
use crate::library::screen::{Screen, DISTANT_VISIBLE_ROWS};
use crate::library::sorting;
use crate::library::state;
use crate::library::state::{Candidate, Companions, Download, Entry, Remote, State};
use crate::library::swf;
use crate::loc;
use crate::loc::strings::Strings;
use crate::panel;
use crate::panel::{Toast, TOAST_ERR, TOAST_OK};
use crate::parts;
use crate::text;
use vstd::prelude::*;

verus! {

// ── A frame of a download ──────────────────────────────────────────────────

/// What a look at the running download came to.
#[derive(Clone, Copy, PartialEq, Eq, Structural, Debug)]
pub enum Polled {
    Waiting,
    /// The game's file is there: `on_download_finished`.
    GameEnded,
    /// A linked file is there, or is not to be had: `companion_download_finished`.
    CompanionEnded,
    /// The download failed, and the error is shown.
    Failed,
}

/// A look at the running download: not done yet, done, or why it failed. A linked
/// file that failed is passed over.
pub fn download_polled(s: &mut State, polled: Result<bool, String>) -> (r: Polled)
    ensures
        match (old(s).download.companions.active, polled) {
            (_, Ok(false)) => r == Polled::Waiting && *final(s) == *old(s),
            (true, _) => r == Polled::CompanionEnded && *final(s) == *old(s),
            (false, Ok(true)) => r == Polled::GameEnded && *final(s) == *old(s),
            (false, Err(m)) => r == Polled::Failed && urls::failed(*old(s), m@, *final(s)),
        },
{
    match polled {
        Ok(false) => Polled::Waiting,
        Ok(true) => if s.download.companions.active {
            Polled::CompanionEnded
        } else {
            Polled::GameEnded
        },
        Err(m) => if s.download.companions.active {
            Polled::CompanionEnded
        } else {
            urls::set_distant_error(s, m);
            Polled::Failed
        },
    }
}

// ── Is it what was asked for? ──────────────────────────────────────────────

/// The signature of an archive.
pub open spec fn zip_magic(head: Seq<u8>) -> bool {
    head.len() >= 4 && head[0] == 0x50 && head[1] == 0x4b && head[2] == 3 && head[3] == 4
}

/// Is the download an archive from which the movie is unpacked?
pub open spec fn wants_archive(d: Download) -> bool {
    d.zip_extract is Some && !d.fp_direct
}

/// Do the first bytes of the file show what was asked for, a movie or an archive?
pub open spec fn as_asked(d: Download, head: Seq<u8>) -> bool {
    if wants_archive(d) {
        zip_magic(head)
    } else {
        swf::magic(head) is Some
    }
}

/// Do the first bytes of the file show what was asked for?
pub fn looks_right(d: &Download, head: &[u8]) -> (r: bool)
    ensures
        r == as_asked(*d, head@),
{
    if d.zip_extract.is_some() && !d.fp_direct {
        head.len() >= 4 && head[0] == 0x50 && head[1] == 0x4b && head[2] == 3 && head[3] == 4
    } else {
        swf::magic_of(head).is_some()
    }
}

/// What is done with a file that was downloaded.
pub enum Finished {
    /// Nothing was being downloaded.
    Nothing,
    /// The file is not what was asked for: it is removed, and the error is shown.
    Discard { path: String },
    /// The file is the movie of a catalogue game: look for the files that it links
    /// to, `begin_companions`, then `finale`.
    Direct { path: String, command: String },
    /// The file is an archive: unpack the movie, remove the archive,
    /// `archive_unpacked`.
    Archive { zip: String, swf_path: String, command: String },
    /// The file is a movie: `add_or_replace_path`, then `import_finished`.
    Movie { path: String, source_url: String },
}

/// The step from a finished download to what is done with it. A file that is not
/// what was asked for leaves nothing of the download, and the URL can be typed
/// again.
pub open spec fn finished_step(pre: State, head: Seq<u8>, post: State, r: Finished) -> bool {
    let d = pre.download;
    if d.out_path@.len() == 0 {
        post == pre && r is Nothing
    } else if !as_asked(d, head) {
        &&& r matches Finished::Discard { path }
        &&& path@ == d.out_path@
        &&& post.download.idle()
        &&& urls::failed(
            State { download: post.download, ..pre },
            loc::table_of(pre.settings.lang).err_dl_not_a_game@,
            post,
        )
    } else if d.fp_direct {
        &&& post == pre
        &&& r matches Finished::Direct { path, command }
        &&& path@ == d.out_path@
        &&& command@ == d.launch_command@
    } else {
        match d.zip_extract {
            Some(movie) => {
                &&& post == pre
                &&& r matches Finished::Archive { zip, swf_path, command }
                &&& zip@ == d.out_path@
                &&& swf_path@ == movie@
                &&& command@ == d.launch_command@
            },
            None => {
                &&& post == pre
                &&& r matches Finished::Movie { path, source_url }
                &&& path@ == d.out_path@
                &&& source_url@ == d.source_url@
            },
        }
    }
}

/// The game's file was downloaded; `head` are its first bytes, none where it
/// cannot be read.
pub fn on_download_finished(s: &mut State, head: &[u8]) -> (r: Finished)
    ensures
        finished_step(*old(s), head@, *final(s), r),
{
    if s.download.out_path.unicode_len() == 0 {
        return Finished::Nothing;
    }
    let path: String = s.download.out_path.clone();
    if !looks_right(&s.download, head) {
        let lc: Strings = loc::s(&s.settings);
        urls::clear_download_state(&mut s.download);
        urls::set_distant_error(s, lc.err_dl_not_a_game.to_owned());
        return Finished::Discard { path };
    }
    let command: String = s.download.launch_command.clone();
    if s.download.fp_direct {
        return Finished::Direct { path, command };
    }
    match &s.download.zip_extract {
        Some(movie) => Finished::Archive { zip: path, swf_path: movie.clone(), command },
        None => Finished::Movie { path, source_url: s.download.source_url.clone() },
    }
}

/// The file of the download is named no more, nor is the row that it was started from.
pub open spec fn file_forgotten(pre: Download, post: Download) -> bool {
    &&& post == (Download {
        file_name: post.file_name,
        out_path: post.out_path,
        resume_pos: None,
        ..pre
    })
    &&& post.file_name@.len() == 0
    &&& post.out_path@.len() == 0
}

fn forget_file(d: &mut Download)
    ensures
        file_forgotten(*old(d), *final(d)),
{
    d.file_name = String::new();
    d.out_path = String::new();
    d.resume_pos = None;
}

/// Nothing is left of a catalogue game but where it came from and what was linked to
/// it, which the next game writes anew.
pub open spec fn game_forgotten(pre: Download, post: Download) -> bool {
    file_forgotten(
        Download { zip_extract: None, fp_direct: false, cover_url: None, title: None, ..pre },
        post,
    )
}

fn forget_game(d: &mut Download)
    ensures
        game_forgotten(*old(d), *final(d)),
{
    d.zip_extract = None;
    d.fp_direct = false;
    d.cover_url = None;
    d.title = None;
    forget_file(d);
}

/// What came out of an archive.
pub struct Unpacked {
    /// Does the launch command name a movie?
    pub command_is_movie: bool,
    /// The address of the movie that was unpacked.
    pub movie_url: Option<String>,
}

/// The movie was unpacked from its archive, or there was none. A launch command
/// that names a page is replaced by the address of the movie. True where the
/// import goes on: `begin_companions`, then `finale`.
pub fn archive_unpacked(s: &mut State, unpacked: Option<Unpacked>) -> (r: bool)
    ensures
        match unpacked {
            None => {
                &&& !r
                &&& game_forgotten(old(s).download, final(s).download)
                &&& urls::failed(
                    State { download: final(s).download, ..*old(s) },
                    loc::table_of(old(s).settings.lang).err_no_swf@,
                    *final(s),
                )
            },
            Some(u) => r && *final(s) == (State {
                download: Download {
                    launch_command: match u.movie_url {
                        Some(url) => if u.command_is_movie {
                            old(s).download.launch_command
                        } else {
                            url
                        },
                        None => old(s).download.launch_command,
                    },
                    ..old(s).download
                },
                ..*old(s)
            }),
        },
{
    match unpacked {
        None => {
            let lc: Strings = loc::s(&s.settings);
            forget_game(&mut s.download);
            urls::set_distant_error(s, lc.err_no_swf.to_owned());
            false
        },
        Some(u) => {
            if !u.command_is_movie {
                if let Some(url) = u.movie_url {
                    s.download.launch_command = url;
                }
            }
            true
        },
    }
}

// ── The files that a game links to ─────────────────────────────────────────

/// The lower-case file name in a launch command.
pub open spec fn command_file(command: Seq<char>) -> Seq<char> {
    text::ascii_lower(parts::before_either(parts::after_either(command, '/', '/'), '?', '#'))
}

/// The lower-case file name in a launch command.
pub fn main_of_command(command: &str) -> (r: String)
    ensures
        r@ == command_file(command@),
{
    let last: String = parts::tail_after(command, '/', '/');
    let name: String = parts::head_before(last.as_str(), '?', '#');
    text::to_ascii_lower(name.as_str())
}

/// The lower-case file name of an archive's entry.
pub fn main_of_entry(entry: &str) -> (r: String)
    ensures
        r@ == text::ascii_lower(parts::after_either(entry@, '/', '/')),
{
    let last: String = parts::tail_after(entry, '/', '/');
    text::to_ascii_lower(last.as_str())
}

proof fn tail_start_bounds(s: Seq<char>, c: char)
    ensures
        0 <= parts::tail_start(s, c, c) <= s.len(),
    decreases s.len(),
{
    if s.len() > 0 && s.last() != c {
        tail_start_bounds(s.drop_last(), c);
    }
}

/// An address up to its last slash.
pub fn directory_of(url: &str) -> (r: Option<String>)
    ensures
        match r {
            Some(d) => parts::tail_start(url@, '/', '/') > 0 && d@ == url@.take(
                parts::tail_start(url@, '/', '/'),
            ),
            None => parts::tail_start(url@, '/', '/') == 0,
        },
{
    proof {
        tail_start_bounds(url@, '/');
    }
    let v: Vec<char> = text::chars_of(url);
    let last: String = parts::tail_after(url, '/', '/');
    let w: Vec<char> = text::chars_of(last.as_str());
    let n: usize = v.len() - w.len();
    if n == 0 {
        return None;
    }
    assert(v@.subrange(0, n as int) =~= v@.take(n as int));
    Some(text::string_of(&v, 0, n))
}

/// The names that were ever queued, in lower case, and the names in the queue,
/// after `names` were put into it: each that was not queued before.
pub open spec fn enqueued(
    seen: Seq<Seq<char>>,
    queue: Seq<Seq<char>>,
    names: Seq<Seq<char>>,
) -> (Seq<Seq<char>>, Seq<Seq<char>>)
    decreases names.len(),
{
    if names.len() == 0 {
        (seen, queue)
    } else {
        let (s, q) = enqueued(seen, queue, names.drop_last());
        let low = text::ascii_lower(names.last());
        if s.contains(low) {
            (s, q)
        } else {
            (s.push(low), q.push(names.last()))
        }
    }
}

/// No name was queued twice, in whatever case, and what is in the queue was noted.
pub open spec fn orderly(seen: Seq<Seq<char>>, queue: Seq<Seq<char>>) -> bool {
    &&& seen.no_duplicates()
    &&& forall|i: int| 0 <= i < queue.len() ==> seen.contains(text::ascii_lower(#[trigger] queue[i]))
    &&& forall|i: int, j: int|
        0 <= i < j < queue.len() ==> text::ascii_lower(#[trigger] queue[i]) != text::ascii_lower(
            #[trigger] queue[j],
        )
}

/// A linked file is never fetched twice: what was ever queued stays noted, and a
/// name goes into the queue only where it was not noted.
pub proof fn no_companion_twice(
    seen: Seq<Seq<char>>,
    queue: Seq<Seq<char>>,
    names: Seq<Seq<char>>,
)
    requires
        orderly(seen, queue),
    ensures
        ({
            let (s, q) = enqueued(seen, queue, names);
            &&& orderly(s, q)
            &&& seen.len() <= s.len() && s.take(seen.len() as int) == seen
            &&& queue.len() <= q.len() && q.take(queue.len() as int) == queue
            &&& forall|i: int|
                queue.len() <= i < q.len() ==> !seen.contains(text::ascii_lower(#[trigger] q[i]))
        }),
    decreases names.len(),
{
    if names.len() > 0 {
        no_companion_twice(seen, queue, names.drop_last());
        let (s, q) = enqueued(seen, queue, names.drop_last());
        let low = text::ascii_lower(names.last());
        if !s.contains(low) {
            let s2 = s.push(low);
            let q2 = q.push(names.last());
            assert(s2.last() == low);
            assert forall|i: int| 0 <= i < q2.len() implies s2.contains(
                text::ascii_lower(#[trigger] q2[i]),
            ) by {
                if i < q.len() {
                    let k = choose|k: int| 0 <= k < s.len() && s[k] == text::ascii_lower(q[i]);
                    assert(s2[k] == text::ascii_lower(q2[i]));
                } else {
                    assert(s2[s.len() as int] == low);
                }
            }
            assert forall|i: int, j: int| 0 <= i < j < q2.len() implies text::ascii_lower(
                #[trigger] q2[i],
            ) != text::ascii_lower(#[trigger] q2[j]) by {
                if j == q.len() {
                    assert(s.contains(text::ascii_lower(q[i])));
                }
            }
            assert(s2.take(seen.len() as int) =~= s.take(seen.len() as int));
            assert(q2.take(queue.len() as int) =~= q.take(queue.len() as int));
            if seen.contains(low) {
                let k = choose|k: int| 0 <= k < seen.len() && seen[k] == low;
                assert(s.take(seen.len() as int)[k] == low);
                assert(s[k] == low);
            }
        }
    } else {
        assert(seen.take(seen.len() as int) =~= seen);
        assert(queue.take(queue.len() as int) =~= queue);
    }
}

fn enqueue(c: &mut Companions, names: &Vec<String>)
    ensures
        *final(c) == (Companions { seen: final(c).seen, queue: final(c).queue, ..*old(c) }),
        (text::texts(final(c).seen@), text::texts(final(c).queue@)) == enqueued(
            text::texts(old(c).seen@),
            text::texts(old(c).queue@),
            text::texts(names@),
        ),
{
    let ghost seen0 = text::texts(c.seen@);
    let ghost queue0 = text::texts(c.queue@);
    let ghost all = text::texts(names@);
    let mut i: usize = 0;
    assert(all.take(0) =~= Seq::empty());
    while i < names.len()
        invariant
            i <= names.len(),
            all == text::texts(names@),
            *c == (Companions { seen: c.seen, queue: c.queue, ..*old(c) }),
            (text::texts(c.seen@), text::texts(c.queue@)) == enqueued(
                seen0,
                queue0,
                all.take(i as int),
            ),
        decreases names.len() - i,
    {
        let low: String = text::to_ascii_lower(names[i].as_str());
        proof {
            assert(all.take(i + 1).drop_last() =~= all.take(i as int));
            assert(all.take(i + 1).last() == names@[i as int]@);
        }
        let ghost s1 = text::texts(c.seen@);
        let ghost q1 = text::texts(c.queue@);
        if state::place_of(&c.seen, low.as_str()).is_none() {
            proof {
                if s1.contains(low@) {
                    let k = choose|k: int| 0 <= k < s1.len() && s1[k] == low@;
                    assert(c.seen@[k]@ == low@);
                }
            }
            c.seen.push(low);
            c.queue.push(names[i].clone());
            assert(text::texts(c.seen@) =~= s1.push(low@));
            assert(text::texts(c.queue@) =~= q1.push(names@[i as int]@));
        } else {
            proof {
                let k = choose|k: int| 0 <= k < c.seen@.len() && (#[trigger] c.seen@[k])@ == low@;
                assert(s1[k] == low@);
            }
        }
        i = i + 1;
    }
    assert(all.take(all.len() as int) =~= all);
}

/// The files that a game links to are fetched from below `base` into `dir`; the
/// game's own file `main` is not.
pub fn begin_companions(s: &mut State, base: String, dir: String, main: String, names: &Vec<String>)
    ensures
        *final(s) == (State {
            download: Download {
                companions: Companions {
                    active: true,
                    base,
                    dir,
                    current: final(s).download.companions.current,
                    queue: final(s).download.companions.queue,
                    seen: final(s).download.companions.seen,
                    done: 0,
                },
                ..old(s).download
            },
            ..*old(s)
        }),
        final(s).download.companions.current@.len() == 0,
        (
            text::texts(final(s).download.companions.seen@),
            text::texts(final(s).download.companions.queue@),
        ) == enqueued(seq![main@], Seq::empty(), text::texts(names@)),
{
    let mut c: Companions = Companions::new();
    c.active = true;
    c.base = base;
    c.dir = dir;
    c.seen.push(main);
    assert(text::texts(c.seen@) =~= seq![main@]);
    assert(text::texts(c.queue@) =~= Seq::empty());
    enqueue(&mut c, names);
    s.download.companions = c;
}

/// A linked file to fetch.
pub struct Fetch {
    pub name: String,
    pub url: String,
    pub out_path: String,
}

/// Takes the next linked file from the queue. One whose download does not start is
/// passed over by asking again; for one that starts, `companion_started`.
pub fn next_companion(s: &mut State) -> (r: Option<Fetch>)
    ensures
        ({
            let c = old(s).download.companions;
            match r {
                None => c.queue@.len() == 0 && *final(s) == *old(s),
                Some(f) => {
                    &&& c.queue@.len() > 0
                    &&& f.name@ == c.queue@.last()@
                    &&& f.url@ == c.base@ + f.name@
                    &&& f.out_path@ == c.dir@ + "/"@ + f.name@
                    &&& final(s).download.companions.queue@ == c.queue@.drop_last()
                    &&& *final(s) == (State {
                        download: Download {
                            companions: Companions {
                                queue: final(s).download.companions.queue,
                                ..c
                            },
                            ..old(s).download
                        },
                        ..*old(s)
                    })
                },
            }
        }),
{
    if s.download.companions.queue.len() == 0 {
        return None;
    }
    match s.download.companions.queue.pop() {
        None => None,
        Some(name) => {
            let url: String = parts::concat(s.download.companions.base.as_str(), name.as_str());
            let out_path: String = parts::concat3(
                s.download.companions.dir.as_str(),
                "/",
                name.as_str(),
            );
            Some(Fetch { name, url, out_path })
        },
    }
}

/// The download of a linked file started.
pub fn companion_started(s: &mut State, name: String)
    ensures
        *final(s) == (State {
            download: Download {
                companions: Companions { current: name, ..old(s).download.companions },
                ..old(s).download
            },
            ..*old(s)
        }),
{
    s.download.companions.current = name;
}

/// There is no linked file left to fetch: `finale` follows.
pub fn companions_over(s: &mut State)
    ensures
        *final(s) == (State {
            download: Download {
                companions: Companions { active: false, ..old(s).download.companions },
                ..old(s).download
            },
            ..*old(s)
        }),
{
    s.download.companions.active = false;
}

/// Where the linked file is written that is being fetched.
pub fn companion_path(s: &State) -> (r: String)
    ensures
        r@ == s.download.companions.dir@ + "/"@ + s.download.companions.current@,
{
    parts::concat3(
        s.download.companions.dir.as_str(),
        "/",
        s.download.companions.current.as_str(),
    )
}

/// Is it the file of a movie?
pub open spec fn movie_file(b: Seq<u8>) -> bool {
    b.len() > 8 && swf::magic(b) is Some
}

/// Is it the file of a movie?
pub fn is_movie_file(b: &[u8]) -> (r: bool)
    ensures
        r == movie_file(b@),
{
    b.len() > 8 && swf::magic_of(b).is_some()
}

/// A linked file was fetched. `file` are its bytes, where they could be read, and
/// `more` the names that it links to itself. True where the file is no movie and
/// is to be removed; one that could not be read stays. Then `next_companion`, or
/// `companions_over`.
pub fn companion_download_finished(s: &mut State, file: Option<&[u8]>, more: &Vec<String>) -> (r:
    bool)
    ensures
        r == (file matches Some(b) && !movie_file(b@)),
        ({
            let c = old(s).download.companions;
            let d = final(s).download.companions;
            &&& *final(s) == (State {
                download: Download {
                    companions: Companions { queue: d.queue, seen: d.seen, done: d.done, ..c },
                    ..old(s).download
                },
                ..*old(s)
            })
            &&& d.done == (if c.done == u32::MAX {
                c.done
            } else {
                (c.done + 1) as u32
            })
            &&& if file matches Some(b) && movie_file(b@) {
                (text::texts(d.seen@), text::texts(d.queue@)) == enqueued(
                    text::texts(c.seen@),
                    text::texts(c.queue@),
                    text::texts(more@),
                )
            } else {
                d.seen == c.seen && d.queue == c.queue
            }
        }),
{
    let mut remove: bool = false;
    if let Some(b) = file {
        if is_movie_file(b) {
            enqueue(&mut s.download.companions, more);
        } else {
            remove = true;
        }
    }
    if s.download.companions.done < u32::MAX {
        s.download.companions.done = s.download.companions.done + 1;
    }
    remove
}

// ── The game goes into the list ────────────────────────────────────────────

/// The games with a new one at the end; the first of the same path goes.
pub open spec fn with_game(list: Seq<Entry>, path: Seq<char>, e: Entry) -> Seq<Entry> {
    match index::entry_at(list, path, 0) {
        Some(i) => list.remove(i).push(e),
        None => list.push(e),
    }
}

/// A game takes its place in the list, and that of the game of the same path.
pub open spec fn took_place(
    pre: State,
    path: Seq<char>,
    e: Entry,
    post: State,
) -> bool {
    &&& post == (State { entries: post.entries, ..pre })
    &&& sorting::is_sorted(
        with_game(pre.entries@, path, e),
        post.entries@,
        sorting::mode_at(pre.sorting.mode as int),
        pre.sorting.reverse,
        pre.playtime@,
        pre.favorites@,
    )
}

/// A downloaded game goes into the list, in its order, in place of one of the same
/// path. One without a header is left out.
pub fn add_or_replace_path(
    s: &mut State,
    h: &mut HeaderIndex,
    path: &str,
    now: u64,
    side: &Sidecars,
) -> (r: bool)
    ensures
        r == (index::header_of(old(h).rows@, path@, now, side.header) is Some),
        final(h).rows == old(h).rows,
        final(h).kept == old(h).kept,
        final(h).missed == (old(h).missed || index::kept_header(old(h).rows@, path@, now) is None),
        match index::header_of(old(h).rows@, path@, now, side.header) {
            Some(hd) => {
                &&& index::collected_one(old(h).collected@, final(h).collected@, path@, now, hd)
                &&& exists|e: Entry|
                    index::is_entry(e, path@, now, hd, *side) && #[trigger] took_place(
                        *old(s),
                        path@,
                        e,
                        *final(s),
                    )
            },
            None => *final(s) == *old(s) && final(h).collected == old(h).collected,
        },
{
    let ghost pre = *s;
    let earlier: Option<usize> = index::position_of_path(&s.entries, path);
    if !index::add_path(s, h, path, now, side) {
        return false;
    }
    let ghost e = s.entries@.last();
    assert(s.entries@ =~= pre.entries@.push(e));
    if let Some(i) = earlier {
        s.entries.remove(i);
        assert(s.entries@ =~= pre.entries@.remove(i as int).push(e));
    }
    games::resort(s);
    proof {
        assert(took_place(pre, path@, e, *s));
    }
    true
}

/// No path stands twice in the list.
pub open spec fn paths_distinct(list: Seq<Entry>) -> bool {
    forall|i: int, j: int|
        0 <= i < j < list.len() ==> (#[trigger] list[i]).path@ != (#[trigger] list[j]).path@
}

proof fn entry_at_is(list: Seq<Entry>, path: Seq<char>, from: int)
    requires
        0 <= from <= list.len(),
    ensures
        match index::entry_at(list, path, from) {
            Some(i) => from <= i < list.len() && list[i].path@ == path,
            None => forall|k: int| from <= k < list.len() ==> (#[trigger] list[k]).path@ != path,
        },
    decreases list.len() - from,
{
    if from < list.len() && list[from].path@ != path {
        entry_at_is(list, path, from + 1);
    }
}

/// A game that is downloaded again does not stand in the list twice.
pub proof fn download_again_keeps_one(
    pre: State,
    path: Seq<char>,
    e: Entry,
    post: State,
)
    requires
        paths_distinct(pre.entries@),
        e.path@ == path,
        took_place(pre, path, e, post),
    ensures
        paths_distinct(post.entries@),
        post.entries@.contains(e),
{
    let list = pre.entries@;
    let mid = with_game(list, path, e);
    entry_at_is(list, path, 0);
    match index::entry_at(list, path, 0) {
        Some(at) => {
            assert forall|i: int, j: int| 0 <= i < j < mid.len() implies (#[trigger] mid[i]).path@ != (
            #[trigger] mid[j]).path@ by {
                let a = if i < at {
                    i
                } else {
                    i + 1
                };
                assert(mid[i] == list[a]);
                if j == mid.len() - 1 {
                    if a < at {
                        assert(list[a].path@ != list[at].path@);
                    } else {
                        assert(list[at].path@ != list[a].path@);
                    }
                } else {
                    let b = if j < at {
                        j
                    } else {
                        j + 1
                    };
                    assert(mid[j] == list[b]);
                }
            }
        },
        None => {
            assert forall|i: int, j: int| 0 <= i < j < mid.len() implies (#[trigger] mid[i]).path@ != (
            #[trigger] mid[j]).path@ by {
                assert(mid[i] == list[i]);
            }
        },
    }
    assert(mid.last() == e);
    assert(mid.contains(e));
    let mode = sorting::mode_at(pre.sorting.mode as int);
    sorting::sorting_keeps_games(
        mid,
        post.entries@,
        mode,
        pre.sorting.reverse,
        pre.playtime@,
        pre.favorites@,
        e,
    );
    let keys = sorting::entry_keys(mid, mode, pre.playtime@);
    let pins = sorting::favored(mid, pre.favorites@);
    let o = choose|o: Seq<usize>| #[trigger]
        order::is_order(keys, pre.sorting.reverse, pins, o) && post.entries@ == order::arranged(
            mid,
            o,
        );
    let after = post.entries@;
    assert forall|i: int, j: int| 0 <= i < j < after.len() implies (#[trigger] after[i]).path@ != (
    #[trigger] after[j]).path@ by {
        assert(after[i] == mid[o[i] as int] && after[j] == mid[o[j] as int]);
        assert(o[i] != o[j]);
        if o[i] < o[j] {
            assert(mid[o[i] as int].path@ != mid[o[j] as int].path@);
        } else {
            assert(mid[o[j] as int].path@ != mid[o[i] as int].path@);
        }
    }
}

// ── The end of a catalogue game's import ───────────────────────────────────

/// A file name without its `.swf`.
pub open spec fn bare(name: Seq<char>) -> Seq<char> {
    if text::ends(name, ".swf"@) {
        name.take(name.len() - 4)
    } else {
        name
    }
}

/// A file name without its `.swf`.
pub fn bare_name(name: &str) -> (r: String)
    ensures
        r@ == bare(name@),
{
    proof {
        reveal_strlit(".swf");
    }
    if text::ends_with(name, ".swf") {
        let v: Vec<char> = text::chars_of(name);
        let n: usize = v.len() - 4;
        assert(v@.subrange(0, n as int) =~= name@.take(name@.len() - 4));
        text::string_of(&v, 0, n)
    } else {
        name.to_owned()
    }
}

/// The title that the game gets for its name: that of the catalogue, where it says
/// more than the file name.
pub open spec fn real_title(d: Download) -> Option<Seq<char>> {
    match d.title {
        Some(t) => {
            let t = text::trimmed(t@);
            if t.len() > 0 && t != bare(d.file_name@) {
                Some(t)
            } else {
                None
            }
        },
        None => None,
    }
}

/// The name that the player is told.
pub open spec fn told_name(d: Download) -> Seq<char> {
    match real_title(d) {
        Some(t) => t,
        None => bare(d.file_name@),
    }
}

fn title_of(d: &Download) -> (r: Option<String>)
    ensures
        index::text_in(r) == real_title(*d),
{
    match &d.title {
        Some(t) => {
            let t: String = text::trim(t.as_str());
            let stem: String = bare_name(d.file_name.as_str());
            if t.unicode_len() > 0 && !text::str_eq(t.as_str(), stem.as_str()) {
                Some(t)
            } else {
                None
            }
        },
        None => None,
    }
}

/// The movie that a catalogue game's import leaves on the card.
pub open spec fn movie_of(d: Download) -> Seq<char> {
    match d.zip_extract {
        Some(p) => p@,
        None => Seq::empty(),
    }
}

/// What is written for a catalogue game, in this order.
pub struct Finale {
    /// The movie: its size on the card is noted, and it goes into the list.
    pub swf_path: String,
    pub source_url: String,
    /// The address that the game's own paths are relative to.
    pub base: Option<String>,
    /// The cover to fetch.
    pub cover_url: Option<String>,
    /// The name to keep beside the game.
    pub title: Option<String>,
}

/// Is it an address of the web?
pub open spec fn web_address(u: Seq<char>) -> bool {
    text::starts(u, "http://"@) || text::starts(u, "https://"@)
}

/// What is written for the catalogue game that was downloaded. `command` is its
/// launch command without quotes. Then `finalize_gamezip_download`.
pub fn finale(s: &State, command: &str) -> (r: Option<Finale>)
    ensures
        match r {
            None => movie_of(s.download).len() == 0,
            Some(f) => {
                let d = s.download;
                &&& movie_of(d).len() > 0
                &&& f.swf_path@ == movie_of(d)
                &&& f.source_url@ == d.source_url@
                &&& index::text_in(f.base) == (if web_address(command@) {
                    Some(command@)
                } else {
                    None
                })
                &&& index::text_in(f.cover_url) == (if d.file_name@.len() > 0 {
                    index::text_in(d.cover_url)
                } else {
                    None
                })
                &&& index::text_in(f.title) == (if d.file_name@.len() > 0 {
                    real_title(d)
                } else {
                    None
                })
            },
        },
{
    let swf_path: String = match &s.download.zip_extract {
        Some(p) => p.clone(),
        None => {
            return None;
        },
    };
    if swf_path.unicode_len() == 0 {
        return None;
    }
    let named: bool = s.download.file_name.unicode_len() > 0;
    let base: Option<String> = if text::starts_with(command, "http://") || text::starts_with(
        command,
        "https://",
    ) {
        Some(command.to_owned())
    } else {
        None
    };
    let cover_url: Option<String> = if named {
        match &s.download.cover_url {
            Some(u) => Some(u.clone()),
            None => None,
        }
    } else {
        None
    };
    let title: Option<String> = if named {
        title_of(&s.download)
    } else {
        None
    };
    Some(Finale { swf_path, source_url: s.download.source_url.clone(), base, cover_url, title })
}

/// The first of the games named `name` is shown as `title`, where there is one.
pub open spec fn retitled(before: Seq<Entry>, after: Seq<Entry>, name: Seq<char>, title: Option<Seq<char>>) -> bool {
    match (title, games::game_named(before, name, 0)) {
        (Some(t), Some(i)) => {
            &&& after.len() == before.len()
            &&& after == before.update(
                i,
                Entry { display_name: after[i].display_name, ..before[i] },
            )
            &&& after[i].display_name@ == t
        },
        _ => after == before,
    }
}

/// The file counts as downloaded where it became a game.
pub open spec fn marked(before: Seq<String>, after: Seq<String>, name: Seq<char>, added: bool) -> bool {
    if added && name.len() > 0 && !state::listed(before, name) {
        after.len() == before.len() + 1 && after.drop_last() == before && after.last()@ == name
    } else {
        after == before
    }
}

fn mark_downloaded(list: &mut Vec<String>, name: &String, added: bool)
    ensures
        marked(old(list)@, final(list)@, name@, added),
{
    if added && name.unicode_len() > 0 && state::place_of(list, name.as_str()).is_none() {
        let ghost before = list@;
        list.push(name.clone());
        assert(list@.drop_last() =~= before);
    }
}

/// The row and the scroll that a download goes back to.
pub open spec fn resume(d: Download) -> (usize, usize) {
    match d.resume_pos {
        Some(p) => p,
        None => (0, 0),
    }
}

/// A row of a list of `n`, or its last.
pub open spec fn row_within(sel: usize, n: nat) -> usize {
    if sel < n {
        sel
    } else if n > 0 {
        (n - 1) as usize
    } else {
        0
    }
}

fn within(sel: usize, n: usize) -> (r: usize)
    ensures
        r == row_within(sel, n as nat),
{
    if sel < n {
        sel
    } else if n > 0 {
        n - 1
    } else {
        0
    }
}

/// The import of a catalogue game ended: the game has its title, the gallery comes
/// back where it was, and a toast says how it went.
pub open spec fn finalized(pre: State, added: bool, post: State) -> bool {
    let d = pre.download;
    let lc = loc::table_of(pre.settings.lang);
    if movie_of(d).len() == 0 {
        post == pre
    } else {
        &&& post == (State {
            entries: post.entries,
            remote: Remote { downloaded: post.remote.downloaded, ..pre.remote },
            download: post.download,
            toast: post.toast,
            screen: Screen::FpGallery {
                selection: row_within(resume(d).0, pre.covers.candidates@.len()),
                scroll: resume(d).1,
            },
            ..pre
        })
        &&& game_forgotten(d, post.download)
        &&& retitled(pre.entries@, post.entries@, d.file_name@, real_title(d))
        &&& marked(pre.remote.downloaded@, post.remote.downloaded@, d.file_name@, added)
        &&& if added {
            panel::says(
                post.toast,
                parts::replaced(lc.toast_dl_ok@, "{}"@, told_name(d)),
                TOAST_OK,
            )
        } else {
            panel::says(post.toast, lc.err_dl_not_a_game@, TOAST_ERR)
        }
    }
}

fn braces_hold()
    ensures
        "{}"@.len() > 0,
{
    proof {
        reveal_strlit("{}");
    }
}

/// The import of a catalogue game ended; `added` where the movie became a game.
pub fn finalize_gamezip_download(s: &mut State, added: bool)
    ensures
        finalized(*old(s), added, *final(s)),
{
    let empty: bool = match &s.download.zip_extract {
        Some(p) => p.unicode_len() == 0,
        None => true,
    };
    if empty {
        return;
    }
    let lc: Strings = loc::s(&s.settings);
    let ghost before = s.entries@;
    let name: String = s.download.file_name.clone();
    let title: Option<String> = title_of(&s.download);
    let shown: String = match &title {
        Some(t) => t.clone(),
        None => bare_name(name.as_str()),
    };
    if let Some(t) = title {
        if let Some(i) = games::find_game(&s.entries, name.as_str()) {
            s.entries[i].display_name = t;
        }
    }
    mark_downloaded(&mut s.remote.downloaded, &name, added);
    let (sel, scroll): (usize, usize) = match s.download.resume_pos {
        Some(p) => p,
        None => (0, 0),
    };
    forget_game(&mut s.download);
    s.screen = Screen::FpGallery { selection: within(sel, s.covers.candidates.len()), scroll };
    s.toast = if added {
        braces_hold();
        Toast::saying(parts::replace(lc.toast_dl_ok, "{}", shown.as_str()), TOAST_OK)
    } else {
        Toast::saying(lc.err_dl_not_a_game.to_owned(), TOAST_ERR)
    };
}

// ── The end of another import ──────────────────────────────────────────────

/// The first of the files whose name is `name` in whatever case.
pub open spec fn spelled(files: Seq<Seq<char>>, name: Seq<char>, from: int) -> Option<int>
    decreases files.len() - from,
{
    if from < 0 || from >= files.len() {
        None
    } else if text::ascii_lower(files[from]) == text::ascii_lower(name) {
        Some(from)
    } else {
        spelled(files, name, from + 1)
    }
}

/// The file of an item that a game asks for under `name`: its address and where it
/// is written, in the item's own spelling. Nothing where the item has no such
/// file.
pub fn asset_request(item: &str, dir: &str, name: &str, files: &Vec<String>) -> (r: Option<
    (String, String),
>)
    ensures
        match (r, spelled(text::texts(files@), name@, 0)) {
            (Some(x), Some(i)) => {
                &&& x.0@ == "https://archive.org/download/"@ + item@ + "/"@ + files@[i]@
                &&& x.1@ == dir@ + "/"@ + files@[i]@
            },
            (None, None) => true,
            _ => false,
        },
{
    let low: String = text::to_ascii_lower(name);
    let mut i: usize = 0;
    while i < files.len()
        invariant
            i <= files.len(),
            low@ == text::ascii_lower(name@),
            spelled(text::texts(files@), name@, 0) == spelled(
                text::texts(files@),
                name@,
                i as int,
            ),
        decreases files.len() - i,
    {
        let other: String = text::to_ascii_lower(files[i].as_str());
        if text::str_eq(other.as_str(), low.as_str()) {
            let start: String = parts::concat3("https://archive.org/download/", item, "/");
            let url: String = parts::concat(start.as_str(), files[i].as_str());
            let dest: String = parts::concat3(dir, "/", files[i].as_str());
            return Some((url, dest));
        }
        i = i + 1;
    }
    None
}

/// The game whose cover is searched after an import, and the term; nothing where
/// the name gives no term.
pub fn auto_cover_term(s: &State) -> (r: Option<(String, String)>)
    ensures
        ({
            let base = names::base_of(s.download.out_path@);
            match r {
                Some(x) => {
                    &&& base.len() > 0
                    &&& names::search_term(base).len() > 0
                    &&& x.0@ == base
                    &&& x.1@ == names::search_term(base)
                },
                None => base.len() == 0 || names::search_term(base).len() == 0,
            }
        }),
{
    if !loc::covers_online(&s.settings) {
        return None;
    }
    let base: String = names::basename_of(s.download.out_path.as_str());
    let term: String = names::cover_query_from_name(base.as_str());
    if base.unicode_len() == 0 || term.unicode_len() == 0 {
        return None;
    }
    Some((base, term))
}

/// The cover of a search that found exactly one game.
pub fn single_cover(found: &Vec<Candidate>) -> (r: Option<String>)
    ensures
        index::text_in(r) == (if found@.len() == 1 {
            Some(found@[0].cover_url@)
        } else {
            None
        }),
{
    if found.len() == 1 {
        Some(found[0].cover_url.clone())
    } else {
        None
    }
}

/// What the toast of an import says: that the file is no game, else which files are
/// missing, else that the game is there.
pub open spec fn import_toast(pre: State, added: bool, missing: Seq<Seq<char>>, post: Toast) -> bool {
    let lc = loc::table_of(pre.settings.lang);
    let shown = bare(pre.download.file_name@);
    if !added {
        panel::says(post, lc.err_dl_not_a_game@, TOAST_ERR)
    } else if missing.len() > 0 {
        panel::says(
            post,
            parts::replaced(lc.toast_assets_missing@, "{}"@, parts::joined(missing, ", "@)),
            TOAST_ERR,
        )
    } else if shown.len() > 0 {
        panel::says(post, parts::replaced(lc.toast_dl_ok@, "{}"@, shown), TOAST_OK)
    } else {
        post == pre.toast
    }
}

/// The list that an import goes back to: the item's files where they were, or the
/// saved URLs.
pub open spec fn after_import(s: State) -> Screen {
    if s.remote.files@.len() == 0 {
        screen::idle_at(s.scroll.import as int, 0)
    } else {
        let n = filters::kept(filters::files_kept(s.remote.files@, s.remote.filter)).len();
        let sel = row_within(resume(s.download).0, n);
        Screen::DistantFiles {
            selection: sel,
            scroll_offset: screen::scrolled_to(
                resume(s.download).1 as int,
                sel as int,
                DISTANT_VISIBLE_ROWS as int,
            ) as usize,
        }
    }
}

/// The import of a movie ended; `added` where it became a game, `missing` the files
/// that it asks for and that could not be had.
pub fn import_finished(s: &mut State, added: bool, missing: &Vec<String>)
    ensures
        *final(s) == (State {
            remote: Remote {
                failed_url: final(s).remote.failed_url,
                downloaded: final(s).remote.downloaded,
                ..old(s).remote
            },
            download: final(s).download,
            toast: final(s).toast,
            screen: after_import(*old(s)),
            ..*old(s)
        }),
        file_forgotten(old(s).download, final(s).download),
        final(s).remote.failed_url@.len() == 0,
        marked(
            old(s).remote.downloaded@,
            final(s).remote.downloaded@,
            old(s).download.file_name@,
            added,
        ),
        import_toast(*old(s), added, text::texts(missing@), final(s).toast),
{
    let lc: Strings = loc::s(&s.settings);
    let name: String = s.download.file_name.clone();
    let shown: String = bare_name(name.as_str());
    let (sel, scroll): (usize, usize) = match s.download.resume_pos {
        Some(p) => p,
        None => (0, 0),
    };
    if s.remote.files.len() == 0 {
        s.screen = screen::distant_idle_at(s.scroll.import, 0);
    } else {
        let n: usize = filters::filtered_indices(&s.remote.files, &s.remote.filter).len();
        let row: usize = within(sel, n);
        s.screen = Screen::DistantFiles {
            selection: row,
            scroll_offset: screen::clamp_scroll(scroll, row, DISTANT_VISIBLE_ROWS),
        };
    }
    s.remote.failed_url = String::new();
    mark_downloaded(&mut s.remote.downloaded, &name, added);
    forget_file(&mut s.download);
    braces_hold();
    if !added {
        s.toast = Toast::saying(lc.err_dl_not_a_game.to_owned(), TOAST_ERR);
    } else if missing.len() > 0 {
        let list: String = parts::join(missing, ", ");
        s.toast = Toast::saying(
            parts::replace(lc.toast_assets_missing, "{}", list.as_str()),
            TOAST_ERR,
        );
    } else if shown.unicode_len() > 0 {
        s.toast = Toast::saying(parts::replace(lc.toast_dl_ok, "{}", shown.as_str()), TOAST_OK);
    }
}

} // verus!
