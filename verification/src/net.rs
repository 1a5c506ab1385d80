//! Addresses and answers of the import sources.

use crate::digits;
use crate::json;
use crate::json::Json;
use crate::loc;
use crate::loc::strings::Strings;
use crate::loc::Settings;
use crate::parts;
use crate::text;
use vstd::prelude::*;

verus! {

// ── Item ids ───────────────────────────────────────────────────────────────

/// The segment behind the first `details` or `download` that has one.
pub open spec fn item_in(segs: Seq<Seq<char>>) -> Option<Seq<char>>
    decreases segs.len(),
{
    if segs.len() < 2 {
        None
    } else if (segs[0] == "details"@ || segs[0] == "download"@) && segs[1].len() > 0 {
        Some(segs[1])
    } else {
        item_in(segs.drop_first())
    }
}

/// The archive.org item that a URL or a bare id names.
pub open spec fn item_id(url: Seq<char>) -> Option<Seq<char>> {
    let t = text::trimmed(url);
    if !text::occurs(t, "/"@) {
        if t.len() == 0 {
            None
        } else {
            Some(t)
        }
    } else {
        item_in(parts::pieces(t, '/'))
    }
}

/// The item id of `https://archive.org/details/<id>`, of
/// `https://archive.org/download/<id>/..`, or the bare id itself.
pub fn extract_item_id(url_or_id: &str) -> (r: Option<String>)
    ensures
        match r {
            Some(id) => item_id(url_or_id@) == Some(id@),
            None => item_id(url_or_id@) == None::<Seq<char>>,
        },
{
    let t: String = text::trim(url_or_id);
    if !text::contains(t.as_str(), "/") {
        if t.unicode_len() == 0 {
            return None;
        }
        return Some(t);
    }
    let segs: Vec<String> = parts::split(t.as_str(), '/');
    let ghost sv = text::texts(segs@);
    let mut i: usize = 0;
    assert(sv.skip(0) =~= sv);
    while segs.len() - i > 1
        invariant
            i <= segs.len(),
            sv == text::texts(segs@),
            item_id(url_or_id@) == item_in(sv),
            item_in(sv) == item_in(sv.skip(i as int)),
        decreases segs.len() - i,
    {
        let p: &str = segs[i].as_str();
        let ghost rest = sv.skip(i as int);
        assert(rest[0] == segs@[i as int]@ && rest[1] == segs@[i + 1]@);
        if (text::str_eq(p, "details") || text::str_eq(p, "download")) && segs[i
            + 1].unicode_len() > 0 {
            return Some(segs[i + 1].clone());
        }
        assert(rest.drop_first() =~= sv.skip(i + 1));
        i = i + 1;
    }
    assert(sv.skip(i as int).len() < 2);
    None
}

// ── Percent encoding ───────────────────────────────────────────────────────

/// The bytes that stand for themselves in a path segment.
pub open spec fn url_safe(b: u8) -> bool {
    ||| 0x41 <= b <= 0x5a
    ||| 0x61 <= b <= 0x7a
    ||| 0x30 <= b <= 0x39
    ||| b == 0x2e
    ||| b == 0x2d
    ||| b == 0x5f
    ||| b == 0x7e
}

/// The upper-case hexadecimal digit for `d`, `0 <= d < 16`.
pub open spec fn upper_hex(d: int) -> char {
    if d < 10 {
        (0x30 + d) as char
    } else {
        (0x41 + (d - 10)) as char
    }
}

/// How one byte is written in a path segment.
pub open spec fn encoded_byte(b: u8) -> Seq<char> {
    if url_safe(b) {
        seq![b as char]
    } else {
        seq!['%', upper_hex(b as int / 16), upper_hex(b as int % 16)]
    }
}

/// How bytes are written in a path segment.
pub open spec fn encoded(bytes: Seq<u8>) -> Seq<char>
    decreases bytes.len(),
{
    if bytes.len() == 0 {
        Seq::empty()
    } else {
        encoded(bytes.drop_last()) + encoded_byte(bytes.last())
    }
}

fn upper_hex_digit(d: u8) -> (r: char)
    requires
        d < 16,
    ensures
        r == upper_hex(d as int),
{
    if d < 10 {
        (0x30 + d) as char
    } else {
        (0x41 + (d - 10)) as char
    }
}

/// `s` as a path segment: letters, digits, `.`, `-`, `_` and `~` as they are,
/// every other byte of its UTF-8 form as `%XX`.
pub fn url_encode_path(s: &str) -> (r: String)
    ensures
        r@ == encoded(vstd::utf8::encode_utf8(s@)),
{
    let bytes: &[u8] = s.as_bytes();
    let mut out: String = String::new();
    let mut i: usize = 0;
    assert(bytes@.take(0) =~= Seq::empty());
    assert(out@ =~= encoded(bytes@.take(0)));
    while i < bytes.len()
        invariant
            i <= bytes.len(),
            out@ == encoded(bytes@.take(i as int)),
        decreases bytes.len() - i,
    {
        let b: u8 = bytes[i];
        let ghost before = out@;
        assert(bytes@.take(i + 1).drop_last() =~= bytes@.take(i as int));
        let safe: bool = (0x41 <= b && b <= 0x5a) || (0x61 <= b && b <= 0x7a) || (0x30 <= b && b
            <= 0x39) || b == 0x2e || b == 0x2d || b == 0x5f || b == 0x7e;
        if safe {
            out.push(b as char);
        } else {
            out.push('%');
            out.push(upper_hex_digit(b / 16));
            out.push(upper_hex_digit(b % 16));
        }
        assert(out@ =~= before + encoded_byte(b));
        i = i + 1;
    }
    assert(bytes@.take(i as int) =~= bytes@);
    out
}

/// The value of an upper-case hexadecimal digit.
pub open spec fn hex_value(c: char) -> int {
    if '0' <= c && c <= '9' {
        c as int - 0x30
    } else {
        c as int - 0x41 + 10
    }
}

/// The bytes that a written path segment stands for.
pub open spec fn decoded(s: Seq<char>) -> Seq<u8>
    decreases s.len(),
{
    if s.len() == 0 {
        Seq::empty()
    } else if s.len() >= 3 && s[s.len() - 3] == '%' {
        decoded(s.take(s.len() - 3)).push(
            (hex_value(s[s.len() - 2]) * 16 + hex_value(s[s.len() - 1])) as u8,
        )
    } else {
        decoded(s.drop_last()).push(s.last() as u8)
    }
}

/// Only safe characters and percent signs are written.
pub proof fn encoded_is_safe(bytes: Seq<u8>)
    ensures
        forall|i: int|
            0 <= i < encoded(bytes).len() ==> {
                ||| (#[trigger] encoded(bytes)[i]) == '%'
                ||| ((encoded(bytes)[i] as int) < 128 && url_safe(encoded(bytes)[i] as u8))
            },
    decreases bytes.len(),
{
    if bytes.len() > 0 {
        encoded_is_safe(bytes.drop_last());
        let a = encoded(bytes.drop_last());
        let b = bytes.last();
        assert forall|i: int| 0 <= i < encoded(bytes).len() implies {
            ||| (#[trigger] encoded(bytes)[i]) == '%'
            ||| ((encoded(bytes)[i] as int) < 128 && url_safe(encoded(bytes)[i] as u8))
        } by {
            if i >= a.len() {
                assert(encoded(bytes)[i] == encoded_byte(b)[i - a.len()]);
            }
        }
    }
}

/// The position of a percent sign is never one of the last two of a written text.
proof fn no_late_percent(bytes: Seq<u8>)
    ensures
        encoded(bytes).len() >= 1 ==> encoded(bytes)[encoded(bytes).len() - 1] != '%',
        encoded(bytes).len() >= 2 ==> encoded(bytes)[encoded(bytes).len() - 2] != '%',
    decreases bytes.len(),
{
    if bytes.len() > 0 {
        no_late_percent(bytes.drop_last());
        let a = encoded(bytes.drop_last());
        let e = encoded_byte(bytes.last());
        assert(encoded(bytes) == a + e);
        if e.len() == 1 && a.len() > 0 {
            assert((a + e)[a.len() - 1] == a[a.len() - 1]);
        }
    }
}

/// What was written can be read: decoding gives back the bytes.
pub proof fn encoded_reads_back(bytes: Seq<u8>)
    ensures
        decoded(encoded(bytes)) == bytes,
    decreases bytes.len(),
{
    if bytes.len() == 0 {
        assert(decoded(encoded(bytes)) =~= bytes);
    } else {
        let rest = bytes.drop_last();
        encoded_reads_back(rest);
        no_late_percent(rest);
        let a = encoded(rest);
        let b = bytes.last();
        let s = encoded(bytes);
        assert(s == a + encoded_byte(b));
        if url_safe(b) {
            assert(s.drop_last() =~= a);
            assert(s.last() as u8 == b);
            if s.len() >= 3 {
                assert(s[s.len() - 3] == a[a.len() - 2]);
            }
        } else {
            assert(s.take(s.len() - 3) =~= a);
            assert(s[s.len() - 3] == '%');
        }
        assert(decoded(s) =~= bytes);
    }
}

// ── Texts that come as bytes ───────────────────────────────────────────────

/// `String::from_utf8`: the text that the bytes encode, where they are UTF-8.
#[verifier::external_body]
pub(crate) fn utf8_text(bytes: Vec<u8>) -> (r: Option<String>)
    ensures
        match r {
            Some(s) => vstd::utf8::valid_utf8(bytes@) && s@ == vstd::utf8::decode_utf8(bytes@),
            None => !vstd::utf8::valid_utf8(bytes@),
        },
{
    String::from_utf8(bytes).ok()
}

/// The bytes before the first zero.
pub open spec fn before_zero(b: Seq<u8>) -> Seq<u8>
    decreases b.len(),
{
    if b.len() == 0 || b[0] == 0 {
        Seq::empty()
    } else {
        seq![b[0]] + before_zero(b.drop_first())
    }
}

/// The text in a zero-terminated buffer, where it is UTF-8.
pub open spec fn buffer_text(b: Seq<u8>) -> Option<Seq<char>> {
    let t = before_zero(b);
    if vstd::utf8::valid_utf8(t) {
        Some(vstd::utf8::decode_utf8(t))
    } else {
        None
    }
}

/// What was typed: the text in the keyboard's buffer. `None` where the keyboard
/// was left (`rc` is not 0) or the buffer holds no text.
pub fn typed(rc: i32, buf: Vec<u8>) -> (r: Option<String>)
    ensures
        match r {
            Some(s) => rc == 0 && buffer_text(buf@) == Some(s@),
            None => rc != 0 || buffer_text(buf@) == None::<Seq<char>>,
        },
{
    if rc != 0 {
        return None;
    }
    let mut out: Vec<u8> = Vec::new();
    let mut i: usize = 0;
    assert(buf@.skip(0) =~= buf@);
    assert(out@ + before_zero(buf@) =~= before_zero(buf@));
    while i < buf.len() && buf[i] != 0
        invariant
            i <= buf.len(),
            out@ + before_zero(buf@.skip(i as int)) == before_zero(buf@),
        decreases buf.len() - i,
    {
        assert(buf@.skip(i as int).drop_first() =~= buf@.skip(i + 1));
        let ghost before = out@;
        out.push(buf[i]);
        assert(before + (seq![buf@[i as int]] + before_zero(buf@.skip(i + 1))) =~= out@
            + before_zero(buf@.skip(i + 1)));
        i = i + 1;
    }
    assert(before_zero(buf@.skip(i as int)) =~= Seq::empty());
    assert(out@ =~= before_zero(buf@));
    utf8_text(out)
}

/// What was typed as a URL: nothing counts as leaving the keyboard.
pub fn typed_url(rc: i32, buf: Vec<u8>) -> (r: Option<String>)
    ensures
        match r {
            Some(s) => rc == 0 && s@.len() > 0 && buffer_text(buf@) == Some(s@),
            None => rc != 0 || buffer_text(buf@) == None::<Seq<char>> || buffer_text(buf@) == Some(
                Seq::<char>::empty(),
            ),
        },
{
    match typed(rc, buf) {
        Some(s) => if s.unicode_len() > 0 {
            Some(s)
        } else {
            assert(s@ =~= Seq::<char>::empty());
            None
        },
        None => None,
    }
}

/// The header and the guide of the keyboard for a bug report.
pub fn prompt_bug(st: &Settings) -> (r: (&'static str, &'static str))
    ensures
        r == (loc::table_of(st.lang).kbd_bug_header, loc::table_of(st.lang).kbd_bug_guide),
{
    let lc: Strings = loc::s(st);
    (lc.kbd_bug_header, lc.kbd_bug_guide)
}

// ── What a failed transfer is reported as ──────────────────────────────────

/// Where a transfer writes to.
#[derive(Clone, Copy, PartialEq, Eq, Structural)]
pub enum Sink {
    Memory,
    Sd,
}

/// A transfer that failed: the numbers of the transfer layer and its own words.
pub struct Failure {
    pub curl: i32,
    pub http: i64,
    pub detail: String,
}

/// The most specific message for a failed transfer.
pub open spec fn failure_text(lc: Strings, sink: Sink, curl: int, http: int, detail: Seq<char>) -> Seq<
    char,
> {
    if curl == 23 {
        if sink == Sink::Memory {
            lc.err_response_big@
        } else {
            lc.err_sd_write@
        }
    } else if curl == 5 || curl == 6 || curl == 7 {
        lc.err_offline@
    } else if curl == 28 {
        lc.err_timeout@
    } else if curl == 35 || curl == 51 || curl == 53 || curl == 54 || curl == 58 || curl == 59
        || curl == 60 || curl == 66 || curl == 77 || curl == 83 {
        lc.err_tls@
    } else if http >= 400 {
        loc::status_text(lc, http)
    } else {
        loc::filled_in(lc.err_https@, detail)
    }
}

/// The most specific message for a failed transfer: a write that fell short, no
/// network, a timeout, TLS, the server's answer, or the layer's own words.
pub fn https_error_message(st: &Settings, sink: Sink, f: &Failure) -> (r: String)
    ensures
        r@ == failure_text(loc::table_of(st.lang), sink, f.curl as int, f.http as int, f.detail@),
{
    let lc: Strings = loc::s(st);
    match f.curl {
        23 => match sink {
            Sink::Memory => lc.err_response_big.to_owned(),
            Sink::Sd => lc.err_sd_write.to_owned(),
        },
        5 | 6 | 7 => lc.err_offline.to_owned(),
        28 => lc.err_timeout.to_owned(),
        35 | 51 | 53 | 54 | 58 | 59 | 60 | 66 | 77 | 83 => lc.err_tls.to_owned(),
        _ => if f.http >= 400 {
            loc::err_http_status(st, f.http)
        } else {
            loc::err_https(st, f.detail.as_str())
        },
    }
}

/// The message for a negative result that carries no transfer result.
pub open spec fn code_text(lc: Strings, n: int) -> Seq<char> {
    loc::filled_in(lc.err_https@, "rc "@ + loc::signed(n))
}

fn code_message(st: &Settings, n: i32) -> (r: String)
    ensures
        r@ == code_text(loc::table_of(st.lang), n as int),
{
    let d: String = loc::signed_text(n as i64);
    let detail: String = parts::concat("rc ", d.as_str());
    loc::err_https(st, detail.as_str())
}

/// The message for the result `n` of a request into memory, where `n` is an
/// error: -3 too large (told by `too_large`), -2 a failed transfer, another
/// negative number that number.
pub open spec fn request_error(
    lc: Strings,
    too_large: Seq<char>,
    n: int,
    curl: int,
    http: int,
    detail: Seq<char>,
) -> Option<Seq<char>> {
    if n == -3 {
        Some(too_large)
    } else if n == -2 {
        Some(failure_text(lc, Sink::Memory, curl, http, detail))
    } else if n < 0 {
        Some(code_text(lc, n))
    } else {
        None
    }
}

fn request_message(st: &Settings, too_large: &str, n: i32, f: &Failure) -> (r: Option<String>)
    ensures
        match r {
            Some(m) => request_error(
                loc::table_of(st.lang),
                too_large@,
                n as int,
                f.curl as int,
                f.http as int,
                f.detail@,
            ) == Some(m@),
            None => n >= 0,
        },
{
    if n == -3 {
        return Some(too_large.to_owned());
    }
    if n == -2 {
        return Some(https_error_message(st, Sink::Memory, f));
    }
    if n < 0 {
        return Some(code_message(st, n));
    }
    None
}

/// The message for the result `n` of a GET, where it is an error.
pub fn http_get_error(st: &Settings, n: i32, f: &Failure) -> (r: Option<String>)
    ensures
        match r {
            Some(m) => request_error(
                loc::table_of(st.lang),
                loc::table_of(st.lang).err_response_big@,
                n as int,
                f.curl as int,
                f.http as int,
                f.detail@,
            ) == Some(m@),
            None => n >= 0,
        },
{
    let lc: Strings = loc::s(st);
    request_message(st, lc.err_response_big, n, f)
}

/// The message for the result `n` of a POST, where it is an error.
pub fn post_json_error(st: &Settings, n: i32, f: &Failure) -> (r: Option<String>)
    ensures
        match r {
            Some(m) => request_error(
                loc::table_of(st.lang),
                loc::table_of(st.lang).err_too_large@,
                n as int,
                f.curl as int,
                f.http as int,
                f.detail@,
            ) == Some(m@),
            None => n >= 0,
        },
{
    let lc: Strings = loc::s(st);
    request_message(st, lc.err_too_large, n, f)
}

/// Whether a fetch was started, from what the transfer layer returned.
pub fn start_get_async(st: &Settings, rc: i32) -> (r: Result<(), String>)
    ensures
        match r {
            Ok(_) => rc == 0,
            Err(m) => rc != 0 && m@ == code_text(loc::table_of(st.lang), rc as int),
        },
{
    if rc != 0 {
        Err(code_message(st, rc))
    } else {
        Ok(())
    }
}

/// Whether a download was started, from what the transfer layer returned.
pub fn start_download(st: &Settings, rc: i32) -> (r: Result<(), String>)
    ensures
        match r {
            Ok(_) => rc == 0,
            Err(m) => rc != 0 && m@ == loc::filled_in(
                loc::table_of(st.lang).err_dl_start@,
                loc::signed(rc as int),
            ),
        },
{
    if rc != 0 {
        Err(loc::err_dl_start(st, rc))
    } else {
        Ok(())
    }
}

/// What a step of a download says: `Ok(false)` it goes on, `Ok(true)` it is
/// done, or why it failed.
pub fn tick_download(st: &Settings, rc: i32, f: &Failure) -> (r: Result<bool, String>)
    ensures
        match r {
            Ok(done) => (rc == 0 && !done) || (rc == 1 && done),
            Err(m) => rc != 0 && rc != 1 && m@ == (if rc == -2 {
                failure_text(
                    loc::table_of(st.lang),
                    Sink::Sd,
                    f.curl as int,
                    f.http as int,
                    f.detail@,
                )
            } else {
                loc::filled_in(loc::table_of(st.lang).err_dl_failed@, loc::signed(rc as int))
            }),
        },
{
    if rc == 0 {
        return Ok(false);
    }
    if rc == 1 {
        return Ok(true);
    }
    if rc == -2 {
        return Err(https_error_message(st, Sink::Sd, f));
    }
    Err(loc::err_dl_failed(st, rc))
}

/// The length that a server reports; `None` where it reports none.
pub fn head_content_length(n: i64) -> (r: Option<u64>)
    ensures
        r == (if n > 0 {
            Some(n as u64)
        } else {
            None::<u64>
        }),
{
    if n > 0 {
        Some(n as u64)
    } else {
        None
    }
}

// ── archive.org ────────────────────────────────────────────────────────────

/// One file of an archive.org item.
pub struct RemoteFile {
    pub name: String,
    pub size_bytes: u64,
    pub download_url: String,
}

/// The mathematical value of a `RemoteFile`.
pub struct FileView {
    pub name: Seq<char>,
    pub size: u64,
    pub url: Seq<char>,
}

impl View for RemoteFile {
    type V = FileView;

    open spec fn view(&self) -> FileView {
        FileView { name: self.name@, size: self.size_bytes, url: self.download_url@ }
    }
}

impl RemoteFile {
    /// The same file.
    pub fn copy(&self) -> (r: RemoteFile)
        ensures
            r == *self,
    {
        RemoteFile {
            name: self.name.clone(),
            size_bytes: self.size_bytes,
            download_url: self.download_url.clone(),
        }
    }
}

/// The values of a list of files.
pub open spec fn file_views(v: Seq<RemoteFile>) -> Seq<FileView> {
    Seq::new(v.len(), |i: int| v[i]@)
}

/// The address of an item's metadata.
pub fn archive_metadata_url(item_id: &str) -> (r: String)
    ensures
        r@ == "https://archive.org/metadata/"@ + item_id@,
{
    parts::concat("https://archive.org/metadata/", item_id)
}

/// The address of one file of an item.
pub open spec fn file_address(item: Seq<char>, name: Seq<char>) -> Seq<char> {
    "https://archive.org/download/"@ + item + "/"@ + encoded(vstd::utf8::encode_utf8(name))
}

/// The file that an entry of the metadata names: a Flash file with a name. A
/// size that is no number counts as 0.
pub open spec fn file_in(t: json::Tree, item: Seq<char>) -> Option<FileView> {
    match (json::string(json::field(t, "format"@)), json::string(json::field(t, "name"@))) {
        (Some(format), Some(name)) => if format == "Shockwave Flash"@ && name.len() > 0 {
            Some(
                FileView {
                    name,
                    size: match json::string(json::field(t, "size"@)) {
                        Some(s) => match digits::parsed(s, u64::MAX as nat) {
                            Some(n) => n as u64,
                            None => 0,
                        },
                        None => 0,
                    },
                    url: file_address(item, name),
                },
            )
        } else {
            None
        },
        _ => None,
    }
}

/// The Flash files among the entries of the metadata, in their order.
pub open spec fn files_in(entries: Seq<json::Tree>, item: Seq<char>) -> Seq<FileView>
    decreases entries.len(),
{
    if entries.len() == 0 {
        Seq::empty()
    } else {
        match file_in(entries.last(), item) {
            Some(f) => files_in(entries.drop_last(), item).push(f),
            None => files_in(entries.drop_last(), item),
        }
    }
}

/// What an item's metadata says: its Flash files, or why they are not to be had.
pub open spec fn metadata(lc: Strings, bytes: Seq<u8>, item: Seq<char>) -> Result<
    Seq<FileView>,
    Seq<char>,
> {
    match json::parsed_json(bytes) {
        Err(e) => Err(loc::filled_in(lc.err_json@, e)),
        Ok(t) => match json::field(t, "files"@) {
            Some(json::Tree::Array(a)) => Ok(files_in(a, item)),
            _ => Err(lc.err_json_no_files@),
        },
    }
}

fn remote_file(j: &Json, item_id: &str) -> (r: Option<RemoteFile>)
    ensures
        match r {
            Some(f) => file_in(json::tree(*j), item_id@) == Some(f@),
            None => file_in(json::tree(*j), item_id@) == None::<FileView>,
        },
{
    let format: &str = match json::as_text(j.get("format")) {
        Some(f) => f.as_str(),
        None => return None,
    };
    if !text::str_eq(format, "Shockwave Flash") {
        return None;
    }
    let name: String = match json::as_text(j.get("name")) {
        Some(n) => n.clone(),
        None => return None,
    };
    if name.unicode_len() == 0 {
        return None;
    }
    let size_bytes: u64 = match json::as_text(j.get("size")) {
        Some(s) => match digits::parse(s.as_str(), u64::MAX) {
            Some(n) => n,
            None => 0,
        },
        None => 0,
    };
    let tail: String = url_encode_path(name.as_str());
    let mut download_url: String = parts::concat3("https://archive.org/download/", item_id, "/");
    download_url.append(tail.as_str());
    Some(RemoteFile { name, size_bytes, download_url })
}

/// The Flash files of an item, from its metadata.
pub fn parse_archive_metadata(st: &Settings, buf: &[u8], item_id: &str) -> (r: Result<
    Vec<RemoteFile>,
    String,
>)
    ensures
        match r {
            Ok(v) => metadata(loc::table_of(st.lang), buf@, item_id@) == Ok::<
                Seq<FileView>,
                Seq<char>,
            >(file_views(v@)),
            Err(e) => metadata(loc::table_of(st.lang), buf@, item_id@) == Err::<
                Seq<FileView>,
                Seq<char>,
            >(e@),
        },
{
    let lc: Strings = loc::s(st);
    let doc: Json = match json::parse_json(buf) {
        Ok(j) => j,
        Err(e) => return Err(loc::err_json(st, e.as_str())),
    };
    match doc.get("files") {
        Some(Json::Array(v)) => {
            let ghost a = json::trees(v@);
            proof {
                json::trees_index(v@);
            }
            let mut out: Vec<RemoteFile> = Vec::new();
            let mut i: usize = 0;
            assert(a.take(0) =~= Seq::empty());
            assert(file_views(out@) =~= files_in(a.take(0), item_id@));
            while i < v.len()
                invariant
                    i <= v.len(),
                    a == json::trees(v@),
                    a.len() == v.len(),
                    forall|k: int| 0 <= k < v.len() ==> #[trigger] a[k] == json::tree(v@[k]),
                    file_views(out@) == files_in(a.take(i as int), item_id@),
                decreases v.len() - i,
            {
                assert(a.take(i + 1).drop_last() =~= a.take(i as int));
                assert(a.take(i + 1).last() == a[i as int]);
                let ghost before = file_views(out@);
                if let Some(f) = remote_file(&v[i], item_id) {
                    let ghost fv = f@;
                    out.push(f);
                    assert(file_views(out@) =~= before.push(fv));
                }
                i = i + 1;
            }
            assert(a.take(i as int) =~= a);
            Ok(out)
        },
        _ => Err(lc.err_json_no_files.to_owned()),
    }
}

/// What a look at a metadata fetch finds.
pub enum ArchivePoll {
    Pending,
    Done(Vec<RemoteFile>),
    Error(String),
}

/// What a look at another fetch finds.
pub enum GetPoll {
    Pending,
    Done(Vec<u8>),
    Error(String),
}

/// What a look at a metadata fetch finds. `rc` is 0 while it runs and negative
/// where it failed; then `body` is the answer, `None` where it was too large.
pub fn tick_archive_fetch(st: &Settings, item_id: &str, rc: i32, f: &Failure, body: Option<&[u8]>) -> (r:
    ArchivePoll)
    ensures
        rc == 0 <==> r is Pending,
        rc < 0 ==> (r matches ArchivePoll::Error(m) && m@ == failure_text(
            loc::table_of(st.lang),
            Sink::Memory,
            f.curl as int,
            f.http as int,
            f.detail@,
        )),
        rc > 0 && body is None ==> (r matches ArchivePoll::Error(m) && m@ == loc::table_of(
            st.lang,
        ).err_too_large@),
        rc > 0 && body is Some ==> match metadata(loc::table_of(st.lang), body->0@, item_id@) {
            Ok(files) => r matches ArchivePoll::Done(v) && file_views(v@) == files,
            Err(e) => r matches ArchivePoll::Error(m) && m@ == e,
        },
{
    if rc == 0 {
        return ArchivePoll::Pending;
    }
    if rc < 0 {
        return ArchivePoll::Error(https_error_message(st, Sink::Memory, f));
    }
    match body {
        None => {
            let lc: Strings = loc::s(st);
            ArchivePoll::Error(lc.err_too_large.to_owned())
        },
        Some(b) => match parse_archive_metadata(st, b, item_id) {
            Ok(files) => ArchivePoll::Done(files),
            Err(e) => ArchivePoll::Error(e),
        },
    }
}

/// What a look at another fetch finds; as `tick_archive_fetch`, with the answer as it
/// came.
pub fn tick_get_async(st: &Settings, rc: i32, f: &Failure, body: Option<Vec<u8>>) -> (r: GetPoll)
    ensures
        rc == 0 <==> r is Pending,
        rc < 0 ==> (r matches GetPoll::Error(m) && m@ == failure_text(
            loc::table_of(st.lang),
            Sink::Memory,
            f.curl as int,
            f.http as int,
            f.detail@,
        )),
        rc > 0 ==> match body {
            None => r matches GetPoll::Error(m) && m@ == loc::table_of(st.lang).err_response_big@,
            Some(b) => r matches GetPoll::Done(d) && d == b,
        },
{
    if rc == 0 {
        return GetPoll::Pending;
    }
    if rc < 0 {
        return GetPoll::Error(https_error_message(st, Sink::Memory, f));
    }
    match body {
        None => {
            let lc: Strings = loc::s(st);
            GetPoll::Error(lc.err_response_big.to_owned())
        },
        Some(b) => GetPoll::Done(b),
    }
}

} // verus!
