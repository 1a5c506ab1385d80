//! What the first bytes of a movie say.

use crate::library::state::{Compression, Header};
use std::io::Read;
use vstd::prelude::*;

verus! {

/// The bytes of the body that are looked at.
pub const PREFIX_LEN: usize = 64;

/// The first bytes, at most `most`, that `flate2::read::ZlibDecoder` unpacks from a
/// zlib stream.
pub uninterp spec fn unpacked(bytes: Seq<u8>, most: nat) -> Seq<u8>;

/// `flate2::read::ZlibDecoder`, read to the end or up to `most` bytes: what it unpacks
/// before the stream ends or breaks off, a function of the bytes and of `most`.
#[verifier::external_body]
fn unpack_prefix(bytes: &[u8], most: usize) -> (r: Vec<u8>)
    ensures
        r@ == unpacked(bytes@, most as nat),
        r@.len() <= most,
{
    let mut out: Vec<u8> = Vec::new();
    let _ = flate2::read::ZlibDecoder::new(bytes).take(most as u64).read_to_end(&mut out);
    out
}

/// The byte at `i`, where there is one.
pub open spec fn byte_at(b: Seq<u8>, i: int) -> Option<u8> {
    if 0 <= i < b.len() {
        Some(b[i])
    } else {
        None
    }
}

/// Where the first tag stands: behind the stage rectangle, whose four fields have
/// the width that the top five bits of the first byte say, and behind the frame
/// rate and the frame count.
pub open spec fn first_tag(first: u8) -> int {
    (5 + (first / 8) * 4 + 7) / 8 + 4
}

/// What the start of a movie's body says of the engine: the first tag is that of
/// the file attributes and has the flag of the newer engine set. Nothing where the
/// start is too short.
pub open spec fn as3_flag(b: Seq<u8>) -> Option<bool> {
    if b.len() == 0 {
        None
    } else {
        let p = first_tag(b[0]);
        match (byte_at(b, p), byte_at(b, p + 1)) {
            (Some(lo), Some(hi)) => if (lo + 256 * hi) / 64 != 69 {
                Some(false)
            } else {
                match byte_at(b, p + 2) {
                    Some(flags) => Some((flags / 8) % 2 == 1),
                    None => None,
                }
            },
            _ => None,
        }
    }
}

/// What the start of a movie's body says of the engine.
pub fn parse_as3_flag(buf: &[u8]) -> (r: Option<bool>)
    ensures
        r == as3_flag(buf@),
{
    if buf.len() == 0 {
        return None;
    }
    let nbits: usize = (buf[0] / 8) as usize;
    let p: usize = (5 + nbits * 4 + 7) / 8 + 4;
    if buf.len() <= p + 1 {
        return None;
    }
    let code: u32 = (buf[p] as u32 + 256 * buf[p + 1] as u32) / 64;
    if code != 69 {
        return Some(false);
    }
    if buf.len() <= p + 2 {
        return None;
    }
    Some((buf[p + 2] / 8) % 2 == 1)
}

/// Does a movie run on the newer engine? `prefix` is the unpacked start of its
/// body. A movie before version 8 cannot; one that is packed in the newest way
/// does; where the start is too short the version decides.
pub open spec fn newer_engine(version: u8, c: Compression, prefix: Seq<u8>) -> bool {
    if version < 8 {
        false
    } else if c == Compression::Zws {
        true
    } else {
        match as3_flag(prefix) {
            Some(f) => f,
            None => version >= 9,
        }
    }
}

/// The unpacked start of a movie's body.
pub open spec fn body_prefix(c: Compression, body: Seq<u8>) -> Seq<u8> {
    if c == Compression::Cws {
        unpacked(body, PREFIX_LEN as nat)
    } else if body.len() > PREFIX_LEN {
        body.take(PREFIX_LEN as int)
    } else {
        body
    }
}

/// Does a movie run on the newer engine, by the unpacked start of its body?
pub fn as3_of_prefix(version: u8, c: Compression, prefix: &[u8]) -> (r: bool)
    ensures
        r == newer_engine(version, c, prefix@),
{
    if version < 8 {
        return false;
    }
    match c {
        Compression::Zws => true,
        _ => match parse_as3_flag(prefix) {
            Some(f) => f,
            None => version >= 9,
        },
    }
}

/// Does a movie run on the newer engine? `body` is what stands behind the header.
pub fn detect_as3(version: u8, c: Compression, body: &[u8]) -> (r: bool)
    ensures
        r == newer_engine(version, c, body_prefix(c, body@)),
{
    match c {
        Compression::Cws => {
            let prefix: Vec<u8> = unpack_prefix(body, PREFIX_LEN);
            as3_of_prefix(version, c, prefix.as_slice())
        },
        _ => {
            let mut prefix: Vec<u8> = Vec::new();
            let mut i: usize = 0;
            while i < body.len() && i < PREFIX_LEN
                invariant
                    i <= body.len(),
                    i <= PREFIX_LEN,
                    prefix@ == body@.take(i as int),
                decreases body.len() - i,
            {
                prefix.push(body[i]);
                i = i + 1;
                assert(prefix@ =~= body@.take(i as int));
            }
            assert(c != Compression::Cws);
            assert(prefix@ =~= body_prefix(c, body@));
            as3_of_prefix(version, c, prefix.as_slice())
        },
    }
}

/// The packing that the first three bytes name.
pub open spec fn magic(b: Seq<u8>) -> Option<Compression> {
    if b.len() >= 3 && b[1] == 0x57 && b[2] == 0x53 {
        if b[0] == 0x46 {
            Some(Compression::Fws)
        } else if b[0] == 0x43 {
            Some(Compression::Cws)
        } else if b[0] == 0x5a {
            Some(Compression::Zws)
        } else {
            None
        }
    } else {
        None
    }
}

/// The packing that the first three bytes name.
pub fn magic_of(b: &[u8]) -> (r: Option<Compression>)
    ensures
        r == magic(b@),
{
    if b.len() >= 3 && b[1] == 0x57 && b[2] == 0x53 {
        match b[0] {
            0x46 => Some(Compression::Fws),
            0x43 => Some(Compression::Cws),
            0x5a => Some(Compression::Zws),
            _ => None,
        }
    } else {
        None
    }
}

/// The header in the first bytes of a movie: packing, version and length. The body
/// follows at the ninth byte.
pub open spec fn header_in(file: Seq<u8>) -> Option<Header> {
    if file.len() < 8 {
        None
    } else {
        match magic(file) {
            Some(c) => Some(
                Header {
                    size_bytes: (file[4] + 0x100 * file[5] + 0x1_0000 * file[6] + 0x100_0000
                        * file[7]) as u64,
                    version: file[3],
                    compression: c,
                    is_as3: newer_engine(file[3], c, body_prefix(c, file.skip(8))),
                },
            ),
            None => None,
        }
    }
}

/// The header of a movie. `file` are its first bytes, as many as there are or as
/// the start of the body takes.
pub fn read_swf_header(file: &[u8]) -> (r: Option<Header>)
    ensures
        r == header_in(file@),
{
    if file.len() < 8 {
        return None;
    }
    let c: Compression = match magic_of(file) {
        Some(c) => c,
        None => {
            return None;
        },
    };
    let size_bytes: u64 = file[4] as u64 + 0x100 * (file[5] as u64) + 0x1_0000 * (file[6] as u64)
        + 0x100_0000 * (file[7] as u64);
    let body: &[u8] = vstd::slice::slice_subrange(file, 8, file.len());
    assert(body@ =~= file@.skip(8));
    let is_as3: bool = detect_as3(file[3], c, body);
    Some(Header { size_bytes, version: file[3], compression: c, is_as3 })
}

} // verus!
