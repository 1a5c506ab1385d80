//! Base64 text, as the catalogue's files come in.

use crate::text;
use vstd::prelude::*;

verus! {

/// The six bits that a character of the alphabet stands for.
pub open spec fn sextet(c: char) -> Option<u8> {
    if 'A' <= c && c <= 'Z' {
        Some((c as int - 65) as u8)
    } else if 'a' <= c && c <= 'z' {
        Some((c as int - 97 + 26) as u8)
    } else if '0' <= c && c <= '9' {
        Some((c as int - 48 + 52) as u8)
    } else if c == '+' {
        Some(62)
    } else if c == '/' {
        Some(63)
    } else {
        None
    }
}

/// The six-bit values of a text, up to the padding; other characters are skipped.
pub open spec fn sextets(s: Seq<char>) -> Seq<u8>
    decreases s.len(),
{
    if s.len() == 0 || s[0] == '=' {
        Seq::empty()
    } else {
        match sextet(s[0]) {
            Some(v) => seq![v] + sextets(s.drop_first()),
            None => sextets(s.drop_first()),
        }
    }
}

/// The bytes of six-bit values: four values make three bytes; three left over
/// make two, two left over make one.
pub open spec fn bytes_of(v: Seq<u8>) -> Seq<u8>
    decreases v.len(),
{
    if v.len() >= 4 {
        seq![
            (v[0] * 4 + v[1] / 16) as u8,
            ((v[1] % 16) * 16 + v[2] / 4) as u8,
            ((v[2] % 4) * 64 + v[3]) as u8,
        ] + bytes_of(v.skip(4))
    } else if v.len() == 3 {
        seq![(v[0] * 4 + v[1] / 16) as u8, ((v[1] % 16) * 16 + v[2] / 4) as u8]
    } else if v.len() == 2 {
        seq![(v[0] * 4 + v[1] / 16) as u8]
    } else {
        Seq::empty()
    }
}

/// The six-bit values that bytes are written with.
pub open spec fn values_of(b: Seq<u8>) -> Seq<u8>
    decreases b.len(),
{
    if b.len() >= 3 {
        seq![
            (b[0] / 4) as u8,
            ((b[0] % 4) * 16 + b[1] / 16) as u8,
            ((b[1] % 16) * 4 + b[2] / 64) as u8,
            (b[2] % 64) as u8,
        ] + values_of(b.skip(3))
    } else if b.len() == 2 {
        seq![(b[0] / 4) as u8, ((b[0] % 4) * 16 + b[1] / 16) as u8, ((b[1] % 16) * 4) as u8]
    } else if b.len() == 1 {
        seq![(b[0] / 4) as u8, ((b[0] % 4) * 16) as u8]
    } else {
        Seq::empty()
    }
}

/// Decoding undoes encoding.
pub proof fn decode_undoes_encode(b: Seq<u8>)
    ensures
        bytes_of(values_of(b)) == b,
        forall|i: int| 0 <= i < values_of(b).len() ==> (#[trigger] values_of(b)[i]) < 64,
    decreases b.len(),
{
    let v = values_of(b);
    if b.len() >= 3 {
        decode_undoes_encode(b.skip(3));
        let rest = values_of(b.skip(3));
        assert(v.skip(4) =~= rest);
        assert forall|i: int| 0 <= i < v.len() implies (#[trigger] v[i]) < 64 by {
            if i >= 4 {
                assert(v[i] == rest[i - 4]);
            }
        }
        assert(bytes_of(v) =~= b);
    } else {
        assert(bytes_of(v) =~= b);
    }
}

/// A character outside the alphabet (a line break) changes nothing.
pub proof fn breaks_are_skipped(a: Seq<char>, c: char, b: Seq<char>)
    requires
        sextet(c) == None::<u8>,
        c != '=',
        forall|i: int| 0 <= i < a.len() ==> #[trigger] a[i] != '=',
    ensures
        sextets(a + seq![c] + b) == sextets(a + b),
    decreases a.len(),
{
    let s = a + seq![c] + b;
    if a.len() == 0 {
        assert(s.drop_first() =~= b);
        assert(a + b =~= b);
    } else {
        let t = a.drop_first();
        assert forall|i: int| 0 <= i < t.len() implies #[trigger] t[i] != '=' by {
            assert(t[i] == a[i + 1]);
        }
        breaks_are_skipped(t, c, b);
        assert(s.drop_first() =~= t + seq![c] + b);
        assert((a + b).drop_first() =~= t + b);
        assert(a[0] != '=');
    }
}

proof fn sextets_small(s: Seq<char>)
    ensures
        forall|i: int| 0 <= i < sextets(s).len() ==> (#[trigger] sextets(s)[i]) < 64,
    decreases s.len(),
{
    if s.len() > 0 && s[0] != '=' {
        let t = sextets(s.drop_first());
        sextets_small(s.drop_first());
        assert forall|i: int| 0 <= i < sextets(s).len() implies (#[trigger] sextets(s)[i]) < 64 by {
            if let Some(v) = sextet(s[0]) {
                if i > 0 {
                    assert(sextets(s)[i] == t[i - 1]);
                }
            }
        }
    }
}

fn value(c: char) -> (r: Option<u8>)
    ensures
        r == sextet(c),
{
    if 'A' <= c && c <= 'Z' {
        Some((c as u32 - 65) as u8)
    } else if 'a' <= c && c <= 'z' {
        Some((c as u32 - 97 + 26) as u8)
    } else if '0' <= c && c <= '9' {
        Some((c as u32 - 48 + 52) as u8)
    } else if c == '+' {
        Some(62)
    } else if c == '/' {
        Some(63)
    } else {
        None
    }
}

/// The bytes that a base64 text stands for. Line breaks and other foreign
/// characters are skipped; the padding ends the text.
pub fn base64_decode(s: &str) -> (r: Vec<u8>)
    ensures
        r@ == bytes_of(sextets(s@)),
{
    let c: Vec<char> = text::chars_of(s);
    let mut v: Vec<u8> = Vec::new();
    let mut i: usize = 0;
    assert(c@.skip(0) =~= c@);
    assert(v@ + sextets(c@) =~= sextets(c@));
    while i < c.len() && c[i] != '='
        invariant
            i <= c.len(),
            v@ + sextets(c@.skip(i as int)) == sextets(c@),
        decreases c.len() - i,
    {
        assert(c@.skip(i as int).drop_first() =~= c@.skip(i + 1));
        let ghost before = v@;
        if let Some(x) = value(c[i]) {
            v.push(x);
            assert(before + (seq![x] + sextets(c@.skip(i + 1))) =~= v@ + sextets(c@.skip(i + 1)));
        }
        i = i + 1;
    }
    assert(v@ + sextets(c@.skip(i as int)) =~= v@);
    proof {
        sextets_small(c@);
    }
    unpack(&v)
}

fn unpack(v: &Vec<u8>) -> (r: Vec<u8>)
    requires
        forall|i: int| 0 <= i < v@.len() ==> (#[trigger] v@[i]) < 64,
    ensures
        r@ == bytes_of(v@),
{
    let mut out: Vec<u8> = Vec::new();
    let mut i: usize = 0;
    assert(v@.skip(0) =~= v@);
    assert(out@ + bytes_of(v@) =~= bytes_of(v@));
    while v.len() - i >= 4
        invariant
            i <= v.len(),
            forall|k: int| 0 <= k < v@.len() ==> (#[trigger] v@[k]) < 64,
            out@ + bytes_of(v@.skip(i as int)) == bytes_of(v@),
        decreases v.len() - i,
    {
        let (a, b, c, d) = (v[i], v[i + 1], v[i + 2], v[i + 3]);
        let ghost before = out@;
        let ghost rest = v@.skip(i as int);
        assert(rest[0] == a && rest[1] == b && rest[2] == c && rest[3] == d);
        assert(rest.skip(4) =~= v@.skip(i + 4));
        out.push(a * 4 + b / 16);
        out.push((b % 16) * 16 + c / 4);
        out.push((c % 4) * 64 + d);
        assert(out@ + bytes_of(v@.skip(i + 4)) =~= before + bytes_of(rest));
        i = i + 4;
    }
    let ghost before = out@;
    let ghost rest = v@.skip(i as int);
    let left: usize = v.len() - i;
    if left >= 2 {
        assert(rest[0] == v@[i as int] && rest[1] == v@[i + 1]);
        out.push(v[i] * 4 + v[i + 1] / 16);
    }
    if left == 3 {
        assert(rest[2] == v@[i + 2]);
        out.push((v[i + 1] % 16) * 16 + v[i + 2] / 4);
    }
    assert(out@ =~= before + bytes_of(rest));
    out
}

} // verus!
