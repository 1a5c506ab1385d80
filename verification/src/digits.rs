//! Numbers as text: decimal, padded, hexadecimal, and back.

use crate::text;
use vstd::prelude::*;

verus! {

/// The decimal digit for `d`, `0 <= d < 10`.
pub open spec fn digit_char(d: int) -> char {
    (('0' as u32) + d) as char
}

/// The decimal digits of `n`, without leading zeros.
pub open spec fn decimal(n: nat) -> Seq<char>
    decreases n,
{
    if n < 10 {
        seq![digit_char(n as int)]
    } else {
        decimal(n / 10).push(digit_char((n % 10) as int))
    }
}

/// The number that a run of decimal digits writes.
pub open spec fn value_of(s: Seq<char>) -> nat
    decreases s.len(),
{
    if s.len() == 0 {
        0
    } else {
        value_of(s.drop_last()) * 10 + ((s.last() as u32) - ('0' as u32)) as nat
    }
}

/// Every character of `s` is an ASCII digit.
pub open spec fn all_digits(s: Seq<char>) -> bool {
    forall|i: int| 0 <= i < s.len() ==> text::digit(#[trigger] s[i])
}

/// What `u64::from_str` (and `u8::from_str`, with its own limit) accepts: an
/// optional `+`, then at least one digit, of a value up to `max`.
pub open spec fn parsed(s: Seq<char>, max: nat) -> Option<nat> {
    let d = if s.len() > 0 && s[0] == '+' {
        s.skip(1)
    } else {
        s
    };
    if d.len() > 0 && all_digits(d) && value_of(d) <= max {
        Some(value_of(d))
    } else {
        None
    }
}

/// Reading back what was written gives the number.
pub proof fn decimal_reads_back(n: nat)
    ensures
        all_digits(decimal(n)),
        decimal(n).len() > 0,
        value_of(decimal(n)) == n,
        forall|max: nat| n <= max ==> #[trigger] parsed(decimal(n), max) == Some(n),
    decreases n,
{
    if n < 10 {
        let s = decimal(n);
        assert(s.drop_last() =~= Seq::empty());
        assert(value_of(s.drop_last()) == 0);
    } else {
        decimal_reads_back(n / 10);
        let s = decimal(n);
        assert(s.drop_last() =~= decimal(n / 10));
    }
    assert(decimal(n)[0] != '+');
}

fn digit_of(d: u8) -> (r: char)
    requires
        d < 10,
    ensures
        r == digit_char(d as int),
{
    (48 + d) as char
}

/// `u64::to_string`.
pub fn dec(n: u64) -> (r: String)
    ensures
        r@ == decimal(n as nat),
    decreases n,
{
    let last: char = digit_of((n % 10) as u8);
    if n < 10 {
        let mut out: String = String::new();
        out.push(last);
        assert(out@ =~= decimal(n as nat));
        out
    } else {
        let mut out: String = dec(n / 10);
        out.push(last);
        out
    }
}

/// `decimal(n)` padded with zeros to at least `width` digits.
pub open spec fn padded(n: nat, width: nat) -> Seq<char>
    decreases width,
{
    if width == 0 || decimal(n).len() >= width {
        decimal(n)
    } else {
        pad_front(decimal(n), width)
    }
}

/// `s` with zeros in front of it, `width` characters in all.
pub open spec fn pad_front(s: Seq<char>, width: nat) -> Seq<char>
    decreases width - s.len(),
{
    if s.len() >= width {
        s
    } else {
        pad_front(seq!['0'] + s, width)
    }
}

/// `n` with leading zeros up to `width` digits, as `{:0width}` writes it.
pub fn dec_padded(n: u64, width: usize) -> (r: String)
    ensures
        r@ == padded(n as nat, width as nat),
{
    let digits: String = dec(n);
    let mut out: String = digits;
    while out.unicode_len() < width
        invariant
            pad_front(out@, width as nat) == pad_front(decimal(n as nat), width as nat),
        decreases width - out@.len(),
    {
        let mut longer: String = String::new();
        longer.push('0');
        longer.append(out.as_str());
        assert(longer@ =~= seq!['0'] + out@);
        out = longer;
    }
    out
}

/// The lower-case hexadecimal digit for `d`, `0 <= d < 16`.
pub open spec fn hex_char(d: int) -> char {
    if d < 10 {
        digit_char(d)
    } else {
        (('a' as u32) + (d - 10)) as char
    }
}

/// The last `width` hexadecimal digits of `n`.
pub open spec fn hex(n: nat, width: nat) -> Seq<char>
    decreases width,
{
    if width == 0 {
        Seq::empty()
    } else {
        hex(n / 16, (width - 1) as nat).push(hex_char((n % 16) as int))
    }
}

/// The last `width` hexadecimal digits of `n`, as `{:0width x}` writes them.
pub fn hex_padded(n: u64, width: usize) -> (r: String)
    ensures
        r@ == hex(n as nat, width as nat),
    decreases width,
{
    if width == 0 {
        return String::new();
    }
    let d: u8 = (n % 16) as u8;
    let c: char = if d < 10 {
        digit_of(d)
    } else {
        (97 + (d - 10)) as char
    };
    let mut out: String = hex_padded(n / 16, width - 1);
    out.push(c);
    out
}

fn min_u64(a: u64, b: u64) -> (r: u64)
    ensures
        r == if a < b { a } else { b },
{
    if a < b {
        a
    } else {
        b
    }
}

/// `str::parse` to an unsigned number of at most `max`.
pub fn parse(s: &str, max: u64) -> (r: Option<u64>)
    ensures
        match r {
            Some(n) => parsed(s@, max as nat) == Some(n as nat),
            None => parsed(s@, max as nat) == None::<nat>,
        },
{
    let v: Vec<char> = text::chars_of(s);
    let start: usize = if v.len() > 0 && v[0] == '+' {
        1
    } else {
        0
    };
    let ghost d = v@.skip(start as int);
    proof {
        if start == 0 {
            assert(d =~= v@);
        }
    }
    if start == v.len() {
        return None;
    }
    let mut n: u64 = 0;
    let mut over: bool = false;
    let mut i: usize = start;
    while i < v.len()
        invariant
            start <= i <= v.len(),
            v@ == s@,
            d == v@.skip(start as int),
            start == (if v@.len() > 0 && v@[0] == '+' { 1int } else { 0 }),
            start == 0 ==> d == v@,
            forall|k: int| 0 <= k < i - start ==> text::digit(#[trigger] d[k]),
            !over ==> n as nat == value_of(d.take(i - start)) && n <= max,
            over ==> value_of(d.take(i - start)) > max,
        decreases v.len() - i,
    {
        let c: char = v[i];
        if !('0' <= c && c <= '9') {
            assert(!text::digit(d[i - start]));
            assert(!all_digits(d));
            return None;
        }
        let x: u64 = (c as u32 - '0' as u32) as u64;
        proof {
            assert(d.take(i - start + 1).drop_last() =~= d.take(i - start));
            assert(d.take(i - start + 1).last() == c);
            assert(value_of(d.take(i - start + 1)) == value_of(d.take(i - start)) * 10 + x);
        }
        if !over {
            if n > max / 10 || n * 10 > max - min_u64(x, max) || x > max {
                over = true;
            } else {
                n = n * 10 + x;
            }
        }
        i = i + 1;
    }
    assert(d.take(i - start) =~= d);
    if over {
        None
    } else {
        Some(n)
    }
}

} // verus!
