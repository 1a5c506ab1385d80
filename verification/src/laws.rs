//! What the launcher promises its player, said of what goes in and what comes out:
//! lists, names, rows and files, in words of their own.

use crate::text;
use vstd::prelude::*;

pub mod buttons;
pub mod card;
pub mod games;
pub mod imports;
pub mod keys;
pub mod lists;
pub mod names;
pub mod panels;
pub mod pause;
pub mod play;
pub mod profiles;
pub mod shown;
pub mod urls;

verus! {

/// A text stands somewhere in another.
pub open spec fn found_in(t: Seq<char>, q: Seq<char>) -> bool {
    exists|p: int|
        0 <= p <= t.len() && q.len() <= t.len() - p && #[trigger] t.skip(p).take(q.len() as int) == q
}

/// A text comes before another in the order of characters: at the first place where
/// they differ it has the lesser character, or it ends there.
pub open spec fn comes_first(a: Seq<char>, b: Seq<char>) -> bool {
    exists|k: int|
        #![trigger a.take(k)]
        0 <= k <= a.len() && k < b.len() && a.take(k) == b.take(k) && (k == a.len() || a[k] < b[k])
}

/// A name stands in a list of names.
pub open spec fn on_list(list: Seq<String>, name: Seq<char>) -> bool {
    exists|i: int| 0 <= i < list.len() && (#[trigger] list[i])@ == name
}

/// The blanks that are cut off a text are white space, and nothing else is cut off.
pub proof fn trimming_cuts_blanks(s: Seq<char>)
    ensures
        exists|i: int, j: int|
            #![trigger s.subrange(i, j)]
            {
                &&& 0 <= i <= j <= s.len()
                &&& text::trimmed(s) == s.subrange(i, j)
                &&& forall|k: int| 0 <= k < i || j <= k < s.len() ==> text::white(#[trigger] s[k])
                &&& i < j ==> !text::white(s[i]) && !text::white(s[j - 1])
            },
{
    let i = start_cut(s);
    let a = s.skip(i);
    let n = end_cut(a);
    let j = i + n;
    assert(a.take(n) =~= s.subrange(i, j));
    assert forall|k: int| 0 <= k < i || j <= k < s.len() implies text::white(#[trigger] s[k]) by {
        if j <= k {
            assert(a[k - i] == s[k]);
        }
    }
    if i < j {
        assert(a[0] == s[i] && a[n - 1] == s[j - 1]);
    }
}

proof fn start_cut(s: Seq<char>) -> (i: int)
    ensures
        0 <= i <= s.len(),
        text::trim_start(s) == s.skip(i),
        forall|k: int| 0 <= k < i ==> text::white(#[trigger] s[k]),
        i < s.len() ==> !text::white(s[i]),
    decreases s.len(),
{
    if s.len() > 0 && text::white(s[0]) {
        let j = start_cut(s.drop_first());
        assert(s.drop_first().skip(j) =~= s.skip(j + 1));
        assert forall|k: int| 0 <= k < j + 1 implies text::white(#[trigger] s[k]) by {
            if k > 0 {
                assert(s.drop_first()[k - 1] == s[k]);
            }
        }
        j + 1
    } else {
        assert(s.skip(0) =~= s);
        0
    }
}

proof fn end_cut(s: Seq<char>) -> (n: int)
    ensures
        0 <= n <= s.len(),
        text::trim_end(s) == s.take(n),
        forall|k: int| n <= k < s.len() ==> text::white(#[trigger] s[k]),
        n > 0 ==> !text::white(s[n - 1]),
    decreases s.len(),
{
    if s.len() > 0 && text::white(s.last()) {
        let d = s.drop_last();
        let n = end_cut(d);
        assert(d.take(n) =~= s.take(n));
        assert forall|k: int| n <= k < s.len() implies text::white(#[trigger] s[k]) by {
            if k < d.len() {
                assert(d[k] == s[k]);
            }
        }
        n
    } else {
        assert(s.take(s.len() as int) =~= s);
        s.len() as int
    }
}

/// The space, the tab and the line breaks are white space; no printed ASCII character
/// is.
pub proof fn blanks_are_white(c: char)
    ensures
        c == ' ' || c == '\t' || c == '\n' || c == '\r' ==> text::white(c),
        '!' <= c <= '~' ==> !text::white(c),
{
}

/// Among numbered things of which some qualify, there is a nearest: the first of
/// those at the least distance.
pub proof fn nearest_exists(n: int, p: spec_fn(int) -> bool, far: spec_fn(int) -> int, k: int) -> (i:
    int)
    requires
        0 <= k < n,
        p(k),
    ensures
        0 <= i < n,
        p(i),
        forall|j: int| 0 <= j < n && #[trigger] p(j) ==> far(i) <= far(j) && (j < i ==> far(i) < far(j)),
    decreases n,
{
    let m = n - 1;
    if exists|j: int| 0 <= j < m && #[trigger] p(j) {
        let j = choose|j: int| 0 <= j < m && #[trigger] p(j);
        let b = nearest_exists(m, p, far, j);
        if p(m) && far(m) < far(b) {
            m
        } else {
            b
        }
    } else {
        m
    }
}

} // verus!
