//! Stable ordering of list rows by a composite key.
//!
//! Every sorted list of the launcher is ordered the same way: pinned rows come
//! first, then the key decides (or its reverse), then the position the row had.

use vstd::prelude::*;

verus! {

/// What a row is ordered by: two numbers, then two texts.
pub struct Key {
    pub num: u64,
    pub num2: u64,
    pub first: Vec<char>,
    pub second: Vec<char>,
}

/// The mathematical value of a `Key`.
#[verifier::ext_equal]
pub struct KeyView {
    pub num: int,
    pub num2: int,
    pub first: Seq<char>,
    pub second: Seq<char>,
}

impl View for Key {
    type V = KeyView;

    open spec fn view(&self) -> KeyView {
        KeyView {
            num: self.num as int,
            num2: self.num2 as int,
            first: self.first@,
            second: self.second@,
        }
    }
}

/// The key that orders by one text alone.
pub open spec fn text_key(t: Seq<char>) -> KeyView {
    KeyView { num: 0, num2: 0, first: t, second: Seq::empty() }
}

/// `a` is before `b` in the dictionary order of their characters.
pub open spec fn text_before(a: Seq<char>, b: Seq<char>) -> bool
    decreases a.len(),
{
    if a.len() == 0 {
        b.len() > 0
    } else if b.len() == 0 {
        false
    } else if a[0] != b[0] {
        a[0] < b[0]
    } else {
        text_before(a.drop_first(), b.drop_first())
    }
}

/// The key order: by the numbers, then by the first text, then by the second.
pub open spec fn key_before(a: KeyView, b: KeyView) -> bool {
    if a.num != b.num {
        a.num < b.num
    } else if a.num2 != b.num2 {
        a.num2 < b.num2
    } else if a.first != b.first {
        text_before(a.first, b.first)
    } else {
        text_before(a.second, b.second)
    }
}

/// Row `i` is shown before row `j`.
pub open spec fn row_before(
    keys: Seq<KeyView>,
    reverse: bool,
    pinned: Seq<bool>,
    i: int,
    j: int,
) -> bool {
    if pinned[i] != pinned[j] {
        pinned[i]
    } else if keys[i] != keys[j] {
        if reverse {
            key_before(keys[j], keys[i])
        } else {
            key_before(keys[i], keys[j])
        }
    } else {
        if reverse {
            j < i
        } else {
            i < j
        }
    }
}

/// `order` lists each of the rows `0..n` once.
pub open spec fn is_permutation(order: Seq<usize>, n: int) -> bool {
    &&& order.len() == n
    &&& forall|i: int| 0 <= i < n ==> (#[trigger] order[i]) < n
    &&& forall|i: int, j: int| 0 <= i < j < n ==> order[i] != order[j]
}

/// `order` lists the rows from first to last.
pub open spec fn is_order(
    keys: Seq<KeyView>,
    reverse: bool,
    pinned: Seq<bool>,
    order: Seq<usize>,
) -> bool {
    &&& is_permutation(order, keys.len() as int)
    &&& forall|i: int, j: int|
        0 <= i < j < order.len() ==> row_before(
            keys,
            reverse,
            pinned,
            #[trigger] order[i] as int,
            #[trigger] order[j] as int,
        )
}

/// The values of a list of keys.
pub open spec fn key_views(keys: Seq<Key>) -> Seq<KeyView> {
    Seq::new(keys.len(), |i: int| keys[i]@)
}

// ── The order is total ─────────────────────────────────────────────────────

/// No text is before itself.
pub proof fn before_is_strict(a: Seq<char>)
    ensures
        !text_before(a, a),
    decreases a.len(),
{
    if a.len() > 0 {
        before_is_strict(a.drop_first());
    }
}

proof fn text_before_transitive(a: Seq<char>, b: Seq<char>, c: Seq<char>)
    requires
        text_before(a, b),
        text_before(b, c),
    ensures
        text_before(a, c),
    decreases a.len(),
{
    if a.len() > 0 && a[0] == b[0] && b[0] == c[0] {
        text_before_transitive(a.drop_first(), b.drop_first(), c.drop_first());
    }
}

proof fn text_before_total(a: Seq<char>, b: Seq<char>)
    ensures
        a == b || text_before(a, b) || text_before(b, a),
    decreases a.len(),
{
    if a.len() == 0 && b.len() == 0 {
        assert(a =~= b);
    } else if a.len() > 0 && b.len() > 0 && a[0] == b[0] {
        text_before_total(a.drop_first(), b.drop_first());
        if a.drop_first() == b.drop_first() {
            assert(a =~= seq![a[0]] + a.drop_first());
            assert(b =~= seq![b[0]] + b.drop_first());
        }
    }
}

/// No key is before itself.
pub proof fn key_before_strict(a: KeyView)
    ensures
        !key_before(a, a),
{
    before_is_strict(a.second);
}

proof fn key_before_transitive(a: KeyView, b: KeyView, c: KeyView)
    requires
        key_before(a, b),
        key_before(b, c),
    ensures
        key_before(a, c),
{
    if a.num == b.num && b.num == c.num && a.num2 == b.num2 && b.num2 == c.num2 {
        if a.first != b.first && b.first != c.first {
            text_before_transitive(a.first, b.first, c.first);
            if a.first == c.first {
                before_is_strict(a.first);
            }
        } else if a.first == b.first && b.first == c.first {
            text_before_transitive(a.second, b.second, c.second);
        }
    }
}

proof fn key_before_total(a: KeyView, b: KeyView)
    ensures
        a == b || key_before(a, b) || key_before(b, a),
{
    text_before_total(a.first, b.first);
    text_before_total(a.second, b.second);
}

/// Of two different rows exactly one is shown first.
pub proof fn row_before_total(
    keys: Seq<KeyView>,
    reverse: bool,
    pinned: Seq<bool>,
    i: int,
    j: int,
)
    ensures
        i != j ==> row_before(keys, reverse, pinned, i, j) || row_before(
            keys,
            reverse,
            pinned,
            j,
            i,
        ),
        !(row_before(keys, reverse, pinned, i, j) && row_before(keys, reverse, pinned, j, i)),
{
    key_before_total(keys[i], keys[j]);
    if key_before(keys[i], keys[j]) && key_before(keys[j], keys[i]) {
        key_before_transitive(keys[i], keys[j], keys[i]);
        key_before_strict(keys[i]);
    }
}

proof fn row_before_transitive(
    keys: Seq<KeyView>,
    reverse: bool,
    pinned: Seq<bool>,
    i: int,
    j: int,
    k: int,
)
    requires
        row_before(keys, reverse, pinned, i, j),
        row_before(keys, reverse, pinned, j, k),
    ensures
        row_before(keys, reverse, pinned, i, k),
{
    let (a, b, c) = (keys[i], keys[j], keys[k]);
    if pinned[i] == pinned[j] && pinned[j] == pinned[k] {
        if a != b && b != c {
            if reverse {
                key_before_transitive(c, b, a);
            } else {
                key_before_transitive(a, b, c);
            }
            if a == c {
                key_before_strict(a);
            }
        }
    }
}

/// A list has one order: two lists of all its rows that both respect
/// `row_before` agree position by position.
pub proof fn order_is_unique(
    keys: Seq<KeyView>,
    reverse: bool,
    pinned: Seq<bool>,
    a: Seq<usize>,
    b: Seq<usize>,
)
    requires
        is_order(keys, reverse, pinned, a),
        is_order(keys, reverse, pinned, b),
    ensures
        a == b,
{
    assert forall|k: int| 0 <= k < a.len() implies a[k] == b[k] by {
        order_agrees_at(keys, reverse, pinned, a, b, k);
    }
    assert(a =~= b);
}

proof fn order_agrees_at(
    keys: Seq<KeyView>,
    reverse: bool,
    pinned: Seq<bool>,
    a: Seq<usize>,
    b: Seq<usize>,
    k: int,
)
    requires
        is_order(keys, reverse, pinned, a),
        is_order(keys, reverse, pinned, b),
        0 <= k < a.len(),
    ensures
        forall|m: int| 0 <= m <= k ==> a[m] == b[m],
    decreases k,
{
    if k > 0 {
        order_agrees_at(keys, reverse, pinned, a, b, k - 1);
    }
    if a[k] != b[k] {
        let n = keys.len() as int;
        permutation_covers(a, n, b[k] as int);
        permutation_covers(b, n, a[k] as int);
        let i = choose|i: int| 0 <= i < n && a[i] == b[k];
        let j = choose|j: int| 0 <= j < n && b[j] == a[k];
        assert(i > k) by {
            if i < k {
                assert(a[i] == b[i]);
                assert(b[i] != b[k]);
            }
        }
        assert(j > k) by {
            if j < k {
                assert(a[j] == b[j]);
                assert(a[j] != a[k]);
            }
        }
        assert(row_before(keys, reverse, pinned, a[k] as int, a[i] as int));
        assert(row_before(keys, reverse, pinned, b[k] as int, b[j] as int));
        row_before_total(keys, reverse, pinned, a[k] as int, b[k] as int);
    }
}

/// A permutation of `0..n` holds every row below `n`.
pub proof fn permutation_covers(order: Seq<usize>, n: int, row: int)
    requires
        is_permutation(order, n),
        0 <= row < n,
    ensures
        exists|i: int| 0 <= i < n && order[i] == row,
{
    let ints = Seq::new(order.len(), |i: int| order[i] as int);
    assert(ints.no_duplicates());
    let all = vstd::set_lib::set_int_range(0, n);
    vstd::set_lib::lemma_int_range(0, n);
    ints.unique_seq_to_set();
    assert(ints.to_set().subset_of(all));
    vstd::set_lib::lemma_subset_equality(ints.to_set(), all);
    assert(ints.to_set().contains(row));
    let i = choose|i: int| 0 <= i < ints.len() && ints[i] == row;
    assert(order[i] == row);
}

// ── Sorting ────────────────────────────────────────────────────────────────

fn text_is_before(a: &Vec<char>, b: &Vec<char>) -> (r: bool)
    ensures
        r == text_before(a@, b@),
{
    let mut i: usize = 0;
    assert(a@.skip(0) =~= a@);
    assert(b@.skip(0) =~= b@);
    while i < a.len() && i < b.len() && a[i] == b[i]
        invariant
            i <= a.len(),
            i <= b.len(),
            text_before(a@, b@) == text_before(a@.skip(i as int), b@.skip(i as int)),
        decreases a.len() - i,
    {
        assert(a@.skip(i as int).drop_first() =~= a@.skip(i + 1));
        assert(b@.skip(i as int).drop_first() =~= b@.skip(i + 1));
        i = i + 1;
    }
    if i >= a.len() {
        i < b.len()
    } else if i >= b.len() {
        false
    } else {
        a[i] < b[i]
    }
}

fn texts_equal(a: &Vec<char>, b: &Vec<char>) -> (r: bool)
    ensures
        r == (a@ == b@),
{
    if a.len() != b.len() {
        return false;
    }
    let mut i: usize = 0;
    while i < a.len()
        invariant
            i <= a.len(),
            a.len() == b.len(),
            forall|k: int| 0 <= k < i ==> a@[k] == b@[k],
        decreases a.len() - i,
    {
        if a[i] != b[i] {
            return false;
        }
        i = i + 1;
    }
    assert(a@ =~= b@);
    true
}

/// Is row `i` shown before row `j`?
fn is_row_before(keys: &Vec<Key>, reverse: bool, pinned: &Vec<bool>, i: usize, j: usize) -> (r:
    bool)
    requires
        i < keys.len(),
        j < keys.len(),
        pinned.len() == keys.len(),
    ensures
        r == row_before(key_views(keys@), reverse, pinned@, i as int, j as int),
{
    if pinned[i] != pinned[j] {
        return pinned[i];
    }
    let (a, b) = (&keys[i], &keys[j]);
    let same_first: bool = texts_equal(&a.first, &b.first);
    let same_second: bool = texts_equal(&a.second, &b.second);
    let same: bool = a.num == b.num && a.num2 == b.num2 && same_first && same_second;
    assert(same == (a@ == b@)) by {
        if same {
            assert(a@ =~= b@);
        }
    }
    if same {
        return if reverse {
            j < i
        } else {
            i < j
        };
    }
    let (p, q) = if reverse {
        (b, a)
    } else {
        (a, b)
    };
    if p.num != q.num {
        p.num < q.num
    } else if p.num2 != q.num2 {
        p.num2 < q.num2
    } else if !same_first {
        text_is_before(&p.first, &q.first)
    } else {
        text_is_before(&p.second, &q.second)
    }
}

/// The rows in the order in which they are shown.
pub fn sorted_rows(keys: &Vec<Key>, reverse: bool, pinned: &Vec<bool>) -> (order: Vec<usize>)
    requires
        pinned.len() == keys.len(),
    ensures
        is_order(key_views(keys@), reverse, pinned@, order@),
{
    let ghost kv = key_views(keys@);
    let mut order: Vec<usize> = Vec::new();
    let mut k: usize = 0;
    while k < keys.len()
        invariant
            k <= keys.len(),
            pinned.len() == keys.len(),
            kv == key_views(keys@),
            is_permutation(order@, k as int),
            forall|i: int, j: int|
                0 <= i < j < order.len() ==> row_before(
                    kv,
                    reverse,
                    pinned@,
                    #[trigger] order@[i] as int,
                    #[trigger] order@[j] as int,
                ),
        decreases keys.len() - k,
    {
        let mut at: usize = 0;
        while at < order.len() && !is_row_before(keys, reverse, pinned, k, order[at])
            invariant
                at <= order.len(),
                k < keys.len(),
                pinned.len() == keys.len(),
                kv == key_views(keys@),
                is_permutation(order@, k as int),
                forall|i: int|
                    0 <= i < at ==> !row_before(
                        kv,
                        reverse,
                        pinned@,
                        k as int,
                        #[trigger] order@[i] as int,
                    ),
            decreases order.len() - at,
        {
            at = at + 1;
        }
        let ghost before = order@;
        order.insert(at, k);
        proof {
            let after = order@;
            assert(after == before.insert(at as int, k));
            assert forall|i: int, j: int| 0 <= i < j < after.len() implies row_before(
                kv,
                reverse,
                pinned@,
                #[trigger] after[i] as int,
                #[trigger] after[j] as int,
            ) by {
                if i < at && j == at {
                    row_before_total(kv, reverse, pinned@, before[i] as int, k as int);
                } else if i == at {
                    assert(after[j] == before[j - 1]);
                    if j - 1 > at {
                        assert(row_before(
                            kv,
                            reverse,
                            pinned@,
                            before[at as int] as int,
                            before[j - 1] as int,
                        ));
                        row_before_transitive(
                            kv,
                            reverse,
                            pinned@,
                            k as int,
                            before[at as int] as int,
                            before[j - 1] as int,
                        );
                    }
                } else {
                    let bi = if i < at { i } else { i - 1 };
                    let bj = if j < at { j } else { j - 1 };
                    assert(after[i] == before[bi] && after[j] == before[bj]);
                }
            }
            assert forall|i: int, j: int| 0 <= i < j < after.len() implies after[i] != after[j] by {
                row_before_total(kv, reverse, pinned@, after[i] as int, after[j] as int);
                if after[i] == after[j] {
                    assert(row_before(kv, reverse, pinned@, after[i] as int, after[j] as int));
                }
            }
        }
        k = k + 1;
    }
    order
}

// ── Rearranging ────────────────────────────────────────────────────────────

/// The items of a list in the order of `rows`.
pub open spec fn arranged<T>(list: Seq<T>, rows: Seq<usize>) -> Seq<T> {
    Seq::new(rows.len(), |i: int| list[rows[i] as int])
}

/// Puts the items of a list in the order of `rows`.
pub fn rearranged<T>(list: Vec<T>, rows: &Vec<usize>) -> (r: Vec<T>)
    requires
        is_permutation(rows@, list@.len() as int),
    ensures
        r@ == arranged(list@, rows@),
{
    let n: usize = list.len();
    let ghost before = list@;
    let mut slots: Vec<Option<T>> = Vec::new();
    let mut rest: Vec<T> = list;
    while rest.len() > 0
        invariant
            rest@.len() + slots@.len() == n,
            before.len() == n,
            rest@ == before.take(rest@.len() as int),
            forall|k: int|
                0 <= k < slots@.len() ==> #[trigger] slots@[k] == Some(before[n - 1 - k]),
        decreases rest.len(),
    {
        let x: Option<T> = rest.pop();
        slots.push(x);
        assert(rest@ =~= before.take(rest@.len() as int));
    }
    let mut out: Vec<T> = Vec::new();
    let mut j: usize = 0;
    while j < n
        invariant
            j <= n,
            slots.len() == n,
            rows.len() == n,
            before.len() == n,
            is_permutation(rows@, n as int),
            out.len() == j,
            forall|k: int| 0 <= k < j ==> #[trigger] out@[k] == before[rows@[k] as int],
            forall|k: int|
                j <= k < n ==> #[trigger] slots@[n - 1 - rows@[k]] == Some(before[rows@[k] as int]),
        decreases n - j,
    {
        let at: usize = n - 1 - rows[j];
        assert(slots@[n - 1 - rows@[j as int]] == Some(before[rows@[j as int] as int]));
        let mut hole: Option<T> = None;
        std::mem::swap(&mut hole, &mut slots[at]);
        match hole {
            Some(m) => {
                out.push(m);
            },
            None => {
                assert(false);
            },
        }
        j = j + 1;
    }
    assert(out@ =~= arranged(before, rows@));
    out
}

} // verus!
