//! Lexicographic ordering of integer keys and a verified stable sort of
//! item indices by such keys.
use vstd::prelude::*;
use std::collections::HashSet;

verus! {

/// Three-way lexicographic comparison of two integer sequences:
/// `-1` when `a` comes first, `0` when they are equal, `1` when `b` comes first.
/// A proper prefix comes before the longer sequence.
pub open spec fn lex_order(a: Seq<int>, b: Seq<int>) -> int
    decreases a.len(),
{
    if a.len() == 0 {
        if b.len() == 0 {
            0
        } else {
            -1
        }
    } else if b.len() == 0 {
        1
    } else if a[0] < b[0] {
        -1
    } else if a[0] > b[0] {
        1
    } else {
        lex_order(a.drop_first(), b.drop_first())
    }
}

/// The integer view of an exec key.
pub open spec fn key_ints(k: Seq<i64>) -> Seq<int> {
    k.map_values(|x: i64| x as int)
}

/// The integer view of a vector of exec keys.
pub open spec fn keys_ints(keys: Seq<Vec<i64>>) -> Seq<Seq<int>> {
    keys.map_values(|k: Vec<i64>| key_ints(k@))
}

/// `lex_order` is a three-way result, zero exactly on equal sequences,
/// and swapping the arguments negates it.
pub proof fn lemma_lex_order_basics(a: Seq<int>, b: Seq<int>)
    ensures
        -1 <= lex_order(a, b) <= 1,
        lex_order(a, b) == -lex_order(b, a),
        lex_order(a, b) == 0 <==> a == b,
    decreases a.len(),
{
    if a.len() > 0 && b.len() > 0 && a[0] == b[0] {
        lemma_lex_order_basics(a.drop_first(), b.drop_first());
        if a.drop_first() == b.drop_first() {
            assert forall|i: int| 0 <= i < a.len() implies a[i] == b[i] by {
                if i > 0 {
                    assert(a[i] == a.drop_first()[i - 1]);
                    assert(b[i] == b.drop_first()[i - 1]);
                }
            }
            assert(a =~= b);
        }
    }
    if a.len() == 0 && b.len() == 0 {
        assert(a =~= b);
    }
    if a == b {
        lemma_lex_order_refl(a);
    }
}

/// Every sequence is equal to itself under `lex_order`.
pub proof fn lemma_lex_order_refl(a: Seq<int>)
    ensures
        lex_order(a, a) == 0,
    decreases a.len(),
{
    if a.len() > 0 {
        lemma_lex_order_refl(a.drop_first());
    }
}

/// `lex_order` is transitive, and strictly so when either step is strict.
pub proof fn lemma_lex_order_trans(a: Seq<int>, b: Seq<int>, c: Seq<int>)
    ensures
        lex_order(a, b) <= 0 && lex_order(b, c) <= 0 ==> lex_order(a, c) <= 0,
        lex_order(a, b) < 0 && lex_order(b, c) <= 0 ==> lex_order(a, c) < 0,
        lex_order(a, b) <= 0 && lex_order(b, c) < 0 ==> lex_order(a, c) < 0,
    decreases a.len(),
{
    lemma_lex_order_basics(a, b);
    lemma_lex_order_basics(b, c);
    lemma_lex_order_basics(a, c);
    if a.len() > 0 && b.len() > 0 && c.len() > 0 {
        lemma_lex_order_trans(a.drop_first(), b.drop_first(), c.drop_first());
    }
}

/// Three-way comparison of two items by their keys; `descending` reverses it.
pub open spec fn item_order(keys: Seq<Seq<int>>, descending: bool, a: int, b: int) -> int {
    if descending {
        lex_order(keys[b], keys[a])
    } else {
        lex_order(keys[a], keys[b])
    }
}

/// `item_order` inherits antisymmetry and (strict) transitivity from `lex_order`.
pub proof fn lemma_item_order(keys: Seq<Seq<int>>, descending: bool, a: int, b: int, c: int)
    ensures
        item_order(keys, descending, a, b) == -item_order(keys, descending, b, a),
        item_order(keys, descending, a, b) <= 0 && item_order(keys, descending, b, c) <= 0
            ==> item_order(keys, descending, a, c) <= 0,
        item_order(keys, descending, a, b) < 0 && item_order(keys, descending, b, c) <= 0
            ==> item_order(keys, descending, a, c) < 0,
        item_order(keys, descending, a, b) <= 0 && item_order(keys, descending, b, c) < 0
            ==> item_order(keys, descending, a, c) < 0,
{
    lemma_lex_order_basics(keys[a], keys[b]);
    if descending {
        lemma_lex_order_trans(keys[c], keys[b], keys[a]);
    } else {
        lemma_lex_order_trans(keys[a], keys[b], keys[c]);
    }
}

/// `p` witnesses that `out` is a stable sort of `input`: `out` is `input`
/// rearranged by the injective index map `p`, it is in non-decreasing order,
/// and items that compare equal keep the order they had in `input`.
pub open spec fn stable_sort_witness(
    out: Seq<usize>,
    input: Seq<usize>,
    p: Seq<int>,
    keys: Seq<Seq<int>>,
    descending: bool,
) -> bool {
    &&& out.len() == input.len()
    &&& p.len() == input.len()
    &&& forall|i: int| 0 <= i < p.len() ==> 0 <= #[trigger] p[i] < input.len()
    &&& forall|i: int| 0 <= i < p.len() ==> #[trigger] out[i] == input[p[i]]
    &&& forall|i: int, j: int| 0 <= i < j < p.len() ==> p[i] != p[j]
    &&& forall|i: int, j: int|
        0 <= i < j < out.len() ==> item_order(keys, descending, out[i] as int, out[j] as int)
            <= 0
    &&& forall|i: int, j: int|
        0 <= i < j < out.len() && item_order(keys, descending, out[i] as int, out[j] as int)
            == 0 ==> p[i] < p[j]
}

/// `out` is the stable sort of `input` by the keys of its items.
pub open spec fn is_stable_sort(
    out: Seq<usize>,
    input: Seq<usize>,
    keys: Seq<Seq<int>>,
    descending: bool,
) -> bool {
    exists|p: Seq<int>| stable_sort_witness(out, input, p, keys, descending)
}

/// Compares two exec keys lexicographically.
pub fn compare_keys(a: &Vec<i64>, b: &Vec<i64>) -> (r: i8)
    ensures
        r as int == lex_order(key_ints(a@), key_ints(b@)),
{
    let mut i: usize = 0;
    let ghost ka = key_ints(a@);
    let ghost kb = key_ints(b@);
    assert(ka.skip(0) =~= ka);
    assert(kb.skip(0) =~= kb);
    while i < a.len() && i < b.len()
        invariant
            i <= a.len(),
            i <= b.len(),
            ka == key_ints(a@),
            kb == key_ints(b@),
            lex_order(ka, kb) == lex_order(ka.skip(i as int), kb.skip(i as int)),
        decreases a.len() - i,
    {
        if a[i] < b[i] {
            return -1;
        }
        if a[i] > b[i] {
            return 1;
        }
        assert(ka.skip(i as int).drop_first() =~= ka.skip(i + 1));
        assert(kb.skip(i as int).drop_first() =~= kb.skip(i + 1));
        i = i + 1;
    }
    if i < a.len() {
        1
    } else if i < b.len() {
        -1
    } else {
        0
    }
}

/// Compares two items by their keys, reversed when `descending`.
fn compare_items(keys: &Vec<Vec<i64>>, descending: bool, a: usize, b: usize) -> (r: i8)
    requires
        a < keys.len(),
        b < keys.len(),
    ensures
        r as int == item_order(keys_ints(keys@), descending, a as int, b as int),
{
    if descending {
        compare_keys(&keys[b], &keys[a])
    } else {
        compare_keys(&keys[a], &keys[b])
    }
}

/// Sorts `items` stably by their keys (ascending, or descending when asked).
pub fn stable_sort_by_keys(items: &mut [usize], keys: &Vec<Vec<i64>>, descending: bool)
    requires
        forall|i: int| 0 <= i < old(items)@.len() ==> #[trigger] old(items)@[i] < keys.len(),
    ensures
        is_stable_sort(final(items)@, old(items)@, keys_ints(keys@), descending),
{
    let ghost input = items@;
    let ghost ks = keys_ints(keys@);
    let n = items.len();
    let mut out: Vec<usize> = Vec::new();
    let ghost mut p: Seq<int> = Seq::empty();
    let mut i: usize = 0;
    while i < n
        invariant
            n == input.len(),
            items@ == input,
            ks == keys_ints(keys@),
            forall|t: int| 0 <= t < input.len() ==> #[trigger] input[t] < keys.len(),
            i <= n,
            out.len() == i,
            p.len() == i,
            forall|t: int| 0 <= t < p.len() ==> 0 <= #[trigger] p[t] < i,
            forall|t: int| 0 <= t < p.len() ==> #[trigger] out@[t] == input[p[t]],
            forall|s: int, t: int| 0 <= s < t < p.len() ==> p[s] != p[t],
            forall|s: int, t: int|
                0 <= s < t < out.len() ==> item_order(ks, descending, out@[s] as int, out@[t] as int)
                    <= 0,
            forall|s: int, t: int|
                0 <= s < t < out.len() && item_order(ks, descending, out@[s] as int, out@[t] as int)
                    == 0 ==> p[s] < p[t],
        decreases n - i,
    {
        let x = items[i];
        let mut k: usize = 0;
        while k < out.len() && compare_items(keys, descending, out[k], x) <= 0
            invariant
                k <= out.len(),
                x < keys.len(),
                ks == keys_ints(keys@),
                forall|t: int| 0 <= t < out.len() ==> #[trigger] out@[t] < keys.len(),
                forall|t: int| 0 <= t < k ==> item_order(ks, descending, #[trigger] out@[t] as int, x as int) <= 0,
            decreases out.len() - k,
        {
            k = k + 1;
        }
        proof {
            // Every item from position k on is strictly after x.
            if k < out.len() {
                assert forall|t: int| k <= t < out.len() implies
                    item_order(ks, descending, x as int, #[trigger] out@[t] as int) < 0 by {
                    lemma_item_order(ks, descending, out@[k as int] as int, x as int, out@[t] as int);
                    lemma_item_order(ks, descending, x as int, out@[k as int] as int, out@[t] as int);
                }
            }
        }
        let ghost old_out = out@;
        let ghost old_p = p;
        out.insert(k, x);
        proof {
            p = old_p.insert(k as int, i as int);
            assert forall|s: int, t: int|
                0 <= s < t < out.len() implies item_order(ks, descending, out@[s] as int, out@[t] as int)
                    <= 0 by {
                if t == k {
                } else if s == k {
                } else {
                }
            }
            assert forall|s: int, t: int|
                0 <= s < t < out.len() && item_order(ks, descending, out@[s] as int, out@[t] as int)
                    == 0 implies p[s] < p[t] by {
                if s == k {
                    assert(item_order(ks, descending, x as int, old_out[t - 1] as int) < 0);
                }
            }
        }
        i = i + 1;
    }
    let mut j: usize = 0;
    while j < n
        invariant
            n == out.len(),
            n == items@.len(),
            j <= n,
            forall|t: int| 0 <= t < j ==> #[trigger] items@[t] == out@[t],
        decreases n - j,
    {
        items[j] = out[j];
        j = j + 1;
    }
    proof {
        assert(items@ =~= out@);
        assert(stable_sort_witness(items@, input, p, ks, descending));
    }
}

} // verus!

verus! {

/// `r` lists, in increasing order, exactly the positions below `n` that satisfy `pred`.
pub open spec fn is_selection(r: Seq<usize>, n: int, pred: spec_fn(int) -> bool) -> bool {
    &&& forall|i: int, j: int| 0 <= i < j < r.len() ==> r[i] < r[j]
    &&& forall|i: int| 0 <= i < r.len() ==> #[trigger] r[i] < n && pred(r[i] as int)
    &&& forall|k: int| 0 <= k < n && #[trigger] pred(k) ==> r.contains(k as usize)
}

/// An injective map from `[0, n)` into `[0, n)` reaches every value.
pub proof fn lemma_injective_onto(p: Seq<int>, n: int, v: int)
    requires
        p.len() == n,
        forall|i: int| 0 <= i < n ==> 0 <= #[trigger] p[i] < n,
        forall|i: int, j: int| 0 <= i < j < n ==> p[i] != p[j],
        0 <= v < n,
    ensures
        exists|q: int| 0 <= q < n && p[q] == v,
{
    if !(exists|q: int| 0 <= q < n && p[q] == v) {
        // p maps n positions injectively into the n - 1 values other than v.
        let s = p.to_set();
        let full = Set::new(|x: int| 0 <= x < n && x != v);
        assert(s.subset_of(full));
        vstd::set_lib::lemma_int_range(0, n);
        assert(full =~= Set::new(|x: int| 0 <= x < n).remove(v));
        assert(Set::new(|x: int| 0 <= x < n) =~= vstd::set_lib::set_int_range(0, n));
        vstd::set_lib::lemma_len_subset(s, full);
        p.unique_seq_to_set();
    }
}

/// A stable sort keeps exactly the items of its input.
pub proof fn lemma_stable_sort_members(out: Seq<usize>, input: Seq<usize>, keys: Seq<Seq<int>>, descending: bool, x: usize)
    requires
        is_stable_sort(out, input, keys, descending),
    ensures
        out.contains(x) <==> input.contains(x),
{
    let p = choose|p: Seq<int>| stable_sort_witness(out, input, p, keys, descending);
    if out.contains(x) {
        let i = choose|i: int| 0 <= i < out.len() && out[i] == x;
        assert(input[p[i]] == x);
    }
    if input.contains(x) {
        let j = choose|j: int| 0 <= j < input.len() && input[j] == x;
        lemma_injective_onto(p, input.len() as int, j);
        let q = choose|q: int| 0 <= q < input.len() && p[q] == j;
        assert(out[q] == x);
    }
}

/// The items of `v`, as a hash set.
pub fn members_set(v: &Vec<usize>) -> (r: HashSet<usize>)
    ensures
        forall|x: usize| #[trigger] r@.contains(x) <==> v@.contains(x),
{
    broadcast use vstd::std_specs::hash::group_hash_axioms;

    let mut r: HashSet<usize> = HashSet::new();
    let mut i: usize = 0;
    while i < v.len()
        invariant
            i <= v.len(),
            forall|x: usize| #[trigger] r@.contains(x) <==> exists|k: int| 0 <= k < i && v@[k] == x,
        decreases v.len() - i,
    {
        r.insert(v[i]);
        proof {
            assert forall|x: usize| #[trigger] r@.contains(x) <==> exists|k: int| 0 <= k < i + 1 && v@[k] == x by {
                if x == v@[i as int] {
                    assert(0 <= i < i + 1 && v@[i as int] == x);
                }
                if exists|k: int| 0 <= k < i + 1 && v@[k] == x {
                    let k = choose|k: int| 0 <= k < i + 1 && v@[k] == x;
                    if k < i {
                        assert(exists|k2: int| 0 <= k2 < i && v@[k2] == x);
                    }
                }
            }
        }
        i = i + 1;
    }
    r
}

/// `x` occurs among the first `j` items of `v`.
pub open spec fn in_prefix(v: Seq<usize>, j: int, x: usize) -> bool {
    exists|w: int| 0 <= w < j && #[trigger] v[w] == x
}

/// Keeps, in order, the items of the selection `v` that are in `members`;
/// the result selects the positions satisfying both predicates. Membership
/// is looked up in a hash set of `members`.
pub fn retain_members(
    v: &Vec<usize>,
    members: &Vec<usize>,
    Ghost(n): Ghost<int>,
    Ghost(p): Ghost<spec_fn(int) -> bool>,
    Ghost(q): Ghost<spec_fn(int) -> bool>,
) -> (r: Vec<usize>)
    requires
        0 <= n <= usize::MAX,
        is_selection(v@, n, p),
        forall|x: int| 0 <= x < n ==> (#[trigger] members@.contains(x as usize) <==> q(x)),
    ensures
        is_selection(r@, n, |x: int| p(x) && q(x)),
{
    let set = members_set(members);
    assert forall|x: int| 0 <= x < n implies (#[trigger] set@.contains(x as usize) <==> q(x)) by {
        assert(set@.contains(x as usize) <==> members@.contains(x as usize));
    }
    retain_in_set(v, &set, Ghost(n), Ghost(p), Ghost(q))
}

/// Keeps, in order, the items of the selection `v` that the set `members`
/// holds.
fn retain_in_set(
    v: &Vec<usize>,
    members: &HashSet<usize>,
    Ghost(n): Ghost<int>,
    Ghost(p): Ghost<spec_fn(int) -> bool>,
    Ghost(q): Ghost<spec_fn(int) -> bool>,
) -> (r: Vec<usize>)
    requires
        0 <= n <= usize::MAX,
        is_selection(v@, n, p),
        forall|x: int| 0 <= x < n ==> (#[trigger] members@.contains(x as usize) <==> q(x)),
    ensures
        is_selection(r@, n, |x: int| p(x) && q(x)),
{
    broadcast use vstd::std_specs::hash::group_hash_axioms;

    let mut r: Vec<usize> = Vec::new();
    let mut j: usize = 0;
    while j < v.len()
        invariant
            0 <= n <= usize::MAX,
            is_selection(v@, n, p),
            forall|x: int| 0 <= x < n ==> (#[trigger] members@.contains(x as usize) <==> q(x)),
            j <= v.len(),
            forall|a: int, b: int| 0 <= a < b < r.len() ==> r@[a] < r@[b],
            forall|a: int| 0 <= a < r.len() ==> #[trigger] in_prefix(v@, j as int, r@[a]),
            forall|a: int| 0 <= a < r.len() ==> #[trigger] r@[a] < n && p(r@[a] as int) && q(r@[a] as int),
            forall|w: int| 0 <= w < j && q(v@[w] as int) ==> #[trigger] r@.contains(v@[w]),
        decreases v.len() - j,
    {
        let x = v[j];
        let ghost old_r = r@;
        if members.contains(&x) {
            proof {
                assert forall|a: int| 0 <= a < r.len() implies r@[a] < x by {
                    assert(in_prefix(v@, j as int, r@[a]));
                    let w = choose|w: int| 0 <= w < j && #[trigger] v@[w] == r@[a];
                }
            }
            r.push(x);
        }
        proof {
            assert(x < n && p(x as int));
            assert forall|a: int| 0 <= a < r.len() implies #[trigger] in_prefix(v@, j + 1, r@[a]) by {
                if a < old_r.len() {
                    assert(in_prefix(v@, j as int, old_r[a]));
                    let w = choose|w: int| 0 <= w < j && #[trigger] v@[w] == old_r[a];
                    assert(v@[w] == r@[a]);
                } else {
                    assert(v@[j as int] == r@[a]);
                }
            }
            assert forall|w: int| 0 <= w < j + 1 && q(v@[w] as int) implies #[trigger] r@.contains(v@[w]) by {
                if w < j {
                    assert(old_r.contains(v@[w]));
                    let t = choose|t: int| 0 <= t < old_r.len() && old_r[t] == v@[w];
                    assert(r@[t] == v@[w]);
                } else {
                    assert(members@.contains((x as int) as usize));
                    assert(r@[r.len() - 1] == x);
                }
            }
        }
        j = j + 1;
    }
    proof {
        assert forall|k: int| 0 <= k < n && #[trigger] p(k) && q(k) implies r@.contains(k as usize) by {
            assert(v@.contains(k as usize));
            let w = choose|w: int| 0 <= w < v@.len() && v@[w] == k as usize;
            assert(v@[w] as int == k);
            assert(q(v@[w] as int));
        }
    }
    r
}

/// Two selections of the same positions agree on their first `k` items.
proof fn lemma_selection_prefix(r1: Seq<usize>, r2: Seq<usize>, n: int, pred: spec_fn(int) -> bool, k: int)
    requires
        is_selection(r1, n, pred),
        is_selection(r2, n, pred),
        0 <= k <= r1.len(),
        k <= r2.len(),
    ensures
        forall|i: int| 0 <= i < k ==> r1[i] == r2[i],
    decreases k,
{
    if k > 0 {
        lemma_selection_prefix(r1, r2, n, pred, k - 1);
        let i = k - 1;
        let x = r1[i];
        let y = r2[i];
        if x < y {
            assert(pred(x as int));
            assert(r2.contains(x));
            let j = choose|j: int| 0 <= j < r2.len() && r2[j] == x;
            if j < i {
                assert(r1[j] == r2[j]);
            } else if j > i {
                assert(r2[i] < r2[j]);
            }
        } else if y < x {
            assert(pred(y as int));
            assert(r1.contains(y));
            let j = choose|j: int| 0 <= j < r1.len() && r1[j] == y;
            if j < i {
                assert(r1[j] == r2[j]);
            } else if j > i {
                assert(r1[i] < r1[j]);
            }
        }
    }
}

/// A selection is determined by the range and the predicate.
pub proof fn lemma_selection_unique(r1: Seq<usize>, r2: Seq<usize>, n: int, pred: spec_fn(int) -> bool)
    requires
        is_selection(r1, n, pred),
        is_selection(r2, n, pred),
    ensures
        r1 == r2,
{
    if r1.len() <= r2.len() {
        lemma_selection_prefix(r1, r2, n, pred, r1.len() as int);
        if r1.len() < r2.len() {
            let y = r2[r1.len() as int];
            assert(pred(y as int));
            assert(r1.contains(y));
            let j = choose|j: int| 0 <= j < r1.len() && r1[j] == y;
            assert(r1[j] == r2[j]);
            assert(r2[j] < r2[r1.len() as int]);
        }
    } else {
        lemma_selection_prefix(r1, r2, n, pred, r2.len() as int);
        let y = r1[r2.len() as int];
        assert(pred(y as int));
        assert(r2.contains(y));
        let j = choose|j: int| 0 <= j < r2.len() && r2[j] == y;
        assert(r1[j] == r2[j]);
        assert(r1[j] < r1[r2.len() as int]);
    }
    assert(r1 =~= r2);
}

/// Two stable sorts of the same items without repeats agree on their first
/// `k` items.
proof fn lemma_stable_sort_prefix(
    out1: Seq<usize>,
    out2: Seq<usize>,
    input: Seq<usize>,
    keys: Seq<Seq<int>>,
    descending: bool,
    p1: Seq<int>,
    p2: Seq<int>,
    k: int,
)
    requires
        stable_sort_witness(out1, input, p1, keys, descending),
        stable_sort_witness(out2, input, p2, keys, descending),
        forall|i: int, j: int| 0 <= i < j < input.len() ==> input[i] != input[j],
        0 <= k <= input.len(),
    ensures
        forall|i: int| 0 <= i < k ==> out1[i] == out2[i],
    decreases k,
{
    if k > 0 {
        lemma_stable_sort_prefix(out1, out2, input, keys, descending, p1, p2, k - 1);
        let i = k - 1;
        let n = input.len() as int;
        let a = out1[i];
        let b = out2[i];
        if a != b {
            // `b` stands in `out1` at some q, and `a` in `out2` at some q2.
            lemma_injective_onto(p1, n, p2[i]);
            let q = choose|q: int| 0 <= q < n && p1[q] == p2[i];
            lemma_injective_onto(p2, n, p1[i]);
            let q2 = choose|q: int| 0 <= q < n && p2[q] == p1[i];
            assert(out1[q] == b);
            assert(out2[q2] == a);
            if q < i {
                assert(out2[q] == b);
                assert(p2[q] != p2[i]);
                assert(input[p2[q]] != input[p2[i]]);
            }
            if q2 < i {
                assert(out1[q2] == a);
                assert(p1[q2] != p1[i]);
                assert(input[p1[q2]] != input[p1[i]]);
            }
            assert(q > i && q2 > i);
            assert(item_order(keys, descending, a as int, b as int) <= 0);
            assert(item_order(keys, descending, b as int, a as int) <= 0);
            lemma_item_order(keys, descending, a as int, b as int, a as int);
            assert(p1[i] < p1[q]);
            assert(p2[i] < p2[q2]);
        }
    }
}

/// A stable sort of items without repeats is determined by the items and
/// their keys.
pub proof fn lemma_stable_sort_unique(
    out1: Seq<usize>,
    out2: Seq<usize>,
    input: Seq<usize>,
    keys: Seq<Seq<int>>,
    descending: bool,
)
    requires
        is_stable_sort(out1, input, keys, descending),
        is_stable_sort(out2, input, keys, descending),
        forall|i: int, j: int| 0 <= i < j < input.len() ==> input[i] != input[j],
    ensures
        out1 == out2,
{
    let p1 = choose|p: Seq<int>| stable_sort_witness(out1, input, p, keys, descending);
    let p2 = choose|p: Seq<int>| stable_sort_witness(out2, input, p, keys, descending);
    lemma_stable_sort_prefix(out1, out2, input, keys, descending, p1, p2, input.len() as int);
    assert(out1 =~= out2);
}

/// A selection has no more items than the range it selects from.
pub proof fn lemma_selection_len(r: Seq<usize>, n: int, pred: spec_fn(int) -> bool)
    requires
        0 <= n,
        is_selection(r, n, pred),
    ensures
        r.len() <= n,
{
    lemma_increasing_len(r, n);
}

/// A strictly increasing sequence of values below `n` has at most `n` items.
pub proof fn lemma_increasing_len(r: Seq<usize>, n: int)
    requires
        0 <= n,
        forall|i: int, j: int| 0 <= i < j < r.len() ==> r[i] < r[j],
        forall|i: int| 0 <= i < r.len() ==> #[trigger] r[i] < n,
    ensures
        r.len() <= n,
    decreases r.len(),
{
    if r.len() > 0 {
        let last = r.last();
        assert forall|i: int| 0 <= i < r.len() - 1 implies #[trigger] r.drop_last()[i] < last by {
            assert(r[i] < r[r.len() - 1]);
        }
        assert forall|i: int, j: int| 0 <= i < j < r.drop_last().len() implies r.drop_last()[i] < r.drop_last()[j] by {
            assert(r.drop_last()[i] == r[i]);
            assert(r.drop_last()[j] == r[j]);
        }
        lemma_increasing_len(r.drop_last(), last as int);
    }
}

/// Membership in a selection is the selecting predicate, below `n`.
pub proof fn lemma_selection_members(r: Seq<usize>, n: int, pred: spec_fn(int) -> bool, x: int)
    requires
        is_selection(r, n, pred),
        0 <= x < n,
        n <= usize::MAX + 1,
    ensures
        r.contains(x as usize) <==> pred(x),
{
    if r.contains(x as usize) {
        let a = choose|a: int| 0 <= a < r.len() && r[a] == x as usize;
        assert(pred(r[a] as int));
    }
}

/// A selection by one predicate is a selection by any equivalent one.
pub proof fn lemma_selection_equiv(r: Seq<usize>, n: int, p: spec_fn(int) -> bool, q: spec_fn(int) -> bool)
    requires
        is_selection(r, n, p),
        forall|i: int| 0 <= i < n ==> #[trigger] p(i) == q(i),
    ensures
        is_selection(r, n, q),
{
    assert forall|k: int| 0 <= k < n && #[trigger] q(k) implies r.contains(k as usize) by {
        assert(p(k));
    }
}

/// The positions `0..n` in order.
pub fn all_positions(n: usize) -> (r: Vec<usize>)
    ensures
        is_selection(r@, n as int, |i: int| true),
        r@ == Seq::new(n as nat, |i: int| i as usize),
{
    let mut r: Vec<usize> = Vec::new();
    let mut i: usize = 0;
    while i < n
        invariant
            i <= n,
            r@ == Seq::new(i as nat, |k: int| k as usize),
        decreases n - i,
    {
        r.push(i);
        assert(r@ =~= Seq::new((i + 1) as nat, |k: int| k as usize));
        i = i + 1;
    }
    assert forall|k: int| 0 <= k < n implies #[trigger] r@.contains(k as usize) by {
        assert(r@[k] == k as usize);
    }
    r
}

} // verus!
