//! Tags: collecting the distinct tags of all notes and filtering notes by tag.
use vstd::prelude::*;
use crate::note::Note;
use crate::order::{lemma_injective_onto, is_selection, lex_order, stable_sort_by_keys, is_stable_sort, stable_sort_witness, keys_ints, lemma_item_order, item_order};
use crate::text::{code_points, lowercase, to_lowercase, code_point_key, lemma_code_points_injective};

verus! {

/// `s` is the lowercase form of some tag of some note.
pub open spec fn is_lower_tag_of(notes: Seq<Note>, s: Seq<char>) -> bool {
    exists|i: int, t: int|
        0 <= i < notes.len() && 0 <= t < notes[i].tags@.len() && s == lowercase(
            #[trigger] notes[i].tags@[t]@,
        )
}

/// `tags` lists every lowercased tag of `notes` exactly once, in strictly
/// increasing order of code points.
pub open spec fn is_sorted_tag_list(notes: Seq<Note>, tags: Seq<String>) -> bool {
    &&& forall|k: int| 0 <= k < tags.len() ==> is_lower_tag_of(notes, #[trigger] tags[k]@)
    &&& covers_notes(tags, notes, notes.len() as int)
    &&& forall|a: int, b: int|
        0 <= a < b < tags.len() ==> lex_order(code_points(tags[a]@), code_points(tags[b]@)) < 0
}

/// `s` is the view of some string in `list`.
pub open spec fn in_list(list: Seq<String>, s: Seq<char>) -> bool {
    exists|k: int| 0 <= k < list.len() && #[trigger] list[k]@ == s
}

/// Every lowercased tag of the notes before position `i` is in `list`.
pub open spec fn covers_notes(list: Seq<String>, notes: Seq<Note>, i: int) -> bool {
    forall|j: int, t: int|
        0 <= j < i && 0 <= t < notes[j].tags@.len() ==> #[trigger] in_list(
            list,
            lowercase(notes[j].tags@[t]@),
        )
}

/// Every lowercased tag among the first `t` of `tags` is in `list`.
pub open spec fn covers_tags(list: Seq<String>, tags: Seq<String>, t: int) -> bool {
    forall|s: int| 0 <= s < t ==> #[trigger] in_list(list, lowercase(tags[s]@))
}

proof fn lemma_in_list_push(list: Seq<String>, x: String, s: Seq<char>)
    requires
        in_list(list, s),
    ensures
        in_list(list.push(x), s),
{
    let k = choose|k: int| 0 <= k < list.len() && #[trigger] list[k]@ == s;
    assert(list.push(x)[k]@ == s);
}

/// Collects all distinct tags of `notes`, lowercased and sorted.
pub fn collect_all_tags(notes: &[Note]) -> (r: Vec<String>)
    ensures
        is_sorted_tag_list(notes@, r@),
{
    let mut uniq: Vec<String> = Vec::new();
    let mut keys: Vec<Vec<i64>> = Vec::new();
    let mut i: usize = 0;
    while i < notes.len()
        invariant
            i <= notes@.len(),
            uniq.len() == keys.len(),
            forall|k: int| 0 <= k < uniq.len() ==> crate::order::key_ints(#[trigger] keys@[k]@) == code_points(uniq@[k]@),
            forall|k: int| 0 <= k < uniq.len() ==> is_lower_tag_of(notes@, #[trigger] uniq@[k]@),
            forall|a: int, b: int| 0 <= a < b < uniq.len() ==> uniq@[a]@ != uniq@[b]@,
            covers_notes(uniq@, notes@, i as int),
        decreases notes@.len() - i,
    {
        let tags = &notes[i].tags;
        let mut t: usize = 0;
        while t < tags.len()
            invariant
                i < notes@.len(),
                tags == notes@[i as int].tags,
                t <= tags.len(),
                uniq.len() == keys.len(),
                forall|k: int| 0 <= k < uniq.len() ==> crate::order::key_ints(#[trigger] keys@[k]@) == code_points(uniq@[k]@),
                forall|k: int| 0 <= k < uniq.len() ==> is_lower_tag_of(notes@, #[trigger] uniq@[k]@),
                forall|a: int, b: int| 0 <= a < b < uniq.len() ==> uniq@[a]@ != uniq@[b]@,
                covers_notes(uniq@, notes@, i as int),
                covers_tags(uniq@, tags@, t as int),
            decreases tags.len() - t,
        {
            let lower = to_lowercase(tags[t].as_str());
            let mut found = false;
            let mut k: usize = 0;
            while k < uniq.len()
                invariant
                    k <= uniq.len(),
                    found ==> in_list(uniq@, lower@),
                    !found ==> forall|m: int| 0 <= m < k ==> #[trigger] uniq@[m]@ != lower@,
                decreases uniq.len() - k,
            {
                if uniq[k] == lower {
                    found = true;
                }
                k = k + 1;
            }
            proof {
                assert(is_lower_tag_of(notes@, lower@)) by {
                    assert(notes@[i as int].tags@[t as int]@ == tags@[t as int]@);
                }
            }
            if !found {
                let key = code_point_key(lower.as_str());
                let ghost old_list = uniq@;
                uniq.push(lower);
                keys.push(key);
                proof {
                    assert(uniq@ == old_list.push(lower));
                    assert forall|j: int, t2: int|
                        0 <= j < i && 0 <= t2 < notes@[j].tags@.len() implies #[trigger] in_list(
                            uniq@,
                            lowercase(notes@[j].tags@[t2]@),
                        ) by {
                        lemma_in_list_push(old_list, lower, lowercase(notes@[j].tags@[t2]@));
                    }
                    assert forall|s2: int| 0 <= s2 < t implies #[trigger] in_list(uniq@, lowercase(tags@[s2]@)) by {
                        lemma_in_list_push(old_list, lower, lowercase(tags@[s2]@));
                    }
                    assert(uniq@[uniq.len() - 1]@ == lowercase(tags@[t as int]@));
                    assert(in_list(uniq@, lowercase(tags@[t as int]@)));
                }
            }
            t = t + 1;
        }
        proof {
            assert forall|j: int, t2: int|
                0 <= j < i + 1 && 0 <= t2 < notes@[j].tags@.len() implies #[trigger] in_list(
                    uniq@,
                    lowercase(notes@[j].tags@[t2]@),
                ) by {
                if j == i {
                    assert(in_list(uniq@, lowercase(tags@[t2]@)));
                }
            }
        }
        i = i + 1;
    }
    let mut items: Vec<usize> = Vec::new();
    let mut j: usize = 0;
    while j < uniq.len()
        invariant
            j <= uniq.len(),
            items.len() == j,
            forall|m: int| 0 <= m < j ==> #[trigger] items@[m] == m,
        decreases uniq.len() - j,
    {
        items.push(j);
        j = j + 1;
    }
    let ghost before = items@;
    stable_sort_by_keys(items.as_mut_slice(), &keys, false);
    let ghost ks = keys_ints(keys@);
    let ghost p = choose|p: Seq<int>| stable_sort_witness(items@, before, p, ks, false);
    let mut r: Vec<String> = Vec::new();
    let mut m: usize = 0;
    while m < items.len()
        invariant
            stable_sort_witness(items@, before, p, ks, false),
            ks == keys_ints(keys@),
            items.len() == uniq.len(),
            before.len() == uniq.len(),
            forall|q: int| 0 <= q < before.len() ==> #[trigger] before[q] == q,
            m <= items.len(),
            r.len() == m,
            forall|q: int| 0 <= q < m ==> #[trigger] r@[q] == uniq@[items@[q] as int],
        decreases items.len() - m,
    {
        let idx = items[m];
        r.push(uniq[idx].clone());
        m = m + 1;
    }
    proof {
        assert forall|a: int, b: int| 0 <= a < b < r.len() implies lex_order(code_points(r@[a]@), code_points(r@[b]@)) < 0 by {
            let ia = items@[a] as int;
            let ib = items@[b] as int;
            assert(item_order(ks, false, ia, ib) <= 0);
            assert(ks[ia] == code_points(uniq@[ia]@));
            assert(ks[ib] == code_points(uniq@[ib]@));
            assert(p[a] != p[b]);
            crate::order::lemma_lex_order_basics(ks[ia], ks[ib]);
            if ks[ia] == ks[ib] {
                lemma_code_points_injective(uniq@[ia]@, uniq@[ib]@);
            }
        }
        assert forall|k: int| 0 <= k < r.len() implies is_lower_tag_of(notes@, #[trigger] r@[k]@) by {
            assert(r@[k] == uniq@[items@[k] as int]);
        }
        assert forall|i2: int, t2: int|
            0 <= i2 < notes@.len() && 0 <= t2 < notes@[i2].tags@.len() implies #[trigger] in_list(
                r@,
                lowercase(notes@[i2].tags@[t2]@),
            ) by {
            assert(in_list(uniq@, lowercase(notes@[i2].tags@[t2]@)));
            let k0 = choose|k: int| 0 <= k < uniq.len() && #[trigger] uniq@[k]@ == lowercase(notes@[i2].tags@[t2]@);
            lemma_injective_onto(p, before.len() as int, k0);
            let q = choose|q: int| 0 <= q < p.len() && p[q] == k0;
            assert(r@[q]@ == uniq@[k0]@);
        }
    }
    r
}

/// The items of the tag filter list: "(All notes)" first, then every tag.
pub fn tag_filter_items(notes: &[Note]) -> (r: Vec<String>)
    ensures
        r@.len() >= 1,
        r@[0]@ == "(All notes)"@,
        is_sorted_tag_list(notes@, r@.skip(1)),
{
    let mut items: Vec<String> = Vec::new();
    items.push(String::from_str("(All notes)"));
    let mut tags = collect_all_tags(notes);
    let ghost tv = tags@;
    items.append(&mut tags);
    assert(items@.skip(1) =~= tv);
    items
}

/// `n` carries `tag`, compared case-insensitively.
pub open spec fn note_has_tag(n: Note, tag: Seq<char>) -> bool {
    exists|t: int| 0 <= t < n.tags@.len() && lowercase(#[trigger] n.tags@[t]@) == lowercase(tag)
}

/// Positions of the notes that carry `tag` (case-insensitive), in order.
pub fn filter_by_tag(notes: &[Note], tag: &str) -> (r: Vec<usize>)
    ensures
        is_selection(r@, notes@.len() as int, |i: int| note_has_tag(notes@[i], tag@)),
{
    let target = to_lowercase(tag);
    let mut r: Vec<usize> = Vec::new();
    let mut i: usize = 0;
    while i < notes.len()
        invariant
            i <= notes@.len(),
            target@ == lowercase(tag@),
            forall|a: int, b: int| 0 <= a < b < r.len() ==> r@[a] < r@[b],
            forall|a: int| 0 <= a < r.len() ==> #[trigger] r@[a] < i && note_has_tag(notes@[r@[a] as int], tag@),
            forall|k: int| 0 <= k < i && note_has_tag(notes@[k], tag@) ==> r@.contains(k as usize),
        decreases notes@.len() - i,
    {
        let tags = &notes[i].tags;
        let mut hit = false;
        let mut t: usize = 0;
        while t < tags.len()
            invariant
                i < notes@.len(),
                tags == notes@[i as int].tags,
                t <= tags.len(),
                target@ == lowercase(tag@),
                hit <==> exists|s: int| 0 <= s < t && lowercase(#[trigger] tags@[s]@) == lowercase(tag@),
            decreases tags.len() - t,
        {
            let lower = to_lowercase(tags[t].as_str());
            if lower == target {
                hit = true;
            }
            t = t + 1;
        }
        let ghost old_r = r@;
        if hit {
            r.push(i);
        }
        proof {
            assert(hit <==> note_has_tag(notes@[i as int], tag@));
            assert forall|k: int| 0 <= k < i + 1 && note_has_tag(notes@[k], tag@) implies r@.contains(k as usize) by {
                if k < i {
                    let w = choose|w: int| 0 <= w < old_r.len() && old_r[w] == k as usize;
                    assert(r@[w] == k as usize);
                } else {
                    assert(r@[r.len() - 1] == i);
                }
            }
        }
        i = i + 1;
    }
    r
}

} // verus!
