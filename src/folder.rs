use vstd::prelude::*;
use crate::paths::{is_preload_path, is_preload_image};

verus! {

/// The paths of `s` that the preloader decodes, in their order.
pub open spec fn preload_selection(s: Seq<Seq<char>>) -> Seq<Seq<char>>
    decreases s.len(),
{
    if s.len() == 0 {
        Seq::empty()
    } else if is_preload_path(s.last()) {
        preload_selection(s.drop_last()).push(s.last())
    } else {
        preload_selection(s.drop_last())
    }
}

/// How many paths of `s` the preloader decodes.
pub open spec fn image_count(s: Seq<Seq<char>>) -> nat
    decreases s.len(),
{
    if s.len() == 0 {
        0
    } else {
        image_count(s.drop_last()) + if is_preload_path(s.last()) { 1nat } else { 0nat }
    }
}

pub open spec fn views(v: Seq<String>) -> Seq<Seq<char>> {
    v.map_values(|s: String| s@)
}

/// The entries of a folder listing that are sent to the preload workers:
/// exactly those with a decodable image extension, in listing order.
pub fn select_preload_paths(entries: &Vec<String>) -> (r: Vec<String>)
    ensures
        views(r@) == preload_selection(views(entries@)),
{
    let mut r: Vec<String> = Vec::new();
    let mut i: usize = 0;
    while i < entries.len()
        invariant
            i <= entries@.len(),
            views(r@) == preload_selection(views(entries@).take(i as int)),
        decreases entries@.len() - i,
    {
        let ghost before = views(entries@).take(i as int);
        let ghost after = views(entries@).take(i as int + 1);
        assert(after.drop_last() =~= before);
        assert(after.last() == entries@[i as int]@);
        if is_preload_image(entries[i].as_str()) {
            r.push(entries[i].clone());
            assert(views(r@) =~= preload_selection(before).push(entries@[i as int]@));
        }
        i = i + 1;
    }
    assert(views(entries@).take(entries@.len() as int) =~= views(entries@));
    r
}

/// A folder preload enqueues exactly its image files: every selected path is
/// an image, every image of the listing is selected, and the number selected
/// is the number of images (so none of the other entries is sent).
pub proof fn lemma_preload_completeness(s: Seq<Seq<char>>)
    ensures
        forall|i: int| 0 <= i < preload_selection(s).len() ==> is_preload_path(
            #[trigger] preload_selection(s)[i],
        ),
        forall|p: Seq<char>| s.contains(p) && is_preload_path(p) ==> preload_selection(
            s,
        ).contains(p),
        preload_selection(s).len() == image_count(s),
        image_count(s) <= s.len(),
    decreases s.len(),
{
    if s.len() > 0 {
        let init = s.drop_last();
        lemma_preload_completeness(init);
        let sel = preload_selection(s);
        let sel0 = preload_selection(init);
        assert forall|p: Seq<char>| s.contains(p) && is_preload_path(p) implies sel.contains(p) by {
            let j = choose|j: int| 0 <= j < s.len() && s[j] == p;
            if j < s.len() - 1 {
                assert(init[j] == p);
                assert(init.contains(p));
                let k = choose|k: int| 0 <= k < sel0.len() && sel0[k] == p;
                if is_preload_path(s.last()) {
                    assert(sel[k] == p);
                }
            } else {
                assert(sel[sel.len() - 1] == p);
            }
        }
        if is_preload_path(s.last()) {
            assert forall|i: int| 0 <= i < sel.len() implies is_preload_path(#[trigger] sel[i]) by {
                if i < sel0.len() {
                    assert(sel[i] == sel0[i]);
                }
            }
        }
    }
}

/// Pacing of a folder preload with `count` images: `(batch, delay_ms)`,
/// the number of paths sent between pauses and the pause in milliseconds.
pub open spec fn pacing(count: nat) -> (usize, u64) {
    if count <= 100 {
        (20, 1)
    } else if count <= 500 {
        (10, 5)
    } else {
        (5, 10)
    }
}

/// Batch size and pause for preloading a folder of `count` images: larger
/// folders are sent in smaller batches with longer pauses, so that a single
/// image requested meanwhile is not starved.
pub fn preload_pacing(count: usize) -> (r: (usize, u64))
    ensures
        r == pacing(count as nat),
        r.0 >= 1,
{
    if count <= 100 {
        (20, 1)
    } else if count <= 500 {
        (10, 5)
    } else {
        (5, 10)
    }
}

/// More images never give larger batches or shorter pauses.
pub proof fn lemma_pacing_monotone(a: nat, b: nat)
    requires
        a <= b,
    ensures
        pacing(b).0 <= pacing(a).0,
        pacing(b).1 >= pacing(a).1,
{
}

} // verus!
