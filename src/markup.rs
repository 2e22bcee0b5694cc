use vstd::prelude::*;

verus! {

/// A markup element: tag, class attribute text, text content and children.
#[derive(Debug)]
pub struct Markup {
    pub tag: String,
    /// Attribute text of the element, such as ` class="card"`.
    pub classes: String,
    pub characters: String,
    pub children: Vec<Markup>,
}

/// The abstract value of a markup element.
pub struct MarkupView {
    pub tag: Seq<char>,
    pub classes: Seq<char>,
    pub characters: Seq<char>,
    pub children: Seq<MarkupView>,
}

/// The abstract value of `m`.
pub open spec fn markup_view(m: &Markup) -> MarkupView
    decreases m, 1nat,
{
    MarkupView {
        tag: m.tag@,
        classes: m.classes@,
        characters: m.characters@,
        children: markup_views(m.children@),
    }
}

/// The abstract values of `ms`, in order.
pub open spec fn markup_views(ms: Seq<Markup>) -> Seq<MarkupView>
    decreases ms, 0nat,
{
    if ms.len() == 0 {
        Seq::empty()
    } else {
        markup_views(ms.subrange(0, ms.len() - 1)).push(markup_view(&ms[ms.len() - 1]))
    }
}

proof fn lemma_markup_views(ms: Seq<Markup>)
    ensures
        markup_views(ms).len() == ms.len(),
        forall|i: int| 0 <= i < ms.len() ==> #[trigger] markup_views(ms)[i] == markup_view(&ms[i]),
    decreases ms.len(),
{
    if ms.len() > 0 {
        let front = ms.subrange(0, ms.len() - 1);
        lemma_markup_views(front);
        assert forall|i: int| 0 <= i < ms.len() implies #[trigger] markup_views(ms)[i] == markup_view(&ms[i]) by {
            if i < ms.len() - 1 {
                assert(front[i] == ms[i]);
            }
        }
    }
}

/// There is one view for each element.
pub proof fn lemma_markup_views_len(ms: Seq<Markup>)
    ensures
        markup_views(ms).len() == ms.len(),
        forall|i: int| 0 <= i < ms.len() ==> #[trigger] markup_views(ms)[i] == markup_view(&ms[i]),
{
    lemma_markup_views(ms);
}

/// Views of a sequence that grew by one element.
pub proof fn lemma_markup_views_push(ms: Seq<Markup>, m: Markup)
    ensures
        markup_views(ms.push(m)) == markup_views(ms).push(markup_view(&m)),
{
    assert(ms.push(m).subrange(0, ms.len() as int) == ms);
}

/// Whether two elements are the same: same tag, attributes, text and children.
pub fn markup_eq(a: &Markup, b: &Markup) -> (r: bool)
    ensures
        r == (markup_view(a) == markup_view(b)),
    decreases a,
{
    if a.tag != b.tag || a.classes != b.classes || a.characters != b.characters || a.children.len()
        != b.children.len() {
        proof {
            lemma_markup_views(a.children@);
            lemma_markup_views(b.children@);
        }
        return false;
    }
    let n = a.children.len();
    let mut i: usize = 0;
    proof {
        lemma_markup_views(a.children@);
        lemma_markup_views(b.children@);
    }
    while i < n
        invariant
            n == a.children@.len(),
            n == b.children@.len(),
            i <= n,
            markup_views(a.children@).len() == n,
            markup_views(b.children@).len() == n,
            forall|j: int| 0 <= j < n ==> #[trigger] markup_views(a.children@)[j] == markup_view(&a.children@[j]),
            forall|j: int| 0 <= j < n ==> #[trigger] markup_views(b.children@)[j] == markup_view(&b.children@[j]),
            forall|j: int| 0 <= j < i ==> markup_views(a.children@)[j] == markup_views(b.children@)[j],
        decreases n - i,
    {
        if !markup_eq(&a.children[i], &b.children[i]) {
            assert(markup_views(a.children@)[i as int] != markup_views(b.children@)[i as int]);
            return false;
        }
        i = i + 1;
    }
    assert(markup_views(a.children@) =~= markup_views(b.children@));
    true
}

/// `ms` without the elements that repeat an earlier one; first occurrences
/// keep their order.
pub open spec fn dedup_views(ms: Seq<MarkupView>) -> Seq<MarkupView>
    decreases ms.len(),
{
    if ms.len() == 0 {
        Seq::empty()
    } else {
        let d = dedup_views(ms.drop_last());
        if d.contains(ms.last()) {
            d
        } else {
            d.push(ms.last())
        }
    }
}

/// Removes each element that repeats an earlier one; first occurrences keep
/// their order.
pub fn dedup_markup(ms: Vec<Markup>) -> (r: Vec<Markup>)
    ensures
        markup_views(r@) == dedup_views(markup_views(ms@)),
{
    let ghost all = ms@;
    let n = ms.len();
    let mut rest = ms;
    let mut out: Vec<Markup> = Vec::new();
    let mut k: usize = 0;
    assert(all.subrange(0, 0) == Seq::<Markup>::empty());
    assert(all.subrange(0, n as int) == all);
    while k < n
        invariant
            n == all.len(),
            k <= n,
            rest@ == all.subrange(k as int, n as int),
            markup_views(out@) == dedup_views(markup_views(all.subrange(0, k as int))),
        decreases n - k,
    {
        let m = rest.remove(0);
        assert(m == all[k as int]);
        let ghost before = out@;
        let ghost prefix = all.subrange(0, k as int);
        proof {
            assert(all.subrange(0, k + 1) == prefix.push(m));
            lemma_markup_views_push(prefix, m);
            lemma_markup_views(out@);
            assert(markup_views(prefix.push(m)).drop_last() == markup_views(prefix));
        }
        let mut seen = false;
        let mut j: usize = 0;
        while j < out.len()
            invariant
                out@ == before,
                j <= out@.len(),
                markup_views(out@).len() == out@.len(),
                forall|x: int| 0 <= x < out@.len() ==> #[trigger] markup_views(out@)[x] == markup_view(&out@[x]),
                seen == exists|x: int| 0 <= x < j && markup_views(out@)[x] == markup_view(&m),
            decreases out@.len() - j,
        {
            let same = markup_eq(&out[j], &m);
            let ghost jj = j as int;
            assert(markup_views(out@)[jj] == markup_view(&out@[jj]));
            if same {
                seen = true;
            }
            j = j + 1;
            assert(seen == exists|x: int| 0 <= x < j && markup_views(out@)[x] == markup_view(&m)) by {
                if seen && same {
                    assert(markup_views(out@)[jj] == markup_view(&m));
                }
                if !seen {
                    assert forall|x: int| 0 <= x < j implies markup_views(out@)[x] != markup_view(&m) by {
                        if x < jj {
                        }
                    }
                }
            }
        }
        proof {
            if markup_views(out@).contains(markup_view(&m)) {
                let x = choose|x: int| 0 <= x < markup_views(out@).len() && markup_views(out@)[x] == markup_view(&m);
                assert(x < j);
            }
        }
        if !seen {
            out.push(m);
            proof {
                lemma_markup_views_push(before, m);
            }
        }
        k = k + 1;
        assert(rest@ == all.subrange(k as int, n as int));
    }
    out
}

/// Wherever `y` occurs in `ms`, `x` occurs earlier.
pub open spec fn seen_before(ms: Seq<MarkupView>, x: MarkupView, y: MarkupView) -> bool {
    forall|b: int| 0 <= b < ms.len() && #[trigger] ms[b] == y ==> exists|a: int| 0 <= a < b && #[trigger] ms[a] == x
}

/// Removing repeats from a list of markup elements leaves each element once:
/// no two that remain are the same, each element of the list is still there,
/// nothing else is, and they come in the order in which each was first seen.
pub proof fn lemma_dedup(ms: Seq<MarkupView>)
    ensures
        forall|i: int, j: int| 0 <= i < j < dedup_views(ms).len() ==> dedup_views(ms)[i] != dedup_views(ms)[j],
        forall|i: int| 0 <= i < ms.len() ==> dedup_views(ms).contains(#[trigger] ms[i]),
        forall|i: int| 0 <= i < dedup_views(ms).len() ==> ms.contains(#[trigger] dedup_views(ms)[i]),
        forall|i: int, j: int|
            0 <= i < j < dedup_views(ms).len() ==> seen_before(ms, #[trigger] dedup_views(ms)[i], #[trigger] dedup_views(ms)[j]),
    decreases ms.len(),
{
    if ms.len() > 0 {
        let front = ms.drop_last();
        let v = ms.last();
        let d = dedup_views(front);
        let r = dedup_views(ms);
        lemma_dedup(front);
        assert forall|i: int| 0 <= i < ms.len() implies r.contains(#[trigger] ms[i]) by {
            if i < ms.len() - 1 {
                assert(ms[i] == front[i]);
                let k = choose|k: int| 0 <= k < d.len() && d[k] == front[i];
                assert(r[k] == d[k]);
            } else if !d.contains(v) {
                assert(r[d.len() as int] == v);
            }
        }
        assert forall|i: int| 0 <= i < r.len() implies ms.contains(#[trigger] r[i]) by {
            if i < d.len() {
                assert(r[i] == d[i]);
                let k = choose|k: int| 0 <= k < front.len() && front[k] == d[i];
                assert(ms[k] == front[k]);
            } else {
                assert(ms[ms.len() - 1] == v);
            }
        }
        assert forall|i: int, j: int|
            0 <= i < j < r.len() implies seen_before(ms, #[trigger] r[i], #[trigger] r[j]) by {
            assert(r[i] == d[i]);
            assert forall|b: int| 0 <= b < ms.len() && #[trigger] ms[b] == r[j] implies exists|a: int|
                0 <= a < b && #[trigger] ms[a] == r[i] by {
                if b < ms.len() - 1 {
                    assert(ms[b] == front[b]);
                    if j < d.len() {
                        assert(r[j] == d[j]);
                        assert(seen_before(front, d[i], d[j]));
                        let a = choose|a: int| 0 <= a < b && #[trigger] front[a] == d[i];
                        assert(ms[a] == front[a]);
                    } else {
                        assert(r[j] == v);
                        assert(d.contains(v)) by {
                            assert(front.contains(front[b]));
                            assert(d.contains(front[b]));
                        }
                    }
                } else {
                    let k = choose|k: int| 0 <= k < front.len() && front[k] == d[i];
                    assert(ms[k] == front[k]);
                }
            }
        }
    }
}

} // verus!
