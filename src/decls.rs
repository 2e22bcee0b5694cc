use vstd::prelude::*;

use crate::text::string_of_chars;

verus! {

/// Declarations as (property, value) pairs.
pub type DeclSeq = Seq<(Seq<char>, Seq<char>)>;

/// Index of the last declaration of property `k`, or -1.
pub open spec fn key_index(d: DeclSeq, k: Seq<char>) -> int
    decreases d.len(),
{
    if d.len() == 0 {
        -1
    } else if d.last().0 == k {
        d.len() - 1
    } else {
        key_index(d.drop_last(), k)
    }
}

/// Sets property `k` to `v`: in place where it is declared, else at the end.
pub open spec fn upsert(d: DeclSeq, k: Seq<char>, v: Seq<char>) -> DeclSeq {
    let i = key_index(d, k);
    if i >= 0 {
        d.update(i, (k, v))
    } else {
        d.push((k, v))
    }
}

/// Sets property `k` to `v` unless `v` is empty.
pub open spec fn put(d: DeclSeq, k: Seq<char>, v: Seq<char>) -> DeclSeq {
    if v.len() == 0 {
        d
    } else {
        upsert(d, k, v)
    }
}

/// Sets each property of `e`, in order.
pub open spec fn upsert_all(d: DeclSeq, e: DeclSeq) -> DeclSeq
    decreases e.len(),
{
    if e.len() == 0 {
        d
    } else {
        let p = e.last();
        upsert(upsert_all(d, e.drop_last()), p.0, p.1)
    }
}

proof fn lemma_key_index_range(d: DeclSeq, k: Seq<char>)
    ensures
        -1 <= key_index(d, k) < d.len(),
        key_index(d, k) >= 0 ==> d[key_index(d, k)].0 == k,
    decreases d.len(),
{
    if d.len() > 0 {
        lemma_key_index_range(d.drop_last(), k);
    }
}

/// An ordered mapping from CSS property to value; each property once.
#[derive(Debug)]
pub struct Declarations {
    pub entries: Vec<(String, String)>,
}

impl View for Declarations {
    type V = DeclSeq;

    open spec fn view(&self) -> DeclSeq {
        self.entries@.map_values(|e: (String, String)| (e.0@, e.1@))
    }
}

impl Declarations {
    pub fn new() -> (r: Declarations)
        ensures
            r@ == DeclSeq::empty(),
    {
        Declarations { entries: Vec::new() }
    }

    /// Sets `key` to `value`: in place where `key` is declared, else at the end.
    pub fn insert(&mut self, key: &str, value: String)
        ensures
            final(self)@ == upsert(old(self)@, key@, value@),
    {
        let ghost d = self@;
        let k = string_of_chars(crate::text::chars_of(key));
        let mut i: usize = self.entries.len();
        let mut found = false;
        assert(d.subrange(0, i as int) == d);
        while i > 0 && !found
            invariant
                i <= self.entries@.len(),
                self@ == d,
                k@ == key@,
                key_index(d, key@) == key_index(d.subrange(0, i as int), key@),
                found ==> i > 0 && d[i - 1].0 == key@,
            decreases i + (if found { 0int } else { 1int }),
        {
            assert(d.subrange(0, i as int).drop_last() == d.subrange(0, i - 1));
            assert(d.subrange(0, i as int).last() == d[i - 1]);
            assert(d[i - 1].0 == self.entries@[i - 1].0@);
            let same = self.entries[i - 1].0 == k;
            if same {
                found = true;
            } else {
                i = i - 1;
            }
        }
        proof {
            lemma_key_index_range(d, key@);
            lemma_key_index_range(d.subrange(0, i as int), key@);
        }
        if found {
            assert(d.subrange(0, i as int).last() == d[i - 1]);
            assert(key_index(d.subrange(0, i as int), key@) == i - 1);
            self.entries.set(i - 1, (k, value));
            assert(self@ == d.update(i - 1, (key@, value@)));
        } else {
            assert(d.subrange(0, 0) == DeclSeq::empty());
            self.entries.push((k, value));
            assert(self@ == d.push((key@, value@)));
        }
    }

    /// Sets `key` to `value` unless `value` is empty.
    pub fn put(&mut self, key: &str, value: String)
        ensures
            final(self)@ == put(old(self)@, key@, value@),
    {
        if value.as_str().is_empty() {
        } else {
            self.insert(key, value);
        }
    }

    /// Sets each declaration of `other`, in order.
    pub fn extend(&mut self, other: Declarations)
        ensures
            final(self)@ == upsert_all(old(self)@, other@),
    {
        let ghost d = self@;
        let ghost e = other@;
        let rest = other.entries;
        let mut i: usize = 0;
        let n = rest.len();
        while i < n
            invariant
                n == e.len(),
                i <= n,
                rest@.len() == n,
                forall|j: int| i <= j < n ==> (#[trigger] rest@[j]).0@ == e[j].0 && rest@[j].1@ == e[j].1,
                self@ == upsert_all(d, e.subrange(0, i as int)),
            decreases n - i,
        {
            let k = rest[i].0.clone();
            let v = rest[i].1.clone();
            assert(e.subrange(0, i + 1).drop_last() == e.subrange(0, i as int));
            self.insert(k.as_str(), v);
            i = i + 1;
        }
        assert(e.subrange(0, n as int) == e);
    }
}

} // verus!
