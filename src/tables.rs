use vstd::prelude::*;

verus! {

/// The value that the first entry keyed `k` holds.
pub open spec fn lookup<V>(t: Seq<(String, V)>, k: Seq<char>) -> Option<V>
    decreases t.len(),
{
    if t.len() == 0 {
        None
    } else if t[0].0@ == k {
        Some(t[0].1)
    } else {
        lookup(t.drop_first(), k)
    }
}

/// Position of the first entry keyed `key`; a missing key is no error.
pub fn find_key<V>(t: &Vec<(String, V)>, key: &String) -> (r: Option<usize>)
    ensures
        match r {
            Some(i) => i < t@.len() && lookup(t@, key@) == Some(t@[i as int].1),
            None => lookup(t@, key@).is_none(),
        },
{
    let n = t.len();
    let mut i: usize = 0;
    assert(t@.subrange(0, n as int) == t@);
    while i < n
        invariant
            n == t@.len(),
            i <= n,
            lookup(t@, key@) == lookup(t@.subrange(i as int, n as int), key@),
        decreases n - i,
    {
        assert(t@.subrange(i as int, n as int).drop_first() == t@.subrange(i + 1, n as int));
        assert(t@.subrange(i as int, n as int)[0] == t@[i as int]);
        if t[i].0 == *key {
            return Some(i);
        }
        i = i + 1;
    }
    None
}

} // verus!
