use vstd::prelude::*;

verus! {

/// `s` with `removed` elements at `pos` replaced by `items`.
pub open spec fn spliced_seq(s: Seq<u64>, pos: int, removed: int, items: Seq<u64>) -> Seq<u64> {
    s.take(pos) + items + s.skip(pos + removed)
}

/// A copy of `v` with `removed` elements at `pos` replaced by `items`.
pub fn spliced(v: &Vec<u64>, pos: usize, removed: usize, items: &Vec<u64>) -> (r: Vec<u64>)
    requires
        pos + removed <= v@.len(),
    ensures
        r@ == spliced_seq(v@, pos as int, removed as int, items@),
{
    let mut result: Vec<u64> = Vec::new();
    let mut i: usize = 0;
    while i < pos
        invariant
            pos + removed <= v@.len(),
            0 <= i <= pos,
            result@ == v@.take(i as int),
        decreases pos - i,
    {
        result.push(v[i]);
        proof {
            assert(v@.take(i + 1) =~= v@.take(i as int).push(v@[i as int]));
        }
        i = i + 1;
    }
    let mut k: usize = 0;
    while k < items.len()
        invariant
            0 <= k <= items@.len(),
            result@ == v@.take(pos as int) + items@.take(k as int),
        decreases items@.len() - k,
    {
        result.push(items[k]);
        proof {
            assert(items@.take(k + 1) =~= items@.take(k as int).push(items@[k as int]));
        }
        k = k + 1;
    }
    let len: usize = v.len();
    let mut i: usize = pos + removed;
    proof {
        assert(items@.take(items@.len() as int) =~= items@);
    }
    while i < len
        invariant
            len == v@.len(),
            pos + removed <= i <= len,
            result@ == v@.take(pos as int) + items@ + v@.subrange(pos + removed, i as int),
        decreases len - i,
    {
        result.push(v[i]);
        proof {
            assert(v@.subrange(pos + removed, i + 1) =~= v@.subrange(pos + removed, i as int).push(v@[i as int]));
        }
        i = i + 1;
    }
    proof {
        assert(v@.subrange(pos + removed, len as int) =~= v@.skip(pos + removed));
    }
    result
}

} // verus!
