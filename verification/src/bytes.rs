use vstd::prelude::*;

verus! {

/// A byte vector of length `n`, all zero.
pub fn zero_vec(n: usize) -> (r: Vec<u8>)
    ensures
        r@ == Seq::new(n as nat, |i: int| 0u8),
        r@.len() == n,
{
    let mut mem: Vec<u8> = Vec::new();
    let mut i: usize = 0;
    while i < n
        invariant
            i <= n,
            mem@ =~= Seq::new(i as nat, |j: int| 0u8),
        decreases n - i,
    {
        mem.push(0);
        i += 1;
    }
    assert(mem@ =~= Seq::new(n as nat, |i: int| 0u8));
    mem
}

/// The bytes of `v` from `start` (inclusive) to `end` (exclusive), copied.
pub fn copy_range(v: &Vec<u8>, start: usize, end: usize) -> (r: Vec<u8>)
    requires
        start <= end <= v.len(),
    ensures
        r@ == v@.subrange(start as int, end as int),
{
    let mut out: Vec<u8> = Vec::new();
    let mut i: usize = start;
    while i < end
        invariant
            start <= i <= end <= v.len(),
            out@ =~= v@.subrange(start as int, i as int),
        decreases end - i,
    {
        out.push(v[i]);
        assert(out@ =~= v@.subrange(start as int, i as int + 1));
        i += 1;
    }
    assert(out@ =~= v@.subrange(start as int, end as int));
    out
}

} // verus!
