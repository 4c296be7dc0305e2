//! Sums over runs of counters.
use vstd::prelude::*;

verus! {

/// The sum of the values of `s`.
pub open spec fn sum_of(s: Seq<int>) -> int
    decreases s.len(),
{
    if s.len() == 0 {
        0
    } else {
        sum_of(s.drop_last()) + s.last()
    }
}

pub open spec fn u32_values(s: Seq<u32>) -> Seq<int> {
    s.map_values(|v: u32| v as int)
}

pub open spec fn u16_values(s: Seq<u16>) -> Seq<int> {
    s.map_values(|v: u16| v as int)
}

proof fn lemma_sum_prefix_u32(s: Seq<u32>, i: int)
    requires
        0 <= i <= s.len(),
    ensures
        sum_of(u32_values(s.take(i))) <= sum_of(u32_values(s)),
    decreases s.len(),
{
    if i < s.len() {
        assert(u32_values(s).drop_last() =~= u32_values(s.drop_last()));
        assert(s.drop_last().take(i) =~= s.take(i));
        lemma_sum_prefix_u32(s.drop_last(), i);
    } else {
        assert(s.take(i) =~= s);
    }
}

/// The sum of `s`, which must fit in a `u32`.
pub fn sum_u32(s: &[u32]) -> (r: u32)
    requires
        sum_of(u32_values(s@)) <= u32::MAX,
    ensures
        r == sum_of(u32_values(s@)),
{
    let mut acc: u32 = 0;
    let mut i: usize = 0;
    while i < s.len()
        invariant
            i <= s@.len(),
            sum_of(u32_values(s@)) <= u32::MAX,
            acc == sum_of(u32_values(s@.take(i as int))),
        decreases s@.len() - i,
    {
        proof {
            assert(u32_values(s@.take(i + 1)).drop_last() =~= u32_values(s@.take(i as int)));
            lemma_sum_prefix_u32(s@, i + 1);
        }
        acc = acc + s[i];
        i = i + 1;
    }
    proof {
        assert(s@.take(i as int) =~= s@);
    }
    acc
}

pub proof fn lemma_sum_u16_bound(s: Seq<u16>)
    ensures
        sum_of(u16_values(s)) <= s.len() * 0xFFFF,
        sum_of(u16_values(s)) >= 0,
    decreases s.len(),
{
    if s.len() > 0 {
        assert(u16_values(s).drop_last() =~= u16_values(s.drop_last()));
        lemma_sum_u16_bound(s.drop_last());
    }
}

/// The sum of `s`, widened to `u32`; at most sixteen values.
pub fn sum_u16(s: &[u16]) -> (r: u32)
    requires
        s@.len() <= 16,
    ensures
        r == sum_of(u16_values(s@)),
{
    let mut acc: u32 = 0;
    let mut i: usize = 0;
    while i < s.len()
        invariant
            i <= s@.len() <= 16,
            acc == sum_of(u16_values(s@.take(i as int))),
        decreases s@.len() - i,
    {
        proof {
            assert(u16_values(s@.take(i + 1)).drop_last() =~= u16_values(s@.take(i as int)));
            lemma_sum_u16_bound(s@.take(i as int));
        }
        acc = acc + s[i] as u32;
        i = i + 1;
    }
    proof {
        assert(s@.take(i as int) =~= s@);
    }
    acc
}

} // verus!
