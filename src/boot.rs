//! Start-of-day zeroing of the uninitialized-data region.

use vstd::prelude::*;

verus! {

/// What the region `[start, end)` of `before` looks like once it is zeroed:
/// every byte inside it is 0, every byte outside it is kept.
pub open spec fn zeroed_range(before: Seq<u8>, start: int, end: int) -> Seq<u8> {
    Seq::new(before.len(), |i: int| if start <= i < end { 0u8 } else { before[i] })
}

/// After zeroing, every byte of `[start, end)` reads 0 and every byte outside
/// it is the byte that was there before.
pub proof fn lemma_zeroed_range(before: Seq<u8>, start: int, end: int)
    requires
        0 <= start <= end <= before.len(),
    ensures
        zeroed_range(before, start, end).len() == before.len(),
        forall|i: int| start <= i < end ==> #[trigger] zeroed_range(before, start, end)[i] == 0,
        forall|i: int|
            0 <= i < before.len() && !(start <= i < end) ==> #[trigger] zeroed_range(before, start, end)[i]
                == before[i],
{
}

/// Writes 0 to every byte of `memory` whose offset lies in `[start, end)`,
/// and to no other byte. `memory` is the window of the address space in which
/// the link step placed the uninitialized-data region.
pub fn clear_bss(memory: &mut [u8], start: usize, end: usize)
    requires
        start <= end <= old(memory)@.len(),
    ensures
        final(memory)@ == zeroed_range(old(memory)@, start as int, end as int),
{
    let mut b: usize = start;
    while b < end
        invariant
            start <= b <= end <= memory@.len(),
            memory@.len() == old(memory)@.len(),
            forall|i: int| 0 <= i < memory@.len() ==> #[trigger] memory@[i] == (if start <= i < b { 0u8 } else { old(memory)@[i] }),
        decreases end - b,
    {
        memory[b] = 0;
        b = b + 1;
    }
    assert(memory@ =~= zeroed_range(old(memory)@, start as int, end as int));
}

} // verus!
