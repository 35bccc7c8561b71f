use vstd::prelude::*;

verus! {

/// Identifies a swap chain that frames are rendered into.
#[derive(Clone, Copy, Debug, PartialEq, Eq, Hash, Structural)]
pub struct SwapChainId(pub usize);

/// Hands out swap chain ids in increasing order, wrapping at the end of
/// the range.
#[derive(Debug)]
pub struct SwapChainIdGenerator {
    pub next: usize,
}

impl SwapChainIdGenerator {
    /// A generator whose first id is 0.
    pub fn new() -> (g: SwapChainIdGenerator)
        ensures
            g.next == 0,
    {
        SwapChainIdGenerator { next: 0 }
    }
}

impl SwapChainId {
    /// The next id of the generator.
    pub fn new(ids: &mut SwapChainIdGenerator) -> (id: SwapChainId)
        ensures
            id == SwapChainId(old(ids).next),
            final(ids).next == next_after(old(ids).next),
    {
        let id = ids.next;
        ids.next = ids.next.wrapping_add(1);
        SwapChainId(id)
    }
}

/// The id that a generator hands out after `n`.
pub open spec fn next_after(n: usize) -> usize {
    if n < usize::MAX {
        (n + 1) as usize
    } else {
        0
    }
}

/// The ids that `k` calls of `SwapChainId::new` hand out, from a generator
/// whose next id is `start`.
pub open spec fn ids_from(start: usize, k: nat) -> Seq<usize>
    decreases k,
{
    if k == 0 {
        Seq::empty()
    } else {
        seq![start] + ids_from(next_after(start), (k - 1) as nat)
    }
}

/// The ids handed out before the range wraps around are consecutive, so no
/// two of them are the same.
pub proof fn lemma_ids_distinct(start: usize, k: nat)
    requires
        start + k <= usize::MAX + 1,
    ensures
        ids_from(start, k).len() == k,
        forall|i: int| 0 <= i < k ==> #[trigger] ids_from(start, k)[i] == start + i,
        forall|i: int, j: int|
            0 <= i < j < k ==> #[trigger] ids_from(start, k)[i] != #[trigger] ids_from(start, k)[j],
    decreases k,
{
    if k > 0 {
        if k > 1 {
            lemma_ids_distinct(next_after(start), (k - 1) as nat);
        } else {
            assert(ids_from(next_after(start), 0) =~= Seq::<usize>::empty());
        }
        let rest = ids_from(next_after(start), (k - 1) as nat);
        assert forall|i: int| 0 <= i < k implies #[trigger] ids_from(start, k)[i] == start + i by {
            if i > 0 {
                assert(ids_from(start, k)[i] == rest[i - 1]);
            }
        }
    }
}

} // verus!
