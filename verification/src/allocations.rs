//! The table of live device and host allocations, keyed by start address, and
//! the lookup that maps any address inside an allocation to its offset.
use std::collections::BTreeMap;
use vstd::prelude::*;

verus! {

broadcast use {vstd::std_specs::btree::group_btree_axioms, vstd::laws_cmp::group_laws_cmp};

/// What is recorded for one allocation: its byte size and the handle of the
/// context it was made in.
#[derive(Clone, Copy, PartialEq, Eq, Structural, Debug)]
pub struct AllocationInfo {
    pub size: usize,
    pub context: usize,
}

/// `k` is the greatest start address that is not above `ptr`.
pub open spec fn is_floor_key(m: Map<usize, AllocationInfo>, ptr: usize, k: usize) -> bool {
    &&& m.dom().contains(k)
    &&& k <= ptr
    &&& forall|k2: usize| #[trigger] m.dom().contains(k2) && k2 <= ptr ==> k2 <= k
}

/// The allocation that starts last at or before `ptr`, if `ptr` lies inside it:
/// the offset of `ptr` from its start and its record.
pub open spec fn allocation_lookup(m: Map<usize, AllocationInfo>, ptr: usize) -> Option<(usize, AllocationInfo)> {
    if exists|k: usize| is_floor_key(m, ptr, k) {
        let k = choose|k: usize| is_floor_key(m, ptr, k);
        if ptr < k + m[k].size {
            Some(((ptr - k) as usize, m[k]))
        } else {
            None
        }
    } else {
        None
    }
}

/// The allocation table, an ordered map from start address to allocation,
/// which gives the "last allocation starting at or before an address" query.
pub struct Allocations {
    pointers: BTreeMap<usize, AllocationInfo>,
}

impl View for Allocations {
    type V = Map<usize, AllocationInfo>;

    closed spec fn view(&self) -> Map<usize, AllocationInfo> {
        self.pointers@
    }
}

/// `BTreeMap::range(..=ptr).next_back()`, the entry copied out: the entry
/// with the greatest key not above `ptr`, if there is one.
#[verifier::external_body]
fn btree_floor_entry(m: &BTreeMap<usize, AllocationInfo>, ptr: usize) -> (r: Option<(usize, AllocationInfo)>)
    ensures
        match r {
            Some((k, info)) => is_floor_key(m@, ptr, k) && info == m@[k],
            None => !exists|k: usize| is_floor_key(m@, ptr, k),
        },
{
    m.range(..=ptr).next_back().map(|(k, info)| (*k, *info))
}

/// Floor keys are unique.
proof fn lemma_floor_unique(m: Map<usize, AllocationInfo>, ptr: usize, k1: usize, k2: usize)
    requires
        is_floor_key(m, ptr, k1),
        is_floor_key(m, ptr, k2),
    ensures
        k1 == k2,
{
    assert(k1 <= k2);
    assert(k2 <= k1);
}

impl Allocations {
    /// An empty table.
    pub fn new() -> (r: Self)
        ensures
            r@ == Map::<usize, AllocationInfo>::empty(),
    {
        Allocations { pointers: BTreeMap::new() }
    }

    /// Records the allocation starting at `ptr`, replacing any record there.
    pub fn insert(&mut self, ptr: usize, size: usize, context: usize)
        ensures
            final(self)@ == old(self)@.insert(ptr, AllocationInfo { size, context }),
    {
        self.pointers.insert(ptr, AllocationInfo { size, context });
    }

    /// Forgets the allocation starting at `ptr`, if any.
    pub fn remove(&mut self, ptr: usize)
        ensures
            final(self)@ == old(self)@.remove(ptr),
    {
        self.pointers.remove(&ptr);
    }

    /// The allocation that holds `ptr`, with the offset of `ptr` into it:
    /// the one starting last at or before `ptr`, if `ptr` lies inside it.
    pub fn get_offset_and_info(&self, ptr: usize) -> (r: Option<(usize, AllocationInfo)>)
        ensures
            r == allocation_lookup(self@, ptr),
    {
        let ghost m = self@;
        match btree_floor_entry(&self.pointers, ptr) {
            None => None,
            Some((start, info)) => {
                proof {
                    let k = choose|k: usize| is_floor_key(m, ptr, k);
                    lemma_floor_unique(m, ptr, k, start);
                }
                if ptr - start < info.size {
                    Some((ptr - start, info))
                } else {
                    None
                }
            },
        }
    }
}

// ---------------------------------------------------------------------------
// Laws
// ---------------------------------------------------------------------------

/// After recording an allocation `[p, p + size)`, every address inside it at
/// which no later-starting allocation begins is found at its offset from `p`.
pub proof fn law_lookup_inside_inserted(m: Map<usize, AllocationInfo>, p: usize, size: usize, context: usize, ptr: usize)
    requires
        p <= ptr,
        ptr < p + size,
        forall|k: usize| #[trigger] m.dom().contains(k) ==> !(p < k && k <= ptr),
    ensures
        allocation_lookup(m.insert(p, AllocationInfo { size, context }), ptr)
            == Some(((ptr - p) as usize, AllocationInfo { size, context })),
{
    let m2 = m.insert(p, AllocationInfo { size, context });
    assert(is_floor_key(m2, ptr, p));
    let k = choose|k: usize| is_floor_key(m2, ptr, k);
    lemma_floor_unique(m2, ptr, k, p);
}

/// The first address past a recorded allocation is not attributed to it, nor
/// to anything else when no other allocation starts in between.
pub proof fn law_lookup_past_end(m: Map<usize, AllocationInfo>, p: usize, size: usize, context: usize)
    requires
        p + size <= usize::MAX,
        forall|k: usize| #[trigger] m.dom().contains(k) ==> !(p < k && k <= p + size),
    ensures
        allocation_lookup(m.insert(p, AllocationInfo { size, context }), (p + size) as usize) is None,
{
    let m2 = m.insert(p, AllocationInfo { size, context });
    let ptr = (p + size) as usize;
    assert(is_floor_key(m2, ptr, p));
    let k = choose|k: usize| is_floor_key(m2, ptr, k);
    lemma_floor_unique(m2, ptr, k, p);
}

/// Once the allocation starting at `p` is removed, no lookup attributes an
/// address to an allocation starting at `p`.
pub proof fn law_removed_start_not_found(m: Map<usize, AllocationInfo>, p: usize, ptr: usize)
    ensures
        allocation_lookup(m.remove(p), ptr) matches Some((offset, _)) ==> ptr - offset != p,
{
    let m2 = m.remove(p);
    if exists|k: usize| is_floor_key(m2, ptr, k) {
        let k = choose|k: usize| is_floor_key(m2, ptr, k);
        assert(k != p);
    }
}

} // verus!
