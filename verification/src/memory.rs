//! What a physical device's memory properties report: each heap, its size
//! in MiB, and the memory types that live in it.

use vstd::prelude::*;

verus! {

/// A memory heap: its size in bytes and its flag bits.
#[derive(Debug, Clone, Copy, PartialEq, Eq, Structural)]
pub struct MemoryHeapInfo {
    pub size: u64,
    pub flags: u32,
}

/// A memory type: the heap it lives in and its property flag bits.
#[derive(Debug, Clone, Copy, PartialEq, Eq, Structural)]
pub struct MemoryTypeInfo {
    pub heap_index: u32,
    pub property_flags: u32,
}

/// A memory type as listed under its heap.
#[derive(Debug, Clone, Copy, PartialEq, Eq, Structural)]
pub struct MemoryTypeReport {
    pub index: u32,
    pub property_flags: u32,
}

/// A heap as listed: its index, its size in MiB (of 1,000,000 bytes), its
/// flag bits, and its memory types in increasing index order.
#[derive(Debug, Clone, PartialEq, Eq)]
pub struct MemoryHeapReport {
    pub index: u32,
    pub size_mib: u64,
    pub flags: u32,
    pub memory_types: Vec<MemoryTypeReport>,
}

/// The first `n` memory types of `types` that live in heap `heap`, in
/// index order.
pub open spec fn types_of_heap(types: Seq<MemoryTypeInfo>, n: int, heap: u32) -> Seq<MemoryTypeReport>
    decreases n,
{
    if n <= 0 {
        Seq::empty()
    } else {
        let earlier: Seq<MemoryTypeReport> = types_of_heap(types, n - 1, heap);
        if types[n - 1].heap_index == heap {
            earlier.push(MemoryTypeReport { index: (n - 1) as u32, property_flags: types[n - 1].property_flags })
        } else {
            earlier
        }
    }
}

/// The memory types of heap `heap` among the first `type_count` of `types`.
fn memory_types_of_heap(types: &Vec<MemoryTypeInfo>, type_count: u32, heap: u32) -> (r: Vec<MemoryTypeReport>)
    requires
        type_count <= types.len(),
    ensures
        r@ == types_of_heap(types@, type_count as int, heap),
{
    let mut result: Vec<MemoryTypeReport> = Vec::new();
    let mut type_i: u32 = 0;
    while type_i < type_count
        invariant
            type_count <= types.len(),
            type_i <= type_count,
            result@ == types_of_heap(types@, type_i as int, heap),
        decreases type_count - type_i,
    {
        let mem_type = types[type_i as usize];
        if mem_type.heap_index == heap {
            result.push(MemoryTypeReport { index: type_i, property_flags: mem_type.property_flags });
        }
        type_i = type_i + 1;
    }
    result
}

/// Lists the first `heap_count` heaps of `heaps`, each with the memory types
/// among the first `type_count` of `types` that live in it.
pub fn memory_heap_reports(
    heaps: &Vec<MemoryHeapInfo>,
    heap_count: u32,
    types: &Vec<MemoryTypeInfo>,
    type_count: u32,
) -> (r: Vec<MemoryHeapReport>)
    requires
        heap_count <= heaps.len(),
        type_count <= types.len(),
    ensures
        r.len() == heap_count,
        forall|h: int|
            0 <= h < heap_count ==> {
                &&& #[trigger] r@[h].index == h
                &&& r@[h].size_mib == heaps@[h].size / 1_000_000
                &&& r@[h].flags == heaps@[h].flags
                &&& r@[h].memory_types@ == types_of_heap(types@, type_count as int, h as u32)
            },
{
    let mut reports: Vec<MemoryHeapReport> = Vec::new();
    let mut heap_i: u32 = 0;
    while heap_i < heap_count
        invariant
            heap_count <= heaps.len(),
            type_count <= types.len(),
            heap_i <= heap_count,
            reports.len() == heap_i,
            forall|h: int|
                0 <= h < heap_i ==> {
                    &&& #[trigger] reports@[h].index == h
                    &&& reports@[h].size_mib == heaps@[h].size / 1_000_000
                    &&& reports@[h].flags == heaps@[h].flags
                    &&& reports@[h].memory_types@ == types_of_heap(types@, type_count as int, h as u32)
                },
        decreases heap_count - heap_i,
    {
        let heap = heaps[heap_i as usize];
        let memory_types = memory_types_of_heap(types, type_count, heap_i);
        reports.push(
            MemoryHeapReport {
                index: heap_i,
                size_mib: heap.size / 1_000_000,
                flags: heap.flags,
                memory_types,
            },
        );
        heap_i = heap_i + 1;
    }
    reports
}

} // verus!

verus! {

/// The listing of a heap's memory types holds every memory type among the
/// first `n` that lives in the heap, with its index and flags, and nothing
/// else, in strictly increasing index order.
pub proof fn lemma_types_of_heap(types: Seq<MemoryTypeInfo>, n: int, heap: u32)
    requires
        0 <= n <= types.len(),
        n <= 0x1_0000_0000,
    ensures
        forall|t: int|
            0 <= t < n && #[trigger] types[t].heap_index == heap ==> types_of_heap(
                types,
                n,
                heap,
            ).contains(MemoryTypeReport { index: t as u32, property_flags: types[t].property_flags }),
        forall|k: int|
            0 <= k < types_of_heap(types, n, heap).len() ==> {
                let e = #[trigger] types_of_heap(types, n, heap)[k];
                &&& e.index < n
                &&& types[e.index as int].heap_index == heap
                &&& e.property_flags == types[e.index as int].property_flags
            },
        forall|k: int, l: int|
            0 <= k < l < types_of_heap(types, n, heap).len() ==> #[trigger] types_of_heap(
                types,
                n,
                heap,
            )[k].index < #[trigger] types_of_heap(types, n, heap)[l].index,
    decreases n,
{
    if n > 0 {
        lemma_types_of_heap(types, n - 1, heap);
        let earlier = types_of_heap(types, n - 1, heap);
        let r = types_of_heap(types, n, heap);
        if types[n - 1].heap_index == heap {
            let new = MemoryTypeReport { index: (n - 1) as u32, property_flags: types[n - 1].property_flags };
            assert(r == earlier.push(new));
            assert forall|t: int|
                0 <= t < n && #[trigger] types[t].heap_index == heap implies r.contains(
                MemoryTypeReport { index: t as u32, property_flags: types[t].property_flags },
            ) by {
                if t == n - 1 {
                    assert(r[earlier.len() as int] == new);
                } else {
                    let m = MemoryTypeReport { index: t as u32, property_flags: types[t].property_flags };
                    assert(earlier.contains(m));
                    let k = choose|k: int| 0 <= k < earlier.len() && earlier[k] == m;
                    assert(r[k] == m);
                }
            }
            assert forall|k: int| 0 <= k < r.len() implies {
                let e = #[trigger] r[k];
                &&& e.index < n
                &&& types[e.index as int].heap_index == heap
                &&& e.property_flags == types[e.index as int].property_flags
            } by {
                if k < earlier.len() {
                    assert(r[k] == earlier[k]);
                }
            }
            assert forall|k: int, l: int| 0 <= k < l < r.len() implies #[trigger] r[k].index
                < #[trigger] r[l].index by {
                assert(r[k] == earlier[k]);
                if l < earlier.len() {
                    assert(r[l] == earlier[l]);
                } else {
                    assert(earlier[k].index < n - 1);
                }
            }
        } else {
            assert(r == earlier);
            assert forall|t: int|
                0 <= t < n && #[trigger] types[t].heap_index == heap implies r.contains(
                MemoryTypeReport { index: t as u32, property_flags: types[t].property_flags },
            ) by {
                assert(t != n - 1);
            }
        }
    }
}

} // verus!
