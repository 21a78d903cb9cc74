//! Memory manager: computes the validity mask of acceptable native memory
//! types, derives the sub-allocator's configuration from the device's memory
//! tables, and tracks ownership of sub-allocated blocks behind stable integer
//! handles in a slot table.

use vstd::prelude::*;

verus! {

/// Native memory-property bit: allocated on the device.
pub const MEMORY_DEVICE_LOCAL: u32 = 0x1;

/// Native memory-property bit: mappable by the host.
pub const MEMORY_HOST_VISIBLE: u32 = 0x2;

/// Native memory-property bit: host writes need no explicit flush.
pub const MEMORY_HOST_COHERENT: u32 = 0x4;

/// Native memory-property bit: cached on the host.
pub const MEMORY_HOST_CACHED: u32 = 0x8;

/// Native memory-property bit: backed lazily by the driver.
pub const MEMORY_LAZILY_ALLOCATED: u32 = 0x10;

/// The closed set of property bits the allocator understands: device-local,
/// host-visible, host-coherent, host-cached and lazily-allocated. A memory
/// type carrying any other bit is excluded defensively.
pub const KNOWN_MEMORY_FLAGS: u32 = 0x1f;

/// Whether a memory type's property flags are a subset of the known set.
pub open spec fn known_memory_type(flags: u32) -> bool {
    flags & !KNOWN_MEMORY_FLAGS == 0
}

/// Whether bit `i` of `mask` is set.
pub open spec fn mask_bit(mask: u32, i: u32) -> bool {
    (mask >> i) & 1 == 1
}

/// What the validity mask says: bit `i` is set exactly when memory type `i`
/// exists and its flags are a subset of the known set.
pub open spec fn valid_mask_ok(mask: u32, flags: Seq<u32>) -> bool {
    &&& forall|i: int|
        0 <= i < flags.len() ==> (mask_bit(mask, i as u32) <==> known_memory_type(
            #[trigger] flags[i],
        ))
    &&& forall|i: u32| flags.len() <= i < 32 ==> !#[trigger] mask_bit(mask, i)
}

proof fn lemma_zero_mask_empty()
    ensures
        forall|j: u32| j < 32 ==> !mask_bit(0u32, j),
{
    assert(forall|j: u32| j < 32 ==> (0u32 >> j) & 1 == 0) by (bit_vector);
}

proof fn lemma_set_one_bit(m: u32, i: u32, r: u32)
    requires
        i < 32,
        r == m | (1u32 << i),
    ensures
        mask_bit(r, i),
        forall|j: u32| j < 32 && j != i ==> (mask_bit(r, j) <==> mask_bit(m, j)),
{
    assert((r >> i) & 1 == 1) by (bit_vector)
        requires
            i < 32 && r == m | (1u32 << i),
    ;
    assert(forall|j: u32| j < 32 && j != i ==> (r >> j) & 1 == (m >> j) & 1) by (bit_vector)
        requires
            i < 32 && r == m | (1u32 << i),
    ;
}

/// Computes the validity mask from the device's per-type property flags:
/// bit `i` is set exactly when type `i`'s flags are a subset of the known
/// flag set. There are at most 32 native memory types.
pub fn compute_valid_memory_types(type_flags: &Vec<u32>) -> (mask: u32)
    requires
        type_flags@.len() <= 32,
    ensures
        valid_mask_ok(mask, type_flags@),
{
    let mut mask: u32 = 0;
    let mut i: usize = 0;
    proof {
        lemma_zero_mask_empty();
    }
    while i < type_flags.len()
        invariant
            type_flags@.len() <= 32,
            i <= type_flags@.len(),
            forall|j: int|
                0 <= j < i ==> (#[trigger] mask_bit(mask, j as u32) <==> known_memory_type(
                    type_flags@[j],
                )),
            forall|j: u32| i <= j < 32 ==> !#[trigger] mask_bit(mask, j),
        decreases type_flags@.len() - i,
    {
        let flags = type_flags[i];
        if flags & !KNOWN_MEMORY_FLAGS == 0 {
            let ghost m0 = mask;
            mask = mask | (1u32 << (i as u32));
            proof {
                lemma_set_one_bit(m0, i as u32, mask);
            }
        }
        i = i + 1;
    }
    mask
}

/// Device limits the memory manager is parameterized by.
#[derive(Clone, Copy, Debug, PartialEq, Eq, Structural)]
pub struct DeviceLimits {
    pub max_memory_allocation_count: u32,
    pub non_coherent_atom_size: u64,
}

/// One native memory type: its property flags and the heap it draws from.
#[derive(Clone, Copy, Debug, PartialEq, Eq, Structural)]
pub struct MemoryTypeInfo {
    pub property_flags: u32,
    pub heap_index: u32,
}

/// One memory type as the sub-allocator sees it: the flags truncated to the
/// known bits (the sub-allocator's flag type holds exactly those), plus the
/// owning heap.
#[derive(Clone, Copy, Debug, PartialEq, Eq, Structural)]
pub struct AllocatorMemoryType {
    pub props: u8,
    pub heap: u32,
}

/// The configuration handed to the general-purpose sub-allocator.
pub struct AllocatorProperties {
    pub max_memory_allocation_count: u32,
    pub max_memory_allocation_size: u64,
    pub non_coherent_atom_size: u64,
    pub memory_types: Vec<AllocatorMemoryType>,
    pub memory_heaps: Vec<u64>,
    pub buffer_device_address: bool,
}

/// Derives the sub-allocator's configuration from the device's memory-type
/// and heap tables and its limits: per-type flags are truncated to the known
/// bits, heap sizes are copied, the per-allocation size is left unbounded,
/// and device addresses stay off.
pub fn allocator_properties(
    memory_types: &Vec<MemoryTypeInfo>,
    memory_heaps: &Vec<u64>,
    limits: &DeviceLimits,
) -> (p: AllocatorProperties)
    ensures
        p.max_memory_allocation_count == limits.max_memory_allocation_count,
        p.max_memory_allocation_size == u64::MAX,
        p.non_coherent_atom_size == limits.non_coherent_atom_size,
        !p.buffer_device_address,
        p.memory_heaps@ == memory_heaps@,
        p.memory_types@.len() == memory_types@.len(),
        forall|i: int|
            0 <= i < memory_types@.len() ==> (#[trigger] p.memory_types@[i]).heap
                == memory_types@[i].heap_index && p.memory_types@[i].props == memory_types@[i].property_flags
                & KNOWN_MEMORY_FLAGS,
{
    let mut converted: Vec<AllocatorMemoryType> = Vec::new();
    let mut i: usize = 0;
    while i < memory_types.len()
        invariant
            i <= memory_types@.len(),
            converted@.len() == i,
            forall|j: int|
                0 <= j < i ==> (#[trigger] converted@[j]).heap == memory_types@[j].heap_index
                    && converted@[j].props == memory_types@[j].property_flags & KNOWN_MEMORY_FLAGS,
        decreases memory_types@.len() - i,
    {
        let type_flags = memory_types[i].property_flags;
        let masked = type_flags & KNOWN_MEMORY_FLAGS;
        proof {
            assert(type_flags & KNOWN_MEMORY_FLAGS < 256) by (bit_vector);
        }
        converted.push(AllocatorMemoryType { props: masked as u8, heap: memory_types[i].heap_index });
        i = i + 1;
    }
    AllocatorProperties {
        max_memory_allocation_count: limits.max_memory_allocation_count,
        max_memory_allocation_size: u64::MAX,
        non_coherent_atom_size: limits.non_coherent_atom_size,
        memory_types: converted,
        memory_heaps: memory_heaps.clone(),
        buffer_device_address: false,
    }
}

/// A sub-allocated region within one native device-memory allocation,
/// recorded as plain values: the native memory handle and the block's offset
/// and size within it.
#[derive(Clone, Copy, Debug, PartialEq, Eq, Structural)]
pub struct MemoryBlock {
    pub memory: u64,
    pub offset: u64,
    pub size: u64,
}

/// Declares the slot-table type of the `slab` crate to the verifier; its
/// values are opaque and are reached only through the trusted wrappers below.
#[verifier::external_type_specification]
#[verifier::external_body]
#[verifier::reject_recursive_types(T)]
pub struct ExSlab<T>(slab::Slab<T>);

/// What a slot table holds: the map from occupied keys to their blocks.
pub uninterp spec fn slab_blocks(s: slab::Slab<MemoryBlock>) -> Map<usize, MemoryBlock>;

/// Relies on slab::Slab::new. Nothing is claimed of the result here: the
/// constructor below clears the fresh table to put it in a known state.
#[verifier::external_body]
fn slab_new() -> (table: slab::Slab<MemoryBlock>) {
    slab::Slab::new()
}

/// The empty slot-table model.
pub open spec fn no_blocks() -> Map<usize, MemoryBlock> {
    Map::empty()
}

/// Relies on slab::Slab::clear: removes every value from the slab.
#[verifier::external_body]
fn slab_clear(s: &mut slab::Slab<MemoryBlock>)
    ensures
        slab_blocks(*final(s)) == no_blocks(),
{
    s.clear()
}

/// Relies on slab::Slab::insert: stores the value at a vacant key and
/// returns that key; every other slot is untouched. The resident cap keeps
/// the table's backing vector far below the byte bound whose excess would
/// make the growth panic.
#[verifier::external_body]
fn slab_insert(s: &mut slab::Slab<MemoryBlock>, block: MemoryBlock) -> (key: usize)
    requires
        slab_blocks(*old(s)).dom().len() < MAX_RESIDENT_BLOCKS,
    ensures
        !slab_blocks(*old(s)).dom().contains(key),
        slab_blocks(*final(s)) == slab_blocks(*old(s)).insert(key, block),
{
    s.insert(block)
}

/// Relies on slab::Slab::remove: removes and returns the value at an
/// occupied key, leaving that key vacant and every other slot untouched.
/// It panics on a vacant key, which the precondition rules out.
#[verifier::external_body]
fn slab_remove(s: &mut slab::Slab<MemoryBlock>, key: usize) -> (block: MemoryBlock)
    requires
        slab_blocks(*old(s)).dom().contains(key),
    ensures
        block == slab_blocks(*old(s))[key],
        slab_blocks(*final(s)) == slab_blocks(*old(s)).remove(key),
{
    s.remove(key)
}

/// Relies on slab::Slab::get: returns the value exactly at an occupied key.
#[verifier::external_body]
fn slab_get(s: &slab::Slab<MemoryBlock>, key: usize) -> (block: Option<MemoryBlock>)
    ensures
        match block {
            Some(b) => slab_blocks(*s).dom().contains(key) && b == slab_blocks(*s)[key],
            None => !slab_blocks(*s).dom().contains(key),
        },
{
    s.get(key).copied()
}

/// Relies on slab::Slab::contains: true exactly at an occupied key.
#[verifier::external_body]
fn slab_contains(s: &slab::Slab<MemoryBlock>, key: usize) -> (r: bool)
    ensures
        r == slab_blocks(*s).dom().contains(key),
{
    s.contains(key)
}

/// Upper bound on simultaneously resident blocks; far above any real
/// device's allocation count, far below the table's growth limits.
pub const MAX_RESIDENT_BLOCKS: usize = 0x1000_0000;

/// Sub-allocation bookkeeping: the validity mask and the slot table of
/// resident blocks. The actual carving of native memory is the
/// sub-allocator's work on the unverified side; every block it hands out is
/// recorded here and addressed only by its stable handle.
pub struct MemoryManager {
    slab: slab::Slab<MemoryBlock>,
    count: usize,
    valid_ash_memory_types: u32,
}

impl MemoryManager {
    /// The resident blocks, by handle.
    pub closed spec fn blocks(self) -> Map<usize, MemoryBlock> {
        slab_blocks(self.slab)
    }

    /// How many blocks are resident.
    pub closed spec fn resident(self) -> nat {
        self.count as nat
    }

    /// The validity mask: bit `i` set means native memory type `i` may be
    /// used by the sub-allocator.
    pub closed spec fn valid_mask(self) -> u32 {
        self.valid_ash_memory_types
    }

    /// Reads the validity mask.
    pub fn valid_memory_types(&self) -> (mask: u32)
        ensures
            mask == self.valid_mask(),
    {
        self.valid_ash_memory_types
    }

    /// The handle table is finite and the resident count mirrors it.
    pub open spec fn wf(self) -> bool {
        self.blocks().dom().finite() && self.blocks().dom().len() == self.resident()
    }

    /// Builds the manager for a device: empty slot table and the validity
    /// mask computed from the device's memory-type property flags.
    pub fn new(type_flags: &Vec<u32>) -> (m: Self)
        requires
            type_flags@.len() <= 32,
        ensures
            m.wf(),
            m.blocks() == no_blocks(),
            m.resident() == 0,
            valid_mask_ok(m.valid_mask(), type_flags@),
    {
        let mut table = slab_new();
        slab_clear(&mut table);
        let m = MemoryManager {
            slab: table,
            count: 0,
            valid_ash_memory_types: compute_valid_memory_types(type_flags),
        };
        proof {
            assert(m.blocks().dom() =~= Set::<usize>::empty());
        }
        m
    }

    /// Records a block the sub-allocator produced and returns its stable
    /// handle. The handle was not live before the call; every previously
    /// live handle keeps its block.
    pub fn allocate(&mut self, block: MemoryBlock) -> (handle: usize)
        requires
            old(self).wf(),
            old(self).resident() < MAX_RESIDENT_BLOCKS,
        ensures
            final(self).wf(),
            !old(self).blocks().dom().contains(handle),
            final(self).blocks() == old(self).blocks().insert(handle, block),
            final(self).resident() == old(self).resident() + 1,
            final(self).valid_mask() == old(self).valid_mask(),
    {
        let handle = slab_insert(&mut self.slab, block);
        self.count = self.count + 1;
        proof {
            assert(self.blocks().dom() =~= old(self).blocks().dom().insert(handle));
        }
        handle
    }

    /// Releases a live handle and returns its block for the sub-allocator to
    /// reclaim. Freeing an unknown or already freed handle is a programming
    /// error, excluded by the precondition; after the call the handle is no
    /// longer live.
    pub fn free(&mut self, handle: usize) -> (block: MemoryBlock)
        requires
            old(self).wf(),
            old(self).blocks().dom().contains(handle),
        ensures
            final(self).wf(),
            block == old(self).blocks()[handle],
            final(self).blocks() == old(self).blocks().remove(handle),
            !final(self).blocks().dom().contains(handle),
            final(self).resident() == old(self).resident() - 1,
            final(self).valid_mask() == old(self).valid_mask(),
    {
        proof {
            assert(old(self).blocks().dom().len() >= 1) by {
                assert(old(self).blocks().dom().contains(handle));
            }
        }
        let block = slab_remove(&mut self.slab, handle);
        self.count = self.count - 1;
        proof {
            assert(self.blocks().dom() =~= old(self).blocks().dom().remove(handle));
        }
        block
    }

    /// Looks a live handle's block up.
    pub fn get_block(&self, handle: usize) -> (block: MemoryBlock)
        requires
            self.blocks().dom().contains(handle),
        ensures
            block == self.blocks()[handle],
    {
        match slab_get(&self.slab, handle) {
            Some(block) => block,
            None => vstd::pervasive::unreached(),
        }
    }

    /// Whether a handle currently owns a block.
    pub fn is_live(&self, handle: usize) -> (r: bool)
        ensures
            r == self.blocks().dom().contains(handle),
    {
        slab_contains(&self.slab, handle)
    }

    /// How many blocks are currently resident.
    pub fn block_count(&self) -> (n: usize)
        ensures
            n == self.resident(),
    {
        self.count
    }
}

/// Law: freeing invalidates the handle. After a free, the table maps no
/// block to it, so a later `free` or `get_block` on the same handle violates
/// that call's precondition until a new allocation reissues the handle.
pub proof fn lemma_free_invalidates_handle(blocks: Map<usize, MemoryBlock>, handle: usize)
    ensures
        !blocks.remove(handle).dom().contains(handle),
{
}

} // verus!
