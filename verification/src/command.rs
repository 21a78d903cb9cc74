//! Command encoding: a pool of command buffers, each paired with its own
//! descriptor pool so that frame-in-flight recording needs no cross-buffer
//! synchronization, plus the fixed descriptor-pool sizing table and the
//! ordered teardown plan an encoder's destruction must follow.

use crate::PLAIN_DATA_SIZE;
use vstd::prelude::*;

verus! {

/// Heuristic capacity of each buffer's descriptor pool, in descriptor sets.
/// A known simplification: pools are sized roughly and oversized pools waste
/// space rather than overflowing.
pub const ROUGH_SET_COUNT: u32 = 100;

/// Native descriptor-type code for samplers.
pub const DESCRIPTOR_TYPE_SAMPLER: u32 = 0;

/// Native descriptor-type code for sampled images.
pub const DESCRIPTOR_TYPE_SAMPLED_IMAGE: u32 = 2;

/// Native descriptor-type code for storage images.
pub const DESCRIPTOR_TYPE_STORAGE_IMAGE: u32 = 3;

/// Native descriptor-type code for storage buffers.
pub const DESCRIPTOR_TYPE_STORAGE_BUFFER: u32 = 7;

/// Native descriptor-type code for inline uniform blocks.
pub const DESCRIPTOR_TYPE_INLINE_UNIFORM_BLOCK: u32 = 1_000_138_000;

/// One entry of the descriptor-pool sizing table.
#[derive(Clone, Copy, Debug, PartialEq, Eq, Structural)]
pub struct DescriptorPoolSize {
    pub ty: u32,
    pub descriptor_count: u32,
}

/// The fixed sizing table every per-buffer descriptor pool is created with.
pub open spec fn spec_descriptor_pool_sizes() -> Seq<DescriptorPoolSize> {
    seq![
        DescriptorPoolSize {
            ty: DESCRIPTOR_TYPE_INLINE_UNIFORM_BLOCK,
            descriptor_count: (ROUGH_SET_COUNT * PLAIN_DATA_SIZE) as u32,
        },
        DescriptorPoolSize {
            ty: DESCRIPTOR_TYPE_STORAGE_BUFFER,
            descriptor_count: ROUGH_SET_COUNT,
        },
        DescriptorPoolSize {
            ty: DESCRIPTOR_TYPE_SAMPLED_IMAGE,
            descriptor_count: (2 * ROUGH_SET_COUNT) as u32,
        },
        DescriptorPoolSize { ty: DESCRIPTOR_TYPE_SAMPLER, descriptor_count: ROUGH_SET_COUNT },
        DescriptorPoolSize {
            ty: DESCRIPTOR_TYPE_STORAGE_IMAGE,
            descriptor_count: ROUGH_SET_COUNT,
        },
    ]
}

/// Builds the descriptor-pool sizing table.
pub fn descriptor_pool_sizes() -> (sizes: Vec<DescriptorPoolSize>)
    ensures
        sizes@ == spec_descriptor_pool_sizes(),
{
    let mut sizes: Vec<DescriptorPoolSize> = Vec::new();
    sizes.push(
        DescriptorPoolSize {
            ty: DESCRIPTOR_TYPE_INLINE_UNIFORM_BLOCK,
            descriptor_count: ROUGH_SET_COUNT * PLAIN_DATA_SIZE,
        },
    );
    sizes.push(
        DescriptorPoolSize { ty: DESCRIPTOR_TYPE_STORAGE_BUFFER, descriptor_count: ROUGH_SET_COUNT },
    );
    sizes.push(
        DescriptorPoolSize {
            ty: DESCRIPTOR_TYPE_SAMPLED_IMAGE,
            descriptor_count: 2 * ROUGH_SET_COUNT,
        },
    );
    sizes.push(DescriptorPoolSize { ty: DESCRIPTOR_TYPE_SAMPLER, descriptor_count: ROUGH_SET_COUNT });
    sizes.push(
        DescriptorPoolSize { ty: DESCRIPTOR_TYPE_STORAGE_IMAGE, descriptor_count: ROUGH_SET_COUNT },
    );
    proof {
        assert(sizes@ =~= spec_descriptor_pool_sizes());
    }
    sizes
}

/// Options for creating a command encoder: how many independent buffers it
/// rotates through, and a debug name applied to each recorded buffer when
/// non-empty.
#[derive(Debug)]
pub struct CommandEncoderDesc {
    pub buffer_count: u32,
    pub name: String,
}

/// Recording state of one command-buffer slot.
#[derive(Clone, Copy, Debug, PartialEq, Eq, Structural)]
pub enum BufferState {
    Ready,
    Recording,
    Finished,
}

/// One command buffer paired with its own descriptor pool.
#[derive(Clone, Copy, Debug, PartialEq, Eq, Structural)]
pub struct CommandBuffer {
    pub raw: u64,
    pub descriptor_pool: u64,
    pub state: BufferState,
}

/// The slot with its recording state replaced.
pub open spec fn with_state(b: CommandBuffer, state: BufferState) -> CommandBuffer {
    CommandBuffer { state, ..b }
}

/// A command encoder: a command pool, its rotation of buffers (each with a
/// private descriptor pool), the scratch buffer that stages inline update
/// data, and the progress value of its last submission.
#[derive(Debug)]
pub struct CommandEncoder {
    pub pool: u64,
    pub buffers: Vec<CommandBuffer>,
    pub next_index: usize,
    pub active: Option<usize>,
    pub update_data: Vec<u8>,
    pub name: String,
    pub last_submit: Option<u64>,
}

impl CommandEncoder {
    /// The index the active recording runs on; meaningful only while one is
    /// open.
    pub open spec fn active_index(self) -> int {
        match self.active {
            Some(i) => i as int,
            None => -1,
        }
    }

    /// Rotation index in range, and an open recording points at a recording
    /// slot.
    pub open spec fn wf(self) -> bool {
        &&& (self.buffers@.len() > 0 ==> self.next_index < self.buffers@.len())
        &&& match self.active {
            Some(i) => i < self.buffers@.len() && self.buffers@[i as int].state is Recording,
            None => true,
        }
    }

    /// Every buffer's descriptor pool is a distinct object.
    pub open spec fn distinct_pools(self) -> bool {
        forall|i: int, j: int|
            #![auto]
            0 <= i < j < self.buffers@.len() ==> self.buffers@[i].descriptor_pool
                != self.buffers@[j].descriptor_pool
    }

    /// How many buffer slots the encoder rotates through.
    pub fn buffer_count(&self) -> (n: usize)
        ensures
            n == self.buffers@.len(),
    {
        self.buffers.len()
    }

    /// Reads slot `index`'s descriptor-pool handle.
    pub fn descriptor_pool(&self, index: usize) -> (pool: u64)
        requires
            index < self.buffers@.len(),
        ensures
            pool == self.buffers@[index as int].descriptor_pool,
    {
        self.buffers[index].descriptor_pool
    }

    /// Reads slot `index`'s recording state.
    pub fn buffer_state(&self, index: usize) -> (state: BufferState)
        requires
            index < self.buffers@.len(),
        ensures
            state == self.buffers@[index as int].state,
    {
        self.buffers[index].state
    }

    /// Begins recording on the next slot in rotation. Only one recording may
    /// be open per encoder at a time; every other slot is untouched, and the
    /// scratch buffer starts empty.
    pub fn start(&mut self)
        requires
            old(self).wf(),
            old(self).buffers@.len() > 0,
            old(self).active is None,
        ensures
            final(self).wf(),
            final(self).active == Some(old(self).next_index),
            final(self).buffers@ == old(self).buffers@.update(
                old(self).next_index as int,
                with_state(old(self).buffers@[old(self).next_index as int], BufferState::Recording),
            ),
            final(self).next_index == (old(self).next_index + 1) % (old(self).buffers@.len() as int),
            final(self).update_data@.len() == 0,
            final(self).pool == old(self).pool,
            final(self).name == old(self).name,
            final(self).last_submit == old(self).last_submit,
    {
        let index = self.next_index;
        let count = self.buffers.len();
        let rotated = (index + 1) % count;
        let mut slot = self.buffers[index];
        slot.state = BufferState::Recording;
        self.buffers.set(index, slot);
        self.next_index = rotated;
        self.active = Some(index);
        self.update_data.clear();
    }

    /// Ends recording on the active buffer and hands its native handle back
    /// for submission; the slot is then finished until reset.
    pub fn finish(&mut self) -> (raw: u64)
        requires
            old(self).wf(),
            old(self).active is Some,
        ensures
            final(self).wf(),
            final(self).active is None,
            raw == old(self).buffers@[old(self).active_index()].raw,
            final(self).buffers@ == old(self).buffers@.update(
                old(self).active_index(),
                with_state(old(self).buffers@[old(self).active_index()], BufferState::Finished),
            ),
            final(self).next_index == old(self).next_index,
            final(self).update_data@ == old(self).update_data@,
            final(self).pool == old(self).pool,
            final(self).name == old(self).name,
            final(self).last_submit == old(self).last_submit,
    {
        let index = match self.active {
            Some(i) => i,
            None => vstd::pervasive::unreached(),
        };
        let mut slot = self.buffers[index];
        slot.state = BufferState::Finished;
        self.buffers.set(index, slot);
        self.active = None;
        slot.raw
    }

    /// Resets one slot back to ready, independently of every other slot. The
    /// active recording, if any, must run on a different slot.
    pub fn reset(&mut self, index: usize)
        requires
            old(self).wf(),
            index < old(self).buffers@.len(),
            match old(self).active {
                Some(i) => i != index,
                None => true,
            },
        ensures
            final(self).wf(),
            final(self).buffers@ == old(self).buffers@.update(
                index as int,
                with_state(old(self).buffers@[index as int], BufferState::Ready),
            ),
            final(self).active == old(self).active,
            final(self).next_index == old(self).next_index,
            final(self).update_data@ == old(self).update_data@,
            final(self).pool == old(self).pool,
            final(self).name == old(self).name,
            final(self).last_submit == old(self).last_submit,
    {
        let mut slot = self.buffers[index];
        slot.state = BufferState::Ready;
        self.buffers.set(index, slot);
    }
}

impl CommandEncoder {
    /// Builds an encoder: one command pool and `buffer_count` buffers, each
    /// paired with its own descriptor pool, with all handles drawn in order
    /// from `first_handle`. Returns the encoder and the next unused handle,
    /// so every issued handle is distinct and nonzero; in particular every
    /// buffer's descriptor pool is a distinct object.
    pub fn create(desc: &CommandEncoderDesc, first_handle: u64) -> (r: (CommandEncoder, u64))
        requires
            first_handle >= 1,
            first_handle + 2 * desc.buffer_count + 1 <= u64::MAX,
        ensures
            r.0.wf(),
            r.0.distinct_pools(),
            r.0.pool == first_handle,
            r.0.buffers@.len() == desc.buffer_count,
            forall|k: int|
                0 <= k < desc.buffer_count ==> (#[trigger] r.0.buffers@[k]).raw == first_handle
                    + 1 + 2 * k && r.0.buffers@[k].descriptor_pool == first_handle + 2 + 2 * k
                    && r.0.buffers@[k].state is Ready,
            r.0.active is None,
            r.0.next_index == 0,
            r.0.update_data@.len() == 0,
            r.0.name == desc.name,
            r.0.last_submit is None,
            r.1 == first_handle + 1 + 2 * desc.buffer_count,
    {
        let pool = first_handle;
        let mut next_handle = first_handle + 1;
        let mut buffers: Vec<CommandBuffer> = Vec::new();
        let mut k: u32 = 0;
        while k < desc.buffer_count
            invariant
                k <= desc.buffer_count,
                buffers@.len() == k,
                first_handle + 2 * desc.buffer_count + 1 <= u64::MAX,
                next_handle == first_handle + 1 + 2 * k,
                forall|j: int|
                    0 <= j < k ==> (#[trigger] buffers@[j]).raw == first_handle + 1 + 2 * j
                        && buffers@[j].descriptor_pool == first_handle + 2 + 2 * j
                        && buffers@[j].state is Ready,
            decreases desc.buffer_count - k,
        {
            let raw = next_handle;
            let descriptor_pool = next_handle + 1;
            next_handle = next_handle + 2;
            buffers.push(CommandBuffer { raw, descriptor_pool, state: BufferState::Ready });
            k = k + 1;
        }
        let encoder = CommandEncoder {
            pool,
            buffers,
            next_index: 0,
            active: None,
            update_data: Vec::new(),
            name: desc.name.clone(),
            last_submit: None,
        };
        (encoder, next_handle)
    }
}

/// One native call of an encoder's teardown, in the order the calls must be
/// made.
#[derive(Clone, Copy, Debug, PartialEq, Eq, Structural)]
pub enum TeardownStep {
    FreeCommandBuffer { pool: u64, buffer: u64 },
    DestroyDescriptorPool { pool: u64 },
    DestroyCommandPool { pool: u64 },
}

/// The `k`-th step of tearing an encoder down: for each buffer in order,
/// free it from the command pool and destroy its descriptor pool; after all
/// buffers, destroy the command pool itself.
pub open spec fn spec_teardown_step(pool: u64, buffers: Seq<CommandBuffer>, k: int) -> TeardownStep {
    if k == 2 * buffers.len() {
        TeardownStep::DestroyCommandPool { pool }
    } else if k % 2 == 0 {
        TeardownStep::FreeCommandBuffer { pool, buffer: buffers[k / 2].raw }
    } else {
        TeardownStep::DestroyDescriptorPool { pool: buffers[k / 2].descriptor_pool }
    }
}

/// Consumes an encoder and lays out its teardown: for each buffer in order,
/// free it from the pool and destroy its descriptor pool; last, destroy the
/// command pool itself. Whether the encoder may be destroyed at all (no
/// in-flight work) is the context's rule.
pub fn teardown_plan(encoder: CommandEncoder) -> (steps: Vec<TeardownStep>)
    ensures
        steps@.len() == 2 * encoder.buffers@.len() + 1,
        forall|s: int|
            0 <= s < steps@.len() ==> #[trigger] steps@[s] == spec_teardown_step(
                encoder.pool,
                encoder.buffers@,
                s,
            ),
{
    let mut steps: Vec<TeardownStep> = Vec::new();
    let mut i: usize = 0;
    while i < encoder.buffers.len()
        invariant
            i <= encoder.buffers@.len(),
            steps@.len() == 2 * i,
            forall|s: int|
                0 <= s < 2 * i ==> #[trigger] steps@[s] == spec_teardown_step(
                    encoder.pool,
                    encoder.buffers@,
                    s,
                ),
        decreases encoder.buffers@.len() - i,
    {
        let slot = encoder.buffers[i];
        steps.push(TeardownStep::FreeCommandBuffer { pool: encoder.pool, buffer: slot.raw });
        steps.push(TeardownStep::DestroyDescriptorPool { pool: slot.descriptor_pool });
        i = i + 1;
    }
    steps.push(TeardownStep::DestroyCommandPool { pool: encoder.pool });
    steps
}

} // verus!
