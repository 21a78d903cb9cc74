//! Pipeline layouts and the batched descriptor-update template. A set
//! layout's update schema (ordered bindings with declared byte sizes) is
//! compiled once into a table of byte offsets into a flat update buffer;
//! every later bind stages its data at those offsets and applies them with a
//! single templated update instead of one call per binding.

use vstd::prelude::*;

verus! {

/// Sum of the declared sizes of the first `n` bindings.
pub open spec fn size_prefix_sum(sizes: Seq<u32>, n: int) -> int
    decreases n,
{
    if n <= 0 {
        0
    } else {
        size_prefix_sum(sizes, n - 1) + sizes[n - 1]
    }
}

/// The prefix sums of nonnegative sizes grow monotonically.
pub proof fn lemma_prefix_sum_monotone(sizes: Seq<u32>, i: int, j: int)
    requires
        0 <= i <= j,
        j <= sizes.len(),
    ensures
        size_prefix_sum(sizes, i) <= size_prefix_sum(sizes, j),
    decreases j - i,
{
    if i < j {
        lemma_prefix_sum_monotone(sizes, i, j - 1);
    }
}

/// Law: the template's binding ranges tile the update buffer with no gaps,
/// no overlap and no reordering. Binding `i` occupies exactly
/// `[offset_i, offset_i + size_i)`; the next binding starts where it ends,
/// and every later binding starts at or after that end.
pub proof fn lemma_template_ranges(sizes: Seq<u32>, i: int, j: int)
    requires
        0 <= i < j <= sizes.len(),
    ensures
        size_prefix_sum(sizes, i) + sizes[i] == size_prefix_sum(sizes, i + 1),
        size_prefix_sum(sizes, i + 1) <= size_prefix_sum(sizes, j),
{
    lemma_prefix_sum_monotone(sizes, i + 1, j);
}

/// One descriptor-set layout with its compiled batched-update template:
/// `template_offsets[i]` is the byte offset of binding `i`'s data within the
/// flat update buffer, and `template_size` is the buffer's total size. `raw`
/// and `update_template` are the native handles of the set layout and of the
/// native update template built from the same schema.
#[derive(Debug)]
pub struct DescriptorSetLayout {
    pub raw: u64,
    pub update_template: u64,
    pub template_size: u32,
    pub template_offsets: Vec<u32>,
}

impl DescriptorSetLayout {
    /// The compiled table matches the binding sizes it was built from.
    pub open spec fn template_ok(self, binding_sizes: Seq<u32>) -> bool {
        &&& self.template_offsets@.len() == binding_sizes.len()
        &&& forall|i: int|
            0 <= i < binding_sizes.len() ==> #[trigger] self.template_offsets@[i]
                == size_prefix_sum(binding_sizes, i)
        &&& self.template_size == size_prefix_sum(binding_sizes, binding_sizes.len() as int)
    }

    /// Compiles the update template for a schema of ordered bindings with
    /// declared byte sizes: each binding's offset is the sum of the sizes of
    /// all preceding bindings, and the template size is the total. The
    /// native handles are taken as given.
    pub fn new(binding_sizes: &Vec<u32>, raw: u64, update_template: u64) -> (layout: Self)
        requires
            size_prefix_sum(binding_sizes@, binding_sizes@.len() as int) <= u32::MAX,
        ensures
            layout.template_ok(binding_sizes@),
            layout.raw == raw,
            layout.update_template == update_template,
    {
        let mut offsets: Vec<u32> = Vec::new();
        let mut total: u32 = 0;
        let mut i: usize = 0;
        while i < binding_sizes.len()
            invariant
                i <= binding_sizes@.len(),
                offsets@.len() == i,
                total == size_prefix_sum(binding_sizes@, i as int),
                size_prefix_sum(binding_sizes@, binding_sizes@.len() as int) <= u32::MAX,
                forall|k: int|
                    0 <= k < i ==> #[trigger] offsets@[k] == size_prefix_sum(binding_sizes@, k),
            decreases binding_sizes@.len() - i,
        {
            offsets.push(total);
            proof {
                lemma_prefix_sum_monotone(binding_sizes@, i + 1, binding_sizes@.len() as int);
            }
            total = total + binding_sizes[i];
            i = i + 1;
        }
        DescriptorSetLayout { raw, update_template, template_size: total, template_offsets: offsets }
    }
}

/// An ordered sequence of descriptor-set layouts under one native pipeline
/// layout.
#[derive(Debug)]
pub struct PipelineLayout {
    pub raw: u64,
    pub descriptor_set_layouts: Vec<DescriptorSetLayout>,
}

/// A buffer with one binding's bytes staged at `offset`: the addressed
/// range holds the payload, every other byte is unchanged.
pub open spec fn staged(data: Seq<u8>, offset: int, payload: Seq<u8>) -> Seq<u8> {
    Seq::new(
        data.len(),
        |k: int|
            if offset <= k < offset + payload.len() {
                payload[k - offset]
            } else {
                data[k]
            },
    )
}

/// Stages one binding's bytes into the flat update buffer at its template
/// offset. Exactly the addressed range changes; staging at the template's
/// offsets therefore never clobbers another binding's data.
pub fn stage(update_data: &mut Vec<u8>, offset: u32, payload: &Vec<u8>)
    requires
        offset + payload@.len() <= old(update_data)@.len(),
    ensures
        final(update_data)@ == staged(old(update_data)@, offset as int, payload@),
{
    let base = offset as usize;
    let total = update_data.len();
    let mut j: usize = 0;
    while j < payload.len()
        invariant
            j <= payload@.len(),
            base == offset,
            update_data@.len() == total,
            offset + payload@.len() <= total,
            update_data@.len() == old(update_data)@.len(),
            forall|k: int| 0 <= k < j ==> #[trigger] update_data@[offset + k] == payload@[k],
            forall|k: int|
                0 <= k < old(update_data)@.len() && !(offset <= k < offset + j)
                    ==> #[trigger] update_data@[k] == old(update_data)@[k],
        decreases payload@.len() - j,
    {
        update_data.set(base + j, payload[j]);
        j = j + 1;
    }
    proof {
        assert forall|k: int| 0 <= k < update_data@.len() implies update_data@[k] == staged(
            old(update_data)@,
            offset as int,
            payload@,
        )[k] by {
            if offset <= k < offset + payload@.len() {
                assert(update_data@[offset + (k - offset)] == payload@[k - offset]);
            }
        }
        assert(update_data@ =~= staged(old(update_data)@, offset as int, payload@));
    }
}

/// The update buffer after the first `n` bindings are staged, in order, at
/// their template offsets.
pub open spec fn stage_all(
    data: Seq<u8>,
    sizes: Seq<u32>,
    payloads: Seq<Seq<u8>>,
    n: int,
) -> Seq<u8>
    decreases n,
{
    if n <= 0 {
        data
    } else {
        staged(
            stage_all(data, sizes, payloads, n - 1),
            size_prefix_sum(sizes, n - 1),
            payloads[n - 1],
        )
    }
}

proof fn lemma_stage_all_len(data: Seq<u8>, sizes: Seq<u32>, payloads: Seq<Seq<u8>>, n: int)
    ensures
        stage_all(data, sizes, payloads, n).len() == data.len(),
    decreases n,
{
    if n > 0 {
        lemma_stage_all_len(data, sizes, payloads, n - 1);
    }
}

proof fn lemma_stage_all_binding(
    data: Seq<u8>,
    sizes: Seq<u32>,
    payloads: Seq<Seq<u8>>,
    i: int,
    n: int,
)
    requires
        payloads.len() == sizes.len(),
        forall|j: int| 0 <= j < sizes.len() ==> (#[trigger] payloads[j]).len() == sizes[j],
        size_prefix_sum(sizes, sizes.len() as int) <= data.len(),
        0 <= i < n <= sizes.len(),
    ensures
        stage_all(data, sizes, payloads, n).subrange(
            size_prefix_sum(sizes, i),
            size_prefix_sum(sizes, i) + sizes[i],
        ) == payloads[i],
    decreases n,
{
    let off = size_prefix_sum(sizes, i);
    lemma_prefix_sum_monotone(sizes, 0, i);
    lemma_prefix_sum_monotone(sizes, i + 1, sizes.len() as int);
    lemma_stage_all_len(data, sizes, payloads, n - 1);
    if n == i + 1 {
        assert(stage_all(data, sizes, payloads, n).subrange(off, off + sizes[i])
            =~= payloads[i]);
    } else {
        lemma_stage_all_binding(data, sizes, payloads, i, n - 1);
        lemma_prefix_sum_monotone(sizes, i + 1, n - 1);
        assert(stage_all(data, sizes, payloads, n).subrange(off, off + sizes[i])
            =~= stage_all(data, sizes, payloads, n - 1).subrange(off, off + sizes[i]));
    }
}

/// Law: the batched update is equivalent to writing every binding
/// individually. After all bindings are staged at the template's offsets,
/// each binding's range of the flat buffer holds exactly that binding's
/// payload, whatever was staged before or after it.
pub proof fn lemma_batched_update_equivalent(
    data: Seq<u8>,
    sizes: Seq<u32>,
    payloads: Seq<Seq<u8>>,
    i: int,
)
    requires
        payloads.len() == sizes.len(),
        forall|j: int| 0 <= j < sizes.len() ==> (#[trigger] payloads[j]).len() == sizes[j],
        size_prefix_sum(sizes, sizes.len() as int) <= data.len(),
        0 <= i < sizes.len(),
    ensures
        stage_all(data, sizes, payloads, sizes.len() as int).subrange(
            size_prefix_sum(sizes, i),
            size_prefix_sum(sizes, i) + sizes[i],
        ) == payloads[i],
{
    lemma_stage_all_binding(data, sizes, payloads, i, sizes.len() as int);
}

/// A compute pipeline: its native handle, its layout, and the workgroup size
/// its shader was compiled with.
#[derive(Debug)]
pub struct ComputePipeline {
    pub raw: u64,
    pub layout: PipelineLayout,
    pub wg_size: [u32; 3],
}

impl ComputePipeline {
    /// Reads the workgroup size the pipeline's shader declared.
    pub fn get_workgroup_size(&self) -> (size: [u32; 3])
        ensures
            size@ == self.wg_size@,
    {
        self.wg_size
    }
}

/// A render pipeline handle.
#[derive(Debug)]
pub struct RenderPipeline {
    pub raw: u64,
}

} // verus!
