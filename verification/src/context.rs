//! Context bootstrap and lifetime: adapter inspection, the initialization
//! decision pipeline, command-encoder creation and teardown, submission and
//! waiting. The native driver calls happen outside; this module decides,
//! from the probed capabilities handed in as plain values, what is created,
//! in what order, and with which parameters, and tracks the resulting state.

use crate::command::{
    teardown_plan, with_state, BufferState, CommandEncoder, CommandEncoderDesc, TeardownStep,
    spec_teardown_step,
};
use crate::memory::{valid_mask_ok, DeviceLimits, MemoryManager, MemoryTypeInfo, no_blocks};
use crate::queue::{event_allowed, queue_step, wait_satisfied, Queue, QueueEvent, SyncPoint};
use crate::{ContextDesc, NotSupportedError, PLAIN_DATA_SIZE};
use vstd::prelude::*;

verus! {

/// The instance-level extensions the bootstrap looks for: the debug-naming
/// extension and the extended-properties-query extension are mandatory; the
/// portability extension marks a translation-layer driver and is enabled
/// opportunistically.
#[derive(Clone, Copy, Debug, PartialEq, Eq, Structural)]
pub enum InstanceExtension {
    DebugUtils,
    GetPhysicalDeviceProperties2,
    PortabilityEnumeration,
}

/// The device-level extensions the logical device is created with.
#[derive(Clone, Copy, Debug, PartialEq, Eq, Structural)]
pub enum DeviceExtension {
    InlineUniformBlock,
    TimelineSemaphore,
    DescriptorUpdateTemplate,
    PortabilitySubset,
}

/// What probing the native entry points and instance reported: whether the
/// entry points loaded, the driver's API version where the versioned query
/// exists, and which of the relevant instance extensions are supported.
pub struct InstanceProbe {
    pub has_entry: bool,
    pub driver_api_version: Option<u32>,
    pub supported_extensions: Vec<InstanceExtension>,
}

/// Whether the instance-level gates pass: entry points present, a versioned
/// driver (the extended-features query mechanism), and both mandatory
/// extensions supported.
pub open spec fn instance_ok(probe: InstanceProbe) -> bool {
    &&& probe.has_entry
    &&& probe.driver_api_version is Some
    &&& probe.supported_extensions@.contains(InstanceExtension::DebugUtils)
    &&& probe.supported_extensions@.contains(InstanceExtension::GetPhysicalDeviceProperties2)
}

/// Whether the portability extension is present (and is then enabled).
pub open spec fn spec_portability(probe: InstanceProbe) -> bool {
    probe.supported_extensions@.contains(InstanceExtension::PortabilityEnumeration)
}

/// Searches the supported-extension list.
pub fn contains_extension(extensions: &Vec<InstanceExtension>, wanted: InstanceExtension) -> (r:
    bool)
    ensures
        r == extensions@.contains(wanted),
{
    let mut i: usize = 0;
    while i < extensions.len()
        invariant
            i <= extensions@.len(),
            forall|k: int| 0 <= k < i ==> extensions@[k] != wanted,
        decreases extensions@.len() - i,
    {
        if extensions[i] == wanted {
            return true;
        }
        i = i + 1;
    }
    false
}

/// What capability inspection reported of one physical device: the inline
/// uniform block properties and feature, the timeline-semaphore feature, the
/// limits the memory manager needs, and the memory tables.
pub struct AdapterProbe {
    pub max_inline_uniform_block_size: u32,
    pub max_descriptor_set_inline_uniform_blocks: u32,
    pub inline_uniform_block_feature: bool,
    pub timeline_semaphore_feature: bool,
    pub limits: DeviceLimits,
    pub memory_types: Vec<MemoryTypeInfo>,
    pub memory_heaps: Vec<u64>,
}

/// The mandatory capability gates: inline/batched descriptor updates with a
/// block size of at least the engine's plain-data size and at least one
/// inline-block slot, the feature flag on, and timeline-style
/// synchronization.
pub open spec fn adapter_passes(a: AdapterProbe) -> bool {
    &&& a.max_inline_uniform_block_size >= PLAIN_DATA_SIZE
    &&& a.max_descriptor_set_inline_uniform_blocks >= 1
    &&& a.inline_uniform_block_feature
    &&& a.timeline_semaphore_feature
}

/// Whether some adapter passes the gates.
pub open spec fn any_passing(adapters: Seq<AdapterProbe>) -> bool {
    exists|i: int| 0 <= i < adapters.len() && adapter_passes(#[trigger] adapters[i])
}

/// Whether `i` is the first adapter, in enumeration order, that passes.
pub open spec fn first_passing(adapters: Seq<AdapterProbe>, i: int) -> bool {
    &&& 0 <= i < adapters.len()
    &&& adapter_passes(adapters[i])
    &&& forall|j: int| 0 <= j < i ==> !adapter_passes(#[trigger] adapters[j])
}

/// The property flags of an adapter's memory types, in table order.
pub open spec fn adapter_type_flags(a: AdapterProbe) -> Seq<u32> {
    Seq::new(a.memory_types@.len(), |i: int| a.memory_types@[i].property_flags)
}

/// Runs the capability gates on one adapter's probe.
pub fn inspect_adapter(probe: &AdapterProbe) -> (passes: bool)
    ensures
        passes == adapter_passes(*probe),
{
    if probe.max_inline_uniform_block_size < PLAIN_DATA_SIZE
        || probe.max_descriptor_set_inline_uniform_blocks == 0
        || !probe.inline_uniform_block_feature {
        return false;
    }
    if !probe.timeline_semaphore_feature {
        return false;
    }
    true
}

/// The device layer's state: the memory manager, the single queue with its
/// timeline object, which adapter was selected and its limits, the flags the
/// bootstrap settled on, and the counter that issues fresh handles (it only
/// grows, so no two handles it issued are equal).
pub struct Context {
    pub memory: MemoryManager,
    pub queue: Queue,
    pub selected_adapter: usize,
    pub limits: DeviceLimits,
    pub portability: bool,
    pub validation: bool,
    pub shader_debug: bool,
    pub next_handle: u64,
}

/// What a freshly initialized context looks like: the first passing adapter
/// selected, its limits taken, the validity mask computed from its memory
/// types, an empty block table, the queue at progress zero with a timeline
/// object at zero, and flags per the creation options.
pub open spec fn context_established(
    ctx: Context,
    desc: ContextDesc,
    probe: InstanceProbe,
    adapters: Seq<AdapterProbe>,
) -> bool {
    &&& ctx.wf()
    &&& first_passing(adapters, ctx.selected_adapter as int)
    &&& ctx.limits == adapters[ctx.selected_adapter as int].limits
    &&& valid_mask_ok(
        ctx.memory.valid_mask(),
        adapter_type_flags(adapters[ctx.selected_adapter as int]),
    )
    &&& ctx.memory.blocks() == no_blocks()
    &&& ctx.queue.last_progress == 0
    &&& ctx.queue.signaled == 0
    &&& ctx.queue.raw != ctx.queue.timeline_semaphore
    &&& ctx.portability == spec_portability(probe)
    &&& ctx.validation == desc.validation
    &&& ctx.shader_debug == desc.validation
    &&& ctx.next_handle == 3
}

impl Context {
    /// The manager and queue invariants hold and the handle counter has left
    /// zero (so zero never names an issued handle).
    pub open spec fn wf(self) -> bool {
        &&& self.memory.wf()
        &&& self.queue.wf()
        &&& self.next_handle >= 1
    }

    /// The initialization decision pipeline. Succeeds exactly when the
    /// instance-level gates pass and some adapter passes capability
    /// inspection; the first passing adapter is selected and the rest are
    /// ignored. Every failure is `NotSupportedError`, and on failure nothing
    /// is created. A native memory-type table never exceeds 32 entries.
    pub fn init(desc: &ContextDesc, probe: &InstanceProbe, adapters: &Vec<AdapterProbe>) -> (r:
        Result<Context, NotSupportedError>)
        requires
            forall|i: int|
                0 <= i < adapters@.len() ==> (#[trigger] adapters@[i]).memory_types@.len() <= 32,
        ensures
            r is Ok <==> instance_ok(*probe) && any_passing(adapters@),
            r matches Ok(ctx) ==> context_established(ctx, *desc, *probe, adapters@),
    {
        if !probe.has_entry {
            return Err(NotSupportedError);
        }
        if probe.driver_api_version.is_none() {
            return Err(NotSupportedError);
        }
        if !contains_extension(&probe.supported_extensions, InstanceExtension::DebugUtils) {
            return Err(NotSupportedError);
        }
        if !contains_extension(
            &probe.supported_extensions,
            InstanceExtension::GetPhysicalDeviceProperties2,
        ) {
            return Err(NotSupportedError);
        }
        let portability = contains_extension(
            &probe.supported_extensions,
            InstanceExtension::PortabilityEnumeration,
        );
        let mut i: usize = 0;
        while i < adapters.len()
            invariant
                i <= adapters@.len(),
                forall|j: int| 0 <= j < i ==> !adapter_passes(#[trigger] adapters@[j]),
                instance_ok(*probe),
                portability == spec_portability(*probe),
                forall|k: int|
                    0 <= k < adapters@.len() ==> (#[trigger] adapters@[k]).memory_types@.len()
                        <= 32,
            decreases adapters@.len() - i,
        {
            if inspect_adapter(&adapters[i]) {
                let selected = &adapters[i];
                let mut type_flags: Vec<u32> = Vec::new();
                let mut t: usize = 0;
                while t < selected.memory_types.len()
                    invariant
                        t <= selected.memory_types@.len(),
                        type_flags@.len() == t,
                        forall|k: int|
                            0 <= k < t ==> #[trigger] type_flags@[k]
                                == selected.memory_types@[k].property_flags,
                    decreases selected.memory_types@.len() - t,
                {
                    type_flags.push(selected.memory_types[t].property_flags);
                    t = t + 1;
                }
                proof {
                    assert(type_flags@ =~= adapter_type_flags(adapters@[i as int]));
                }
                let memory = MemoryManager::new(&type_flags);
                let ctx = Context {
                    memory,
                    queue: Queue { raw: 1, timeline_semaphore: 2, last_progress: 0, signaled: 0 },
                    selected_adapter: i,
                    limits: selected.limits,
                    portability,
                    validation: desc.validation,
                    shader_debug: desc.validation,
                    next_handle: 3,
                };
                return Ok(ctx);
            }
            i = i + 1;
        }
        Err(NotSupportedError)
    }

    /// The instance extensions to enable, in order: the two mandatory ones,
    /// then the portability extension when it was detected.
    pub fn instance_extensions(&self) -> (exts: Vec<InstanceExtension>)
        ensures
            exts@ == spec_instance_extensions(self.portability),
    {
        let mut exts: Vec<InstanceExtension> = Vec::new();
        exts.push(InstanceExtension::DebugUtils);
        exts.push(InstanceExtension::GetPhysicalDeviceProperties2);
        if self.portability {
            exts.push(InstanceExtension::PortabilityEnumeration);
        }
        proof {
            assert(exts@ =~= spec_instance_extensions(self.portability));
        }
        exts
    }

    /// The device extensions to enable, in order: exactly the three required
    /// ones, plus the portability-subset extension when the instance enabled
    /// portability.
    pub fn device_extensions(&self) -> (exts: Vec<DeviceExtension>)
        ensures
            exts@ == spec_device_extensions(self.portability),
    {
        let mut exts: Vec<DeviceExtension> = Vec::new();
        exts.push(DeviceExtension::InlineUniformBlock);
        exts.push(DeviceExtension::TimelineSemaphore);
        exts.push(DeviceExtension::DescriptorUpdateTemplate);
        if self.portability {
            exts.push(DeviceExtension::PortabilitySubset);
        }
        proof {
            assert(exts@ =~= spec_device_extensions(self.portability));
        }
        exts
    }

    /// Creates a command encoder: one command pool and `buffer_count`
    /// buffers, each paired with its own fresh descriptor pool. All issued
    /// handles are distinct and nonzero; in particular every buffer's
    /// descriptor pool is a distinct object.
    pub fn create_command_encoder(&mut self, desc: &CommandEncoderDesc) -> (encoder:
        CommandEncoder)
        requires
            old(self).wf(),
            old(self).next_handle + 2 * desc.buffer_count + 1 <= u64::MAX,
        ensures
            final(self).wf(),
            encoder.wf(),
            encoder.distinct_pools(),
            encoder.pool == old(self).next_handle,
            encoder.buffers@.len() == desc.buffer_count,
            forall|k: int|
                0 <= k < desc.buffer_count ==> (#[trigger] encoder.buffers@[k]).raw == old(
                    self,
                ).next_handle + 1 + 2 * k && encoder.buffers@[k].descriptor_pool == old(
                    self,
                ).next_handle + 2 + 2 * k && encoder.buffers@[k].state is Ready,
            encoder.active is None,
            encoder.next_index == 0,
            encoder.update_data@.len() == 0,
            encoder.name == desc.name,
            encoder.last_submit is None,
            final(self).next_handle == old(self).next_handle + 1 + 2 * desc.buffer_count,
            final(self).memory == old(self).memory,
            final(self).queue == old(self).queue,
            final(self).selected_adapter == old(self).selected_adapter,
            final(self).limits == old(self).limits,
            final(self).portability == old(self).portability,
            final(self).validation == old(self).validation,
            final(self).shader_debug == old(self).shader_debug,
    {
        let (encoder, next_handle) = CommandEncoder::create(desc, self.next_handle);
        self.next_handle = next_handle;
        encoder
    }

    /// Consumes an encoder and returns the ordered teardown plan: for each
    /// buffer, free it from the pool and destroy its descriptor pool; last,
    /// destroy the command pool. The caller must have waited out the
    /// encoder's last submission first: destroying an encoder with in-flight
    /// work is a caller error, excluded by the precondition.
    pub fn destroy_command_encoder(&self, encoder: CommandEncoder) -> (steps: Vec<TeardownStep>)
        requires
            match encoder.last_submit {
                Some(p) => wait_satisfied(self.queue, p as int),
                None => true,
            },
        ensures
            steps@.len() == 2 * encoder.buffers@.len() + 1,
            forall|s: int|
                0 <= s < steps@.len() ==> #[trigger] steps@[s] == spec_teardown_step(
                    encoder.pool,
                    encoder.buffers@,
                    s,
                ),
    {
        teardown_plan(encoder)
    }

    /// Finishes the encoder's active recording and issues the next progress
    /// value: the queue's high-water mark moves up by exactly one and the
    /// returned `SyncPoint` carries it, so submission order and progress
    /// order coincide. The native signal operation targets the timeline
    /// object at that value.
    pub fn submit(&mut self, encoder: &mut CommandEncoder) -> (sp: SyncPoint)
        requires
            old(self).wf(),
            old(encoder).wf(),
            old(encoder).active is Some,
            old(self).queue.last_progress < u64::MAX,
        ensures
            final(self).wf(),
            final(encoder).wf(),
            sp.progress == old(self).queue.last_progress + 1,
            final(self).queue == queue_step(old(self).queue, QueueEvent::Submit),
            event_allowed(old(self).queue, QueueEvent::Submit),
            final(encoder).active is None,
            final(encoder).buffers@ == old(encoder).buffers@.update(
                old(encoder).active_index(),
                with_state(
                    old(encoder).buffers@[old(encoder).active_index()],
                    BufferState::Finished,
                ),
            ),
            final(encoder).last_submit == Some(sp.progress),
            final(encoder).update_data@ == old(encoder).update_data@,
            final(encoder).pool == old(encoder).pool,
            final(encoder).name == old(encoder).name,
            final(encoder).next_index == old(encoder).next_index,
            final(self).memory == old(self).memory,
            final(self).selected_adapter == old(self).selected_adapter,
            final(self).limits == old(self).limits,
            final(self).portability == old(self).portability,
            final(self).validation == old(self).validation,
            final(self).shader_debug == old(self).shader_debug,
            final(self).next_handle == old(self).next_handle,
    {
        encoder.finish();
        let sp = self.queue.issue_progress();
        encoder.last_submit = Some(sp.progress);
        sp
    }

    /// Whether the work up to `sp` has completed: true exactly when the
    /// timeline object has reached the point's progress value. The
    /// millisecond timeout bounds the native blocking wait that refreshes
    /// the timeline value; a timeout is an ordinary `false`, not an error.
    pub fn wait_for(&self, sp: SyncPoint, timeout_ms: u32) -> (done: bool)
        ensures
            done == wait_satisfied(self.queue, sp.progress as int),
            self.wf() && sp.progress > self.queue.last_progress ==> !done,
    {
        self.queue.is_reached(sp)
    }

    /// Records the device side's progress: the timeline object was observed
    /// at `value`. The timeline only moves forward and never past issued
    /// work.
    pub fn signal_progress(&mut self, value: u64)
        requires
            old(self).wf(),
            old(self).queue.signaled <= value,
            value <= old(self).queue.last_progress,
        ensures
            final(self).wf(),
            final(self).queue == queue_step(old(self).queue, (QueueEvent::Signal { value })),
            event_allowed(old(self).queue, (QueueEvent::Signal { value })),
            final(self).memory == old(self).memory,
            final(self).selected_adapter == old(self).selected_adapter,
            final(self).limits == old(self).limits,
            final(self).portability == old(self).portability,
            final(self).validation == old(self).validation,
            final(self).shader_debug == old(self).shader_debug,
            final(self).next_handle == old(self).next_handle,
    {
        self.queue.signal(value);
    }
}

/// The instance-extension list the instance is created with.
pub open spec fn spec_instance_extensions(portability: bool) -> Seq<InstanceExtension> {
    if portability {
        seq![
            InstanceExtension::DebugUtils,
            InstanceExtension::GetPhysicalDeviceProperties2,
            InstanceExtension::PortabilityEnumeration,
        ]
    } else {
        seq![InstanceExtension::DebugUtils, InstanceExtension::GetPhysicalDeviceProperties2]
    }
}

/// The device-extension list the logical device is created with.
pub open spec fn spec_device_extensions(portability: bool) -> Seq<DeviceExtension> {
    if portability {
        seq![
            DeviceExtension::InlineUniformBlock,
            DeviceExtension::TimelineSemaphore,
            DeviceExtension::DescriptorUpdateTemplate,
            DeviceExtension::PortabilitySubset,
        ]
    } else {
        seq![
            DeviceExtension::InlineUniformBlock,
            DeviceExtension::TimelineSemaphore,
            DeviceExtension::DescriptorUpdateTemplate,
        ]
    }
}

} // verus!
