use blade_graphics::command::{BufferState, CommandEncoderDesc, TeardownStep};
use blade_graphics::context::{
    AdapterProbe, Context, DeviceExtension, InstanceExtension, InstanceProbe,
};
use blade_graphics::memory::{DeviceLimits, MemoryTypeInfo};
use blade_graphics::engine::{JointKind, ObjectHandle};
use blade_graphics::queue::{map_timeout, Queue, SyncPoint};
use blade_graphics::ContextDesc;

fn working_probe() -> InstanceProbe {
    InstanceProbe {
        has_entry: true,
        driver_api_version: Some(4202496),
        supported_extensions: vec![
            InstanceExtension::DebugUtils,
            InstanceExtension::GetPhysicalDeviceProperties2,
        ],
    }
}

fn capable_adapter() -> AdapterProbe {
    AdapterProbe {
        max_inline_uniform_block_size: 256,
        max_descriptor_set_inline_uniform_blocks: 4,
        inline_uniform_block_feature: true,
        timeline_semaphore_feature: true,
        limits: DeviceLimits { max_memory_allocation_count: 4096, non_coherent_atom_size: 64 },
        memory_types: vec![
            MemoryTypeInfo { property_flags: 0x1, heap_index: 0 },
            MemoryTypeInfo { property_flags: 0xe, heap_index: 1 },
        ],
        memory_heaps: vec![1 << 30, 1 << 28],
    }
}

fn working_context() -> Context {
    let desc = ContextDesc { validation: false, capture: false };
    Context::init(&desc, &working_probe(), &vec![capable_adapter()]).unwrap()
}

#[test]
fn init_succeeds_on_capable_device() {
    let ctx = working_context();
    assert_eq!(ctx.selected_adapter, 0);
    assert_eq!(ctx.queue.last_progress, 0);
    assert_eq!(ctx.queue.signaled, 0);
    assert!(!ctx.portability);
    assert!(!ctx.validation);
    assert_eq!(ctx.memory.block_count(), 0);
    assert_eq!(ctx.memory.valid_memory_types(), 0b11);
    assert_eq!(ctx.limits.max_memory_allocation_count, 4096);
    assert_eq!(ctx.limits.non_coherent_atom_size, 64);
}

#[test]
fn init_rejects_device_without_batched_descriptor_updates() {
    let desc = ContextDesc { validation: false, capture: false };
    let mut adapter = capable_adapter();
    adapter.inline_uniform_block_feature = false;
    let r = Context::init(&desc, &working_probe(), &vec![adapter]);
    assert!(r.is_err());
}

#[test]
fn init_rejects_small_inline_block_size() {
    let desc = ContextDesc { validation: false, capture: false };
    let mut adapter = capable_adapter();
    adapter.max_inline_uniform_block_size = 128;
    assert!(Context::init(&desc, &working_probe(), &vec![adapter]).is_err());
}

#[test]
fn init_rejects_zero_inline_block_slots() {
    let desc = ContextDesc { validation: false, capture: false };
    let mut adapter = capable_adapter();
    adapter.max_descriptor_set_inline_uniform_blocks = 0;
    assert!(Context::init(&desc, &working_probe(), &vec![adapter]).is_err());
}

#[test]
fn init_rejects_device_without_timeline_semaphores() {
    let desc = ContextDesc { validation: false, capture: false };
    let mut adapter = capable_adapter();
    adapter.timeline_semaphore_feature = false;
    assert!(Context::init(&desc, &working_probe(), &vec![adapter]).is_err());
}

#[test]
fn init_rejects_missing_entry_points() {
    let desc = ContextDesc { validation: false, capture: false };
    let mut probe = working_probe();
    probe.has_entry = false;
    assert!(Context::init(&desc, &probe, &vec![capable_adapter()]).is_err());
}

#[test]
fn init_rejects_unversioned_driver() {
    let desc = ContextDesc { validation: false, capture: false };
    let mut probe = working_probe();
    probe.driver_api_version = None;
    assert!(Context::init(&desc, &probe, &vec![capable_adapter()]).is_err());
}

#[test]
fn init_rejects_missing_mandatory_extension() {
    let desc = ContextDesc { validation: false, capture: false };
    let mut probe = working_probe();
    probe.supported_extensions = vec![InstanceExtension::DebugUtils];
    assert!(Context::init(&desc, &probe, &vec![capable_adapter()]).is_err());
}

#[test]
fn init_rejects_empty_adapter_list() {
    let desc = ContextDesc { validation: false, capture: false };
    assert!(Context::init(&desc, &working_probe(), &vec![]).is_err());
}

#[test]
fn init_selects_first_passing_adapter() {
    let desc = ContextDesc { validation: false, capture: false };
    let mut failing = capable_adapter();
    failing.timeline_semaphore_feature = false;
    let adapters = vec![failing, capable_adapter(), capable_adapter()];
    let ctx = Context::init(&desc, &working_probe(), &adapters).unwrap();
    assert_eq!(ctx.selected_adapter, 1);
}

#[test]
fn init_enables_portability_opportunistically() {
    let desc = ContextDesc { validation: true, capture: false };
    let mut probe = working_probe();
    probe.supported_extensions.push(InstanceExtension::PortabilityEnumeration);
    let ctx = Context::init(&desc, &probe, &vec![capable_adapter()]).unwrap();
    assert!(ctx.portability);
    assert!(ctx.validation);
    assert!(ctx.shader_debug);
    assert_eq!(
        ctx.instance_extensions(),
        vec![
            InstanceExtension::DebugUtils,
            InstanceExtension::GetPhysicalDeviceProperties2,
            InstanceExtension::PortabilityEnumeration,
        ]
    );
    assert_eq!(
        ctx.device_extensions(),
        vec![
            DeviceExtension::InlineUniformBlock,
            DeviceExtension::TimelineSemaphore,
            DeviceExtension::DescriptorUpdateTemplate,
            DeviceExtension::PortabilitySubset,
        ]
    );
}

#[test]
fn device_extensions_without_portability() {
    let ctx = working_context();
    assert_eq!(
        ctx.device_extensions(),
        vec![
            DeviceExtension::InlineUniformBlock,
            DeviceExtension::TimelineSemaphore,
            DeviceExtension::DescriptorUpdateTemplate,
        ]
    );
}

#[test]
fn submission_progress_strictly_increasing() {
    let mut ctx = working_context();
    let desc = CommandEncoderDesc { buffer_count: 2, name: String::new() };
    let mut enc = ctx.create_command_encoder(&desc);
    let mut last = 0u64;
    for _ in 0..5 {
        enc.start();
        let sp = ctx.submit(&mut enc);
        assert!(sp.progress > last);
        last = sp.progress;
        let done = ctx.wait_for(sp, 0);
        assert!(!done);
        ctx.signal_progress(sp.progress);
        assert!(ctx.wait_for(sp, 1000));
        enc.reset(0);
        enc.reset(1);
    }
    assert_eq!(last, 5);
}

#[test]
fn wait_with_zero_timeout_before_signal_then_success() {
    let mut ctx = working_context();
    let desc = CommandEncoderDesc { buffer_count: 1, name: String::from("frame") };
    let mut enc = ctx.create_command_encoder(&desc);
    enc.start();
    let sp = ctx.submit(&mut enc);
    assert_eq!(sp.progress, 1);
    assert!(!ctx.wait_for(sp, 0));
    ctx.signal_progress(1);
    assert!(ctx.wait_for(sp, 1_000));
    assert_eq!(map_timeout(0), 0);
    assert_eq!(map_timeout(1_000), 1_000_000_000);
    assert_eq!(map_timeout(u32::MAX), 4_294_967_295_000_000);
}

#[test]
fn encoder_has_three_distinct_descriptor_pools() {
    let mut ctx = working_context();
    let desc = CommandEncoderDesc { buffer_count: 3, name: String::from("main") };
    let enc = ctx.create_command_encoder(&desc);
    assert_eq!(enc.buffer_count(), 3);
    let p0 = enc.descriptor_pool(0);
    let p1 = enc.descriptor_pool(1);
    let p2 = enc.descriptor_pool(2);
    assert_ne!(p0, p1);
    assert_ne!(p0, p2);
    assert_ne!(p1, p2);
    assert_ne!(p0, 0);
    assert_ne!(p1, 0);
    assert_ne!(p2, 0);
}

#[test]
fn encoder_buffers_reset_independently() {
    let mut ctx = working_context();
    let desc = CommandEncoderDesc { buffer_count: 3, name: String::new() };
    let mut enc = ctx.create_command_encoder(&desc);
    enc.start();
    ctx.submit(&mut enc);
    enc.start();
    ctx.submit(&mut enc);
    enc.start();
    ctx.submit(&mut enc);
    assert_eq!(enc.buffer_state(0), BufferState::Finished);
    assert_eq!(enc.buffer_state(1), BufferState::Finished);
    assert_eq!(enc.buffer_state(2), BufferState::Finished);
    enc.reset(1);
    assert_eq!(enc.buffer_state(0), BufferState::Finished);
    assert_eq!(enc.buffer_state(1), BufferState::Ready);
    assert_eq!(enc.buffer_state(2), BufferState::Finished);
    enc.reset(0);
    enc.reset(2);
    assert_eq!(enc.buffer_state(0), BufferState::Ready);
    assert_eq!(enc.buffer_state(2), BufferState::Ready);
}

#[test]
fn encoder_rotates_buffers_in_order() {
    let mut ctx = working_context();
    let desc = CommandEncoderDesc { buffer_count: 2, name: String::new() };
    let mut enc = ctx.create_command_encoder(&desc);
    enc.start();
    assert_eq!(enc.active, Some(0));
    ctx.submit(&mut enc);
    enc.start();
    assert_eq!(enc.active, Some(1));
    ctx.submit(&mut enc);
    enc.reset(0);
    enc.start();
    assert_eq!(enc.active, Some(0));
}

#[test]
fn teardown_plan_frees_then_destroys_in_order() {
    let mut ctx = working_context();
    let desc = CommandEncoderDesc { buffer_count: 2, name: String::new() };
    let mut enc = ctx.create_command_encoder(&desc);
    enc.start();
    let sp = ctx.submit(&mut enc);
    ctx.signal_progress(sp.progress);
    let pool = enc.pool;
    let raw0 = enc.buffers[0].raw;
    let raw1 = enc.buffers[1].raw;
    let dp0 = enc.buffers[0].descriptor_pool;
    let dp1 = enc.buffers[1].descriptor_pool;
    let steps = ctx.destroy_command_encoder(enc);
    assert_eq!(
        steps,
        vec![
            TeardownStep::FreeCommandBuffer { pool, buffer: raw0 },
            TeardownStep::DestroyDescriptorPool { pool: dp0 },
            TeardownStep::FreeCommandBuffer { pool, buffer: raw1 },
            TeardownStep::DestroyDescriptorPool { pool: dp1 },
            TeardownStep::DestroyCommandPool { pool },
        ]
    );
}

#[test]
fn encoder_scratch_buffer_cleared_on_start() {
    let mut ctx = working_context();
    let desc = CommandEncoderDesc { buffer_count: 1, name: String::new() };
    let mut enc = ctx.create_command_encoder(&desc);
    enc.start();
    assert!(enc.update_data.is_empty());
    enc.update_data.extend_from_slice(&[1, 2, 3]);
    ctx.submit(&mut enc);
    enc.reset(0);
    enc.start();
    assert!(enc.update_data.is_empty());
}

#[test]
fn sync_points_copy_and_compare_by_progress() {
    let early = SyncPoint { progress: 1 };
    let later = SyncPoint { progress: 2 };
    let copy = early;
    assert_eq!(early, copy);
    assert!(early < later);
    assert_ne!(early, later);
}

#[test]
fn engine_handles_are_plain_values() {
    assert_ne!(JointKind::Soft, JointKind::Hard);
    let a = ObjectHandle(0);
    let b = ObjectHandle(1);
    assert!(a < b);
    assert_eq!(a, ObjectHandle(0));
}

#[test]
fn queue_domain_methods_track_progress() {
    let mut q = Queue { raw: 7, timeline_semaphore: 8, last_progress: 0, signaled: 0 };
    let first = q.issue_progress();
    let second = q.issue_progress();
    assert_eq!(first.progress, 1);
    assert_eq!(second.progress, 2);
    assert!(!q.is_reached(first));
    q.signal(1);
    assert!(q.is_reached(first));
    assert!(!q.is_reached(second));
    q.signal(2);
    assert!(q.is_reached(second));
    assert_eq!(q.raw, 7);
    assert_eq!(q.timeline_semaphore, 8);
}
