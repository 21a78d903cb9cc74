use blade_graphics::command::{descriptor_pool_sizes, DescriptorPoolSize};
use blade_graphics::format::{
    describe_format, map_aspects, map_comparison, map_extent_3d, map_subresource_range,
    CompareFunction, Extent, FormatAspects, TextureFormat, TextureSubresources,
    REMAINING_ARRAY_LAYERS, REMAINING_MIP_LEVELS,
};
use blade_graphics::memory::{
    allocator_properties, compute_valid_memory_types, DeviceLimits, MemoryBlock, MemoryManager,
    MemoryTypeInfo, KNOWN_MEMORY_FLAGS, MEMORY_DEVICE_LOCAL, MEMORY_HOST_CACHED,
    MEMORY_HOST_COHERENT, MEMORY_HOST_VISIBLE, MEMORY_LAZILY_ALLOCATED,
};
use blade_graphics::pipeline::{stage, ComputePipeline, DescriptorSetLayout, PipelineLayout};
use blade_graphics::resource::Buffer;

#[test]
fn format_catalog_entries() {
    let rgba = describe_format(TextureFormat::Rgba8Unorm);
    assert_eq!(rgba.raw, 37);
    assert!(rgba.aspects.color);
    assert!(!rgba.aspects.depth);
    assert!(!rgba.aspects.stencil);
    assert_eq!(rgba.block.bytes, 4);
    assert_eq!(rgba.block.width, 1);
    assert_eq!(rgba.block.height, 1);

    let bgra = describe_format(TextureFormat::Bgra8UnormSrgb);
    assert_eq!(bgra.raw, 50);
    assert!(bgra.aspects.color);
    assert_eq!(bgra.block.bytes, 4);
}

#[test]
fn aspect_masks() {
    assert_eq!(map_aspects(FormatAspects { color: true, depth: false, stencil: false }), 1);
    assert_eq!(map_aspects(FormatAspects { color: false, depth: true, stencil: true }), 6);
    assert_eq!(map_aspects(FormatAspects { color: true, depth: true, stencil: true }), 7);
    assert_eq!(map_aspects(FormatAspects { color: false, depth: false, stencil: false }), 0);
}

#[test]
fn extent_maps_fieldwise() {
    let e = map_extent_3d(&Extent { width: 800, height: 600, depth: 3 });
    assert_eq!((e.width, e.height, e.depth), (800, 600, 3));
}

#[test]
fn subresource_range_uses_remaining_sentinels() {
    let aspects = FormatAspects { color: true, depth: false, stencil: false };
    let all = map_subresource_range(
        &TextureSubresources {
            base_mip_level: 0,
            mip_level_count: None,
            base_array_layer: 0,
            array_layer_count: None,
        },
        aspects,
    );
    assert_eq!(all.aspect_mask, 1);
    assert_eq!(all.level_count, REMAINING_MIP_LEVELS);
    assert_eq!(all.layer_count, REMAINING_ARRAY_LAYERS);
    assert_eq!(REMAINING_MIP_LEVELS, u32::MAX);

    let some = map_subresource_range(
        &TextureSubresources {
            base_mip_level: 2,
            mip_level_count: Some(3),
            base_array_layer: 1,
            array_layer_count: Some(4),
        },
        aspects,
    );
    assert_eq!(some.base_mip_level, 2);
    assert_eq!(some.level_count, 3);
    assert_eq!(some.base_array_layer, 1);
    assert_eq!(some.layer_count, 4);
}

#[test]
fn comparison_codes() {
    assert_eq!(map_comparison(CompareFunction::Never), 0);
    assert_eq!(map_comparison(CompareFunction::Less), 1);
    assert_eq!(map_comparison(CompareFunction::Equal), 2);
    assert_eq!(map_comparison(CompareFunction::LessEqual), 3);
    assert_eq!(map_comparison(CompareFunction::Greater), 4);
    assert_eq!(map_comparison(CompareFunction::NotEqual), 5);
    assert_eq!(map_comparison(CompareFunction::GreaterEqual), 6);
    assert_eq!(map_comparison(CompareFunction::Always), 7);
}

#[test]
fn validity_mask_excludes_unknown_bits() {
    assert_eq!(
        KNOWN_MEMORY_FLAGS,
        MEMORY_DEVICE_LOCAL | MEMORY_HOST_VISIBLE | MEMORY_HOST_COHERENT | MEMORY_HOST_CACHED
            | MEMORY_LAZILY_ALLOCATED
    );
    let flags = vec![
        MEMORY_DEVICE_LOCAL,
        MEMORY_HOST_VISIBLE | MEMORY_HOST_COHERENT,
        KNOWN_MEMORY_FLAGS,
        0x20,
        0x27,
        0x80,
        MEMORY_HOST_VISIBLE | MEMORY_HOST_COHERENT | MEMORY_HOST_CACHED | MEMORY_DEVICE_LOCAL,
    ];
    let mask = compute_valid_memory_types(&flags);
    assert_eq!(mask, 0b1000111);
    assert_eq!(compute_valid_memory_types(&vec![]), 0);
}

#[test]
fn validity_mask_over_assorted_bitsets() {
    // A deterministic pseudo-random sweep over property-flag bitsets.
    let mut state = 0x2545_f491u32;
    for _ in 0..64 {
        let mut flags = Vec::new();
        for _ in 0..32 {
            state = state.wrapping_mul(1664525).wrapping_add(1013904223);
            flags.push(state >> 16);
        }
        let mask = compute_valid_memory_types(&flags);
        for (i, &f) in flags.iter().enumerate() {
            let expected = f & !KNOWN_MEMORY_FLAGS == 0;
            assert_eq!((mask >> i) & 1 == 1, expected, "flags {f:#x} at {i}");
        }
    }
}

#[test]
fn allocator_properties_truncate_flags() {
    let types = vec![
        MemoryTypeInfo { property_flags: 0x127, heap_index: 2 },
        MemoryTypeInfo { property_flags: 0x3, heap_index: 0 },
    ];
    let heaps = vec![1 << 30, 1 << 20];
    let limits = DeviceLimits { max_memory_allocation_count: 4096, non_coherent_atom_size: 128 };
    let p = allocator_properties(&types, &heaps, &limits);
    assert_eq!(p.max_memory_allocation_count, 4096);
    assert_eq!(p.max_memory_allocation_size, u64::MAX);
    assert_eq!(p.non_coherent_atom_size, 128);
    assert!(!p.buffer_device_address);
    assert_eq!(p.memory_heaps, vec![1 << 30, 1 << 20]);
    assert_eq!(p.memory_types.len(), 2);
    assert_eq!(p.memory_types[0].props, 0x07);
    assert_eq!(p.memory_types[0].heap, 2);
    assert_eq!(p.memory_types[1].props, 0x03);
    assert_eq!(p.memory_types[1].heap, 0);
}

#[test]
fn block_handles_roundtrip_and_reuse() {
    let mut m = MemoryManager::new(&vec![0x1, 0x7]);
    assert_eq!(m.valid_memory_types(), 0b11);
    assert_eq!(m.block_count(), 0);

    let a = m.allocate(MemoryBlock { memory: 11, offset: 0, size: 256 });
    let b = m.allocate(MemoryBlock { memory: 11, offset: 256, size: 128 });
    assert_ne!(a, b);
    assert_eq!(m.block_count(), 2);
    assert!(m.is_live(a));
    assert!(m.is_live(b));
    assert_eq!(m.get_block(a).size, 256);
    assert_eq!(m.get_block(b).offset, 256);

    let freed = m.free(a);
    assert_eq!(freed.memory, 11);
    assert_eq!(freed.size, 256);
    assert!(!m.is_live(a));
    assert!(m.is_live(b));
    assert_eq!(m.block_count(), 1);

    // The slot table may reuse a freed handle; the next insert takes the
    // vacant slot that the free left behind.
    let c = m.allocate(MemoryBlock { memory: 12, offset: 512, size: 64 });
    assert_eq!(c, a);
    assert_eq!(m.get_block(c).memory, 12);
    assert_eq!(m.get_block(b).memory, 11);
}

#[test]
fn template_offsets_are_prefix_sums() {
    let layout = DescriptorSetLayout::new(&vec![16, 4, 8], 5, 6);
    assert_eq!(layout.template_offsets, vec![0, 16, 20]);
    assert_eq!(layout.template_size, 28);
    assert_eq!(layout.raw, 5);
    assert_eq!(layout.update_template, 6);

    let empty = DescriptorSetLayout::new(&vec![], 1, 2);
    assert!(empty.template_offsets.is_empty());
    assert_eq!(empty.template_size, 0);

    let single = DescriptorSetLayout::new(&vec![256], 1, 2);
    assert_eq!(single.template_offsets, vec![0]);
    assert_eq!(single.template_size, 256);
}

#[test]
fn staging_writes_only_the_addressed_range() {
    let sizes = vec![4, 2, 3];
    let layout = DescriptorSetLayout::new(&sizes, 0, 0);
    let mut update_data = vec![0u8; layout.template_size as usize];
    stage(&mut update_data, layout.template_offsets[0], &vec![1, 2, 3, 4]);
    stage(&mut update_data, layout.template_offsets[2], &vec![7, 8, 9]);
    stage(&mut update_data, layout.template_offsets[1], &vec![5, 6]);
    assert_eq!(update_data, vec![1, 2, 3, 4, 5, 6, 7, 8, 9]);
}

#[test]
fn descriptor_pool_sizing_table() {
    let sizes = descriptor_pool_sizes();
    assert_eq!(
        sizes,
        vec![
            DescriptorPoolSize { ty: 1_000_138_000, descriptor_count: 25_600 },
            DescriptorPoolSize { ty: 7, descriptor_count: 100 },
            DescriptorPoolSize { ty: 2, descriptor_count: 200 },
            DescriptorPoolSize { ty: 0, descriptor_count: 100 },
            DescriptorPoolSize { ty: 3, descriptor_count: 100 },
        ]
    );
}

#[test]
fn resource_handles_carry_their_values() {
    let buffer = Buffer { raw: 77, memory_handle: 4, mapped_data: 0xdead_0000 };
    assert_eq!(buffer.data(), 0xdead_0000);

    let pipeline = ComputePipeline {
        raw: 9,
        layout: PipelineLayout { raw: 8, descriptor_set_layouts: Vec::new() },
        wg_size: [8, 8, 1],
    };
    assert_eq!(pipeline.get_workgroup_size(), [8, 8, 1]);
}
