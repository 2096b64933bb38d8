use renderer::accel::{
    check_build_sizes, pack_24_8, tlas_instance, triangle_geometry, BuildError, BuildSizes,
    DescriptorSets, FrameBinding, IndexType, PendingBlas, StructureLevel,
};
use renderer::data::{Direction, Time, Voxel};
use renderer::memory::find_memory_type;
use renderer::mesh::{
    Indices, InputRate, MeshVertexAttribute, MeshVertexAttributeId, VertexBufferLayout,
    VertexFormat,
};
use renderer::pipeline::{
    parse_spirv, sbt_contents, sbt_layout, sbt_regions, PipelineError, SbtLayout, ShaderError,
};
use renderer::queue::{QueueFamilies, QueueFamilyIndices, QUEUE_GRAPHICS, QUEUE_TRANSFER};
use renderer::swapchain::{
    choose_config, choose_extent, choose_image_count, choose_present_mode, choose_surface_format,
    plan_recreate, unique_queue_families, Extent2D, RecreatePlan, SharingMode, SurfaceCapabilities,
    SurfaceFormat, SwapchainError, SwapchainState, SwapchainSupport, COLOR_SPACE_SRGB_NONLINEAR,
    FORMAT_R8G8B8A8_UNORM, PRESENT_MODE_FIFO, PRESENT_MODE_MAILBOX, UNDEFINED_EXTENT,
};
use renderer::IntoBytes;

fn rgba() -> SurfaceFormat {
    SurfaceFormat { format: FORMAT_R8G8B8A8_UNORM, color_space: COLOR_SPACE_SRGB_NONLINEAR }
}

fn caps(min: u32, max: u32, current: Extent2D) -> SurfaceCapabilities {
    SurfaceCapabilities {
        min_image_count: min,
        max_image_count: max,
        current_extent: current,
        min_image_extent: Extent2D { width: 1, height: 1 },
        max_image_extent: Extent2D { width: 4096, height: 4096 },
    }
}

fn support(present_modes: Vec<i32>) -> SwapchainSupport {
    SwapchainSupport {
        capabilities: caps(2, 8, Extent2D { width: UNDEFINED_EXTENT, height: UNDEFINED_EXTENT }),
        formats: vec![SurfaceFormat { format: 44, color_space: 0 }, rgba()],
        present_modes,
    }
}

#[test]
fn fifo_only_device_gets_fifo_and_one_extra_image() {
    let s = support(vec![PRESENT_MODE_FIFO]);
    let c = choose_config(&s, Extent2D { width: 800, height: 600 }, &vec![0, 0, 0]).unwrap();
    assert_eq!(c.present_mode, PRESENT_MODE_FIFO);
    assert_eq!(c.image_count, 3);
    assert_eq!(c.format, rgba());
    assert_eq!(c.extent, Extent2D { width: 800, height: 600 });
    assert_eq!(c.sharing_mode, SharingMode::Exclusive);
    assert_eq!(c.queue_families, vec![0]);
}

#[test]
fn image_count_is_clamped_to_the_maximum() {
    let e = Extent2D { width: 1, height: 1 };
    assert_eq!(choose_image_count(&caps(3, 3, e)), 3);
    assert_eq!(choose_image_count(&caps(2, 0, e)), 3);
    assert_eq!(choose_image_count(&caps(0, 0, e)), 1);
}

#[test]
fn mailbox_is_preferred_over_fifo() {
    assert_eq!(choose_present_mode(&vec![PRESENT_MODE_FIFO, PRESENT_MODE_MAILBOX]), PRESENT_MODE_MAILBOX);
    assert_eq!(choose_present_mode(&vec![0, 3]), PRESENT_MODE_FIFO);
    assert_eq!(choose_present_mode(&vec![]), PRESENT_MODE_FIFO);
}

#[test]
fn surface_format_must_be_rgba8_srgb() {
    assert_eq!(choose_surface_format(&vec![SurfaceFormat { format: 44, color_space: 0 }]), None);
    assert_eq!(choose_surface_format(&vec![SurfaceFormat { format: 37, color_space: 1 }, rgba()]), Some(rgba()));
    let mut s = support(vec![PRESENT_MODE_FIFO]);
    s.formats = vec![SurfaceFormat { format: 50, color_space: 0 }];
    assert!(matches!(
        choose_config(&s, Extent2D { width: 10, height: 10 }, &vec![0]),
        Err(SwapchainError::NoSuitableFormat)
    ));
}

#[test]
fn extent_follows_surface_or_clamped_window() {
    let fixed = caps(2, 8, Extent2D { width: 640, height: 480 });
    assert_eq!(choose_extent(&fixed, Extent2D { width: 800, height: 600 }), Extent2D { width: 640, height: 480 });
    let free = caps(2, 8, Extent2D { width: UNDEFINED_EXTENT, height: 7 });
    assert_eq!(choose_extent(&free, Extent2D { width: 5000, height: 0 }), Extent2D { width: 4096, height: 1 });
    assert_eq!(choose_extent(&free, Extent2D { width: 1024, height: 768 }), Extent2D { width: 1024, height: 768 });
}

#[test]
fn queue_families_are_deduplicated_in_order() {
    assert_eq!(unique_queue_families(&vec![2, 0, 2, 1, 0]), vec![2, 0, 1]);
    let s = support(vec![PRESENT_MODE_MAILBOX]);
    let c = choose_config(&s, Extent2D { width: 10, height: 10 }, &vec![0, 1, 0]).unwrap();
    assert_eq!(c.sharing_mode, SharingMode::Concurrent);
    assert_eq!(c.queue_families, vec![0, 1]);
    let q = QueueFamilyIndices { graphics_family: 4, present_family: 5 };
    assert_eq!(q.all(), [4, 5]);
    let qs = QueueFamilies { graphics: 1, transfer: 2, present: 3 };
    assert_eq!(qs.indices(), vec![1, 3, 2]);
}

#[test]
fn zero_size_resize_changes_nothing() {
    let s = support(vec![PRESENT_MODE_FIFO]);
    assert!(matches!(plan_recreate(&s, Extent2D { width: 0, height: 0 }, &vec![0]), Ok(RecreatePlan::Unchanged)));
    assert!(matches!(plan_recreate(&s, Extent2D { width: 0, height: 600 }, &vec![0]), Ok(RecreatePlan::Unchanged)));
    assert!(matches!(plan_recreate(&s, Extent2D { width: 800, height: 0 }, &vec![0]), Ok(RecreatePlan::Unchanged)));
}

#[test]
fn resizing_twice_to_one_size_is_idempotent() {
    let s = support(vec![PRESENT_MODE_MAILBOX, PRESENT_MODE_FIFO]);
    let size = Extent2D { width: 1280, height: 720 };
    let c1 = match plan_recreate(&s, size, &vec![0, 0, 1]).unwrap() {
        RecreatePlan::Rebuild(c) => c,
        RecreatePlan::Unchanged => panic!("a resize with area must rebuild"),
    };
    let c2 = match plan_recreate(&s, size, &vec![0, 0, 1]).unwrap() {
        RecreatePlan::Rebuild(c) => c,
        RecreatePlan::Unchanged => panic!("a resize with area must rebuild"),
    };
    assert_eq!(c1.extent, c2.extent);
    assert_eq!(c1.format, c2.format);

    let ubos = vec![100, 101];
    let mut state = SwapchainState::new(&c1, vec![1, 2]);
    let mut sets = DescriptorSets::new(77, &ubos, &vec![1, 2]);
    let retired = state.rebuild(&c1, vec![3, 4], &mut sets, &ubos);
    assert_eq!(retired, vec![1, 2]);
    let retired = state.rebuild(&c2, vec![5, 6], &mut sets, &ubos);
    assert_eq!(retired, vec![3, 4]);
    assert_eq!(state.extent(), size);
    assert_eq!(state.format(), rgba());
    assert_eq!(state.present_mode(), PRESENT_MODE_MAILBOX);
    assert_eq!(state.image_count(), 3);
    for slot in 0..2 {
        let b = sets.binding(slot);
        assert_eq!(b.output_view, state.output_view(slot));
        assert_eq!(b.acceleration_structure, 77);
        assert_eq!(b.uniform_buffer, ubos[slot]);
    }
    assert_eq!(sets.len(), 2);
    assert_eq!(sets.tlas(), 77);
}

#[test]
fn descriptor_binding_is_idempotent() {
    let mut sets = DescriptorSets::new(9, &vec![10, 11], &vec![20, 21]);
    sets.bind(&vec![10, 11], &vec![30, 31]);
    let once = (sets.binding(0), sets.binding(1));
    sets.bind(&vec![10, 11], &vec![30, 31]);
    assert_eq!((sets.binding(0), sets.binding(1)), once);
    assert_eq!(
        sets.binding(1),
        FrameBinding { acceleration_structure: 9, output_view: 31, uniform_buffer: 11 }
    );
}

#[test]
fn build_sizes_must_be_non_zero() {
    assert_eq!(
        check_build_sizes(StructureLevel::BottomLevel, 1024, 256),
        Ok(BuildSizes { structure_size: 1024, scratch_size: 256 })
    );
    assert_eq!(
        check_build_sizes(StructureLevel::BottomLevel, 0, 256),
        Err(BuildError::ZeroBuildSize(StructureLevel::BottomLevel))
    );
    assert_eq!(
        check_build_sizes(StructureLevel::TopLevel, 64, 0),
        Err(BuildError::ZeroBuildSize(StructureLevel::TopLevel))
    );
}

#[test]
fn two_triangle_mesh_geometry() {
    let quad = Indices::U16(vec![0, 1, 2, 0, 2, 3]);
    let g = triangle_geometry(4, 24, &quad).unwrap();
    assert_eq!(g.max_vertex, 3);
    assert_eq!(g.primitive_count, 2);
    assert_eq!(g.vertex_stride, 24);
    assert_eq!(g.index_type, IndexType::Uint16);
    let g = triangle_geometry(3, 12, &Indices::U32(vec![0, 1, 2, 2])).unwrap();
    assert_eq!(g.primitive_count, 1);
    assert_eq!(g.index_type, IndexType::Uint32);
    assert_eq!(triangle_geometry(0, 24, &quad), Err(BuildError::EmptyGeometry));
    assert_eq!(triangle_geometry(4, 24, &Indices::U16(vec![0, 1])), Err(BuildError::EmptyGeometry));
    if usize::MAX as u64 > u32::MAX as u64 {
        let too_many = (u32::MAX as usize) + 2;
        assert_eq!(triangle_geometry(too_many, 24, &quad), Err(BuildError::GeometryTooLarge));
        assert!(triangle_geometry(too_many - 1, 24, &quad).is_ok());
    }
}

#[test]
fn tlas_needs_a_completed_blas() {
    let pending = PendingBlas::submitted(5, 0x1122_3344_5566_7788);
    assert_eq!(pending.handle(), 5);
    let pending = match pending.complete(false) {
        Ok(_) => panic!("a build whose fence has not signaled is not complete"),
        Err(p) => p,
    };
    let blas = pending.complete(true).unwrap();
    assert_eq!(blas.handle(), 5);
    assert_eq!(blas.device_address(), 0x1122_3344_5566_7788);
    let inst = tlas_instance(&blas);
    assert_eq!(inst.blas_address(), 0x1122_3344_5566_7788);
    assert_eq!(inst.custom_index_and_mask(), 0xff00_0000);
    assert_eq!(inst.sbt_offset_and_flags(), 0x0100_0000);
    let bytes = inst.to_bytes();
    assert_eq!(bytes.len(), 64);
    assert_eq!(&bytes[0..4], &1.0f32.to_le_bytes());
    assert_eq!(&bytes[4..16], &[0u8; 12]);
    assert_eq!(&bytes[20..24], &1.0f32.to_le_bytes());
    assert_eq!(&bytes[40..44], &1.0f32.to_le_bytes());
    assert_eq!(&bytes[44..48], &0.0f32.to_le_bytes());
    assert_eq!(&bytes[48..52], &[0, 0, 0, 0xff]);
    assert_eq!(&bytes[52..56], &[0, 0, 0, 1]);
    assert_eq!(&bytes[56..64], &0x1122_3344_5566_7788u64.to_le_bytes());
}

#[test]
fn packing_24_and_8_bits() {
    assert_eq!(pack_24_8(0, 0xff), 0xff00_0000);
    assert_eq!(pack_24_8(0x0123_4567, 0x89), 0x8923_4567);
    assert_eq!(pack_24_8(0x00ff_ffff, 0), 0x00ff_ffff);
}

#[test]
fn shader_binding_table_uses_the_alignment() {
    let layout = sbt_layout(32, 32, 64).unwrap();
    assert_eq!(layout, SbtLayout { handle_size: 32, group_alignment: 64, total_size: 192 });
    assert_eq!(sbt_layout(16, 8, 8).unwrap().group_alignment, 64);
    assert_eq!(sbt_layout(32, 128, 64).unwrap().total_size, 384);
    assert_eq!(sbt_layout(0, 32, 64), Err(PipelineError::ZeroHandleSize));
    assert_eq!(sbt_layout(128, 16, 32), Err(PipelineError::HandleLargerThanSlot));

    let small = sbt_layout(2, 1, 1).unwrap();
    let table = sbt_contents(&small, &vec![1, 2, 3, 4, 5, 6]);
    assert_eq!(table.len(), 192);
    assert_eq!(&table[0..3], &[1, 2, 0]);
    assert_eq!(&table[64..67], &[3, 4, 0]);
    assert_eq!(&table[128..131], &[5, 6, 0]);
    assert!(table[2..64].iter().all(|&b| b == 0));

    let regions = sbt_regions(&layout, 1000).unwrap();
    assert_eq!(regions.raygen.device_address, 1024);
    assert_eq!(regions.miss.device_address, 1088);
    assert_eq!(regions.hit.device_address, 1152);
    assert_eq!(regions.miss.stride, 64);
    assert_eq!(regions.hit.size, 64);
    assert_eq!(sbt_regions(&layout, 4096).unwrap().raygen.device_address, 4096);
    assert!(sbt_regions(&layout, u64::MAX - 100).is_none());
}

#[test]
fn spirv_binaries_are_checked() {
    let module = vec![0x03, 0x02, 0x23, 0x07, 0x00, 0x00, 0x01, 0x00];
    assert_eq!(parse_spirv(&module), Ok(vec![0x0723_0203, 0x0001_0000]));
    assert_eq!(parse_spirv(&vec![0x03, 0x02, 0x23]), Err(ShaderError::SizeNotMultipleOfFour));
    assert_eq!(parse_spirv(&vec![]), Err(ShaderError::BadMagic));
    assert_eq!(parse_spirv(&vec![0x07, 0x23, 0x02, 0x03]), Err(ShaderError::BadMagic));
}

#[test]
fn memory_type_is_the_first_that_fits() {
    let device_local = 0x1;
    let host_visible = 0x2;
    let host_coherent = 0x4;
    let types = vec![host_visible | host_coherent, device_local, device_local | host_visible | host_coherent];
    assert_eq!(find_memory_type(0b111, &types, device_local), Some(1));
    assert_eq!(find_memory_type(0b101, &types, device_local), Some(2));
    assert_eq!(find_memory_type(0b111, &types, host_visible | host_coherent), Some(0));
    assert_eq!(find_memory_type(0b010, &types, host_visible), None);
    assert_eq!(find_memory_type(0, &types, 0), None);
}

#[test]
fn vertex_formats_and_layouts() {
    assert_eq!(VertexFormat::Float32.size(), 4);
    assert_eq!(VertexFormat::Float32x3.size(), 12);
    assert_eq!(VertexFormat::Uint32x4.size(), 16);
    assert_eq!(VertexFormat::Snorm16x2.size(), 4);
    assert_eq!(VertexFormat::Unorm16x4.size(), 8);
    assert_eq!(VertexFormat::Uint8x2.size(), 2);
    let layout = VertexBufferLayout::from_formats(
        InputRate::Vertex,
        &vec![VertexFormat::Float32x3, VertexFormat::Float32x3, VertexFormat::Float32x2],
    );
    assert_eq!(layout.stride, 32);
    assert_eq!(layout.input_rate, InputRate::Vertex);
    let offsets: Vec<u64> = layout.attributes.iter().map(|a| a.offset).collect();
    assert_eq!(offsets, vec![0, 12, 24]);
    let locations: Vec<u32> = layout.attributes.iter().map(|a| a.location).collect();
    assert_eq!(locations, vec![0, 1, 2]);
    let empty = VertexBufferLayout::from_formats(InputRate::Instance, &vec![]);
    assert_eq!(empty.stride, 0);
    assert!(empty.attributes.is_empty());
}

#[test]
fn mesh_attributes_keep_their_identity() {
    let position = MeshVertexAttribute::new("Vertex_Position", 0, VertexFormat::Float32x3);
    assert_eq!(position.name, "Vertex_Position");
    assert_eq!(position.id, MeshVertexAttributeId::new(0));
    assert_eq!(position.format, VertexFormat::Float32x3);
    assert!(MeshVertexAttributeId::new(1) < MeshVertexAttributeId::new(2));
}

#[test]
fn index_data_as_bytes() {
    let i16s = Indices::U16(vec![0, 1, 2, 0x0102]);
    assert_eq!(i16s.len(), 4);
    assert!(!i16s.is_empty());
    let bytes = i16s.to_bytes();
    assert_eq!(bytes.len(), 8);
    assert_eq!(&bytes[6..8], &0x0102u16.to_ne_bytes());
    let i32s = Indices::U32(vec![7, 0x0a0b_0c0d]);
    let bytes = i32s.to_bytes();
    assert_eq!(bytes.len(), 8);
    assert_eq!(&bytes[4..8], &0x0a0b_0c0du32.to_ne_bytes());
    assert!(Indices::U32(vec![]).is_empty());
}

#[test]
fn voxels_directions_and_time() {
    assert!(!Voxel::Air.is_opaque());
    assert!(Voxel::Stone.is_opaque());
    assert!(Voxel::Grass.is_opaque());
    assert_ne!(Direction::Up, Direction::Down);
    let mut t = Time::new(1_000);
    assert_eq!(t.delta(), 0);
    t.update(1_500);
    t.update(2_250);
    assert_eq!(t.delta(), 750);
    assert_eq!(t.elapsed(), 1_250);
}

#[test]
fn queue_families_are_the_first_capable_ones() {
    let compute = 0x2;
    let flags = vec![compute, QUEUE_TRANSFER, QUEUE_GRAPHICS | compute | QUEUE_TRANSFER, QUEUE_GRAPHICS];
    let q = QueueFamilies::select(&flags, &vec![false, false, true, true]).unwrap();
    assert_eq!(q, QueueFamilies { graphics: 2, transfer: 1, present: 2 });
    assert_eq!(QueueFamilies::select(&flags, &vec![false, false, false, false]), None);
    assert_eq!(QueueFamilies::select(&vec![QUEUE_TRANSFER], &vec![true]), None);
    assert_eq!(QueueFamilies::select(&vec![], &vec![]), None);
}
