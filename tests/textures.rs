use egui_winit_ash_integration::pipeline::{
    pipeline_config, CompareOp, Phase, SurfaceConfig, SwapchainState, Teardown,
};
use egui_winit_ash_integration::registry::{
    DescriptorSource, TextureError, TextureRegistry, DESCRIPTOR_POOL_SIZE,
};
use egui_winit_ash_integration::texture::{
    pixel_bytes, CopyRegion, ImageDelta, ImageLayout, StagingBuffer, Texture2D, TextureExtent,
    TextureHandle, UploadStep,
};

fn delta(width: u32, height: u32, offset: Option<(u32, u32)>) -> ImageDelta {
    let n = (width * height) as usize;
    let pixels = (0..n).map(|i| [i as u8, 1, 2, 255]).collect();
    ImageDelta { width, height, pixels, offset }
}

#[test]
fn pixel_bytes_are_texels_in_order() {
    let b = pixel_bytes(&[[1, 2, 3, 4], [5, 6, 7, 8]]);
    assert_eq!(b, vec![1, 2, 3, 4, 5, 6, 7, 8]);
    assert!(pixel_bytes(&[]).is_empty());
}

#[test]
fn texture_create_sizes_staging_to_image() {
    let t = Texture2D::create(4, 3).unwrap();
    assert_eq!(t.extent, TextureExtent { width: 4, height: 3 });
    assert_eq!(t.staging, StagingBuffer { size: 48 });
    assert_eq!(t.layout, ImageLayout::Undefined);
    let big = Texture2D::create(u32::MAX, u32::MAX);
    assert!(big.is_none());
    let wide = Texture2D::create(u32::MAX, 1).unwrap();
    assert_eq!(wide.staging.size, 4 * u32::MAX as u64);
}

#[test]
fn staging_buffer_bounds() {
    let s = StagingBuffer::create(16);
    assert!(s.upload_data(16));
    assert!(!s.upload_data(17));
    let mut short = Texture2D {
        extent: TextureExtent { width: 2, height: 2 },
        staging: StagingBuffer { size: 8 },
        layout: ImageLayout::Undefined,
    };
    assert!(short.upload_data(TextureExtent { width: 2, height: 2 }, (0, 0)).is_none());
    assert_eq!(short.layout, ImageLayout::Undefined);
    assert!(short.upload_data(TextureExtent { width: 2, height: 1 }, (0, 0)).is_some());
}

#[test]
fn full_upload_records_barrier_copy_barrier() {
    let mut t = Texture2D::create(2, 2).unwrap();
    let steps = t.upload_data(TextureExtent { width: 2, height: 2 }, (0, 0)).unwrap();
    assert_eq!(
        steps,
        vec![
            UploadStep::Stage { len: 16 },
            UploadStep::Barrier { from: ImageLayout::Undefined, to: ImageLayout::TransferDstOptimal },
            UploadStep::CopyToImage { region: CopyRegion { x: 0, y: 0, width: 2, height: 2 } },
            UploadStep::Barrier {
                from: ImageLayout::TransferDstOptimal,
                to: ImageLayout::ShaderReadOnlyOptimal
            },
        ]
    );
    assert_eq!(t.layout, ImageLayout::ShaderReadOnlyOptimal);
    let again = t.upload_data(TextureExtent { width: 1, height: 1 }, (1, 1)).unwrap();
    assert_eq!(again[0], UploadStep::Stage { len: 4 });
    assert_eq!(
        again[1],
        UploadStep::Barrier { from: ImageLayout::ShaderReadOnlyOptimal, to: ImageLayout::TransferDstOptimal }
    );
    assert_eq!(again[2], UploadStep::CopyToImage { region: CopyRegion { x: 1, y: 1, width: 1, height: 1 } });
    assert!(t.upload_data(TextureExtent { width: 3, height: 1 }, (0, 0)).is_none());
    assert!(t.upload_data(TextureExtent { width: 1, height: 1 }, (2, 0)).is_none());
    assert!(t.upload_data(TextureExtent { width: 2, height: 1 }, (0, 1)).is_some());
    assert!(t.upload_data(TextureExtent { width: 1, height: 1 }, (u32::MAX, 0)).is_none());
}

#[test]
fn new_texture_allocates_then_released_set_is_reused() {
    let mut reg: TextureRegistry<u32> = TextureRegistry::new();
    let up = reg.prepare_update(1, &delta(2, 2, None)).unwrap();
    assert_eq!(up.descriptor, Some(DescriptorSource::Allocate));
    assert_eq!(up.bytes.len(), 16);
    assert_eq!(&up.bytes[0..8], &[0, 1, 2, 255, 1, 1, 2, 255]);
    assert_eq!(reg.pool_allocations(), 1);
    assert!(reg.insert(1, up.texture, 500, 10).is_none());
    assert_eq!(reg.descriptor_set(TextureHandle::Internal(1)), Some(500));

    assert_eq!(reg.release(TextureHandle::Internal(1)), Some(10));
    assert_eq!(reg.free_set_count(), 1);
    assert_eq!(reg.descriptor_set(TextureHandle::Internal(1)), None);

    let up = reg.prepare_update(2, &delta(1, 1, None)).unwrap();
    assert_eq!(up.descriptor, Some(DescriptorSource::Reused(500)));
    assert_eq!(reg.pool_allocations(), 1);
    assert_eq!(reg.free_set_count(), 0);
}

#[test]
fn register_patch_free_register_reuses_same_set() {
    let mut reg: TextureRegistry<u32> = TextureRegistry::new();
    let up = reg.prepare_update(0, &delta(4, 4, None)).unwrap();
    reg.insert(0, up.texture, 42, 1);
    let patch = reg.prepare_update(0, &delta(2, 2, Some((1, 1)))).unwrap();
    assert_eq!(patch.descriptor, None);
    assert_eq!(patch.texture.extent, TextureExtent { width: 4, height: 4 });
    assert_eq!(
        patch.steps[2],
        UploadStep::CopyToImage { region: CopyRegion { x: 1, y: 1, width: 2, height: 2 } }
    );
    assert_eq!(reg.descriptor_set(TextureHandle::Internal(0)), Some(42));
    assert_eq!(reg.free_set_count(), 0);
    reg.release(TextureHandle::Internal(0));
    assert_eq!(reg.free_set_count(), 1);
    let up = reg.prepare_update(3, &delta(8, 8, None)).unwrap();
    assert_eq!(up.descriptor, Some(DescriptorSource::Reused(42)));
    assert_eq!(reg.free_set_count(), 0);
    assert_eq!(reg.pool_allocations(), 1);
}

#[test]
fn patch_keeps_extent() {
    let mut reg: TextureRegistry<u32> = TextureRegistry::new();
    let up = reg.prepare_update(0, &delta(3, 2, None)).unwrap();
    reg.insert(0, up.texture, 1, 1);
    let patch = reg.prepare_update(0, &delta(3, 2, Some((0, 0)))).unwrap();
    assert_eq!(patch.texture.extent, TextureExtent { width: 3, height: 2 });
    assert_eq!(patch.steps[0], UploadStep::Stage { len: 24 });
    assert_eq!(
        patch.steps[2],
        UploadStep::CopyToImage { region: CopyRegion { x: 0, y: 0, width: 3, height: 2 } }
    );
}

#[test]
fn update_errors() {
    let mut reg: TextureRegistry<u32> = TextureRegistry::new();
    let bad = ImageDelta { width: 2, height: 2, pixels: vec![[0; 4]; 3], offset: None };
    assert_eq!(reg.prepare_update(0, &bad).err(), Some(TextureError::PixelCountMismatch));
    assert_eq!(reg.prepare_update(0, &delta(1, 1, Some((0, 0)))).err(), Some(TextureError::UnknownTexture));
    let up = reg.prepare_update(0, &delta(1, 1, None)).unwrap();
    reg.insert(0, up.texture, 1, 1);
    assert_eq!(reg.prepare_update(0, &delta(2, 2, Some((0, 0)))).err(), Some(TextureError::PatchOutOfBounds));
    assert_eq!(reg.prepare_update(0, &delta(1, 1, Some((1, 0)))).err(), Some(TextureError::PatchOutOfBounds));
    assert_eq!(reg.prepare_update(0, &delta(1, 1, Some((0, 1)))).err(), Some(TextureError::PatchOutOfBounds));
    assert_eq!(reg.pool_allocations(), 1);
}

#[test]
fn pool_runs_out() {
    let mut reg: TextureRegistry<u32> = TextureRegistry::new();
    for _ in 0..DESCRIPTOR_POOL_SIZE {
        assert_eq!(reg.acquire_descriptor_set(), Some(DescriptorSource::Allocate));
    }
    assert_eq!(reg.acquire_descriptor_set(), None);
    assert_eq!(reg.prepare_update(0, &delta(1, 1, None)).err(), Some(TextureError::PoolExhausted));
    assert_eq!(reg.pool_allocations(), DESCRIPTOR_POOL_SIZE);
}

#[test]
fn replacing_a_texture_frees_its_set() {
    let mut reg: TextureRegistry<u32> = TextureRegistry::new();
    let up = reg.prepare_update(0, &delta(1, 1, None)).unwrap();
    reg.insert(0, up.texture, 7, 100);
    let up = reg.prepare_update(0, &delta(2, 2, None)).unwrap();
    assert_eq!(up.descriptor, Some(DescriptorSource::Allocate));
    assert_eq!(reg.insert(0, up.texture, 8, 200), Some(100));
    assert_eq!(reg.free_set_count(), 1);
    assert_eq!(reg.descriptor_set(TextureHandle::Internal(0)), Some(8));
    assert_eq!(reg.resource(TextureHandle::Internal(0)), Some(&200));
}

#[test]
fn external_textures_register_and_unregister() {
    let mut reg: TextureRegistry<u32> = TextureRegistry::new();
    let a = reg.register_external(11, 1).unwrap();
    let b = reg.register_external(12, 2).unwrap();
    assert_eq!(a, TextureHandle::External(0));
    assert_eq!(b, TextureHandle::External(1));
    assert_eq!(reg.descriptor_set(b), Some(12));
    assert_eq!(reg.unregister_external(a), Some(1));
    assert_eq!(reg.descriptor_set(a), None);
    assert_eq!(reg.free_set_count(), 1);
    let up = reg.prepare_update(0, &delta(1, 1, None)).unwrap();
    assert_eq!(up.descriptor, Some(DescriptorSource::Reused(11)));
    reg.insert(0, up.texture, 11, 3);
    assert_eq!(reg.unregister_external(TextureHandle::Internal(0)), None);
    assert_eq!(reg.descriptor_set(TextureHandle::Internal(0)), Some(11));
    assert_eq!(reg.prepare_update(0, &delta(1, 1, Some((0, 0)))).is_ok(), true);
}

#[test]
fn release_all_frees_listed_handles() {
    let mut reg: TextureRegistry<u32> = TextureRegistry::new();
    for id in 0..3u64 {
        let up = reg.prepare_update(id, &delta(1, 1, None)).unwrap();
        reg.insert(id, up.texture, 100 + id, id as u32);
    }
    let freed = reg.release_all(&vec![
        TextureHandle::Internal(2),
        TextureHandle::Internal(9),
        TextureHandle::Internal(0),
    ]);
    assert_eq!(freed, vec![2, 0]);
    assert_eq!(reg.free_set_count(), 2);
    assert_eq!(reg.descriptor_set(TextureHandle::Internal(1)), Some(101));
    let up = reg.prepare_update(5, &delta(1, 1, None)).unwrap();
    assert_eq!(up.descriptor, Some(DescriptorSource::Reused(100)));
}

#[test]
fn pipeline_generations_differ_in_depth_only() {
    let first = pipeline_config(false);
    let rebuilt = pipeline_config(true);
    assert_eq!(first.vertex_stride, 20);
    assert_eq!(first.uv.offset, 8);
    assert_eq!(first.color.offset, 16);
    assert_eq!(first.push_constant_size, 8);
    assert!(!first.depth.test);
    assert!(rebuilt.depth.test && rebuilt.depth.write);
    assert_eq!(rebuilt.depth.compare, CompareOp::LessOrEqual);
    assert_eq!(first.vertex_stride, rebuilt.vertex_stride);
    assert_eq!(first.src_color_blend, rebuilt.src_color_blend);
}

#[test]
fn swapchain_reconfigure_cycle() {
    let surface = SurfaceConfig { width: 800, height: 600, format: 44, image_count: 3 };
    let (mut state, rebuild) = SwapchainState::new(surface);
    assert_eq!(rebuild.generation, 0);
    assert_eq!(state.phase(), Phase::Active { generation: 0 });
    assert!(state.is_current(0));
    assert!(state.can_paint(2));
    assert!(!state.can_paint(3));
    assert_eq!(state.begin_reconfigure(), Some(Teardown { generation: 0, framebuffers: 3 }));
    assert!(!state.can_paint(0));
    assert_eq!(state.begin_reconfigure(), None);
    let bigger = SurfaceConfig { width: 1024, height: 768, format: 50, image_count: 4 };
    let r = state.finish_reconfigure(bigger).unwrap();
    assert_eq!(r.generation, 1);
    assert_eq!(r.config, pipeline_config(true));
    assert_eq!(state.surface(), bigger);
    assert!(!state.is_current(0));
    assert!(state.is_current(1));
    assert_eq!(state.geometry_slots(), 3);
    assert!(!state.can_paint(3));
    assert_eq!(state.finish_reconfigure(bigger), None);
}

#[test]
fn handles_lists_every_registered_texture() {
    let mut reg: TextureRegistry<u32> = TextureRegistry::new();
    assert!(reg.handles().is_empty());
    for id in [3u64, 8] {
        let up = reg.prepare_update(id, &delta(1, 1, None)).unwrap();
        reg.insert(id, up.texture, id, 0);
    }
    let e = reg.register_external(50, 0).unwrap();
    let mut hs = reg.handles();
    hs.sort_by_key(|h| match h {
        TextureHandle::Internal(i) => (0, *i),
        TextureHandle::External(i) => (1, *i),
    });
    assert_eq!(hs, vec![TextureHandle::Internal(3), TextureHandle::Internal(8), e]);
}

#[test]
fn create_upload_free_leaves_nothing_live() {
    let mut reg: TextureRegistry<u32> = TextureRegistry::new();
    let up = reg.prepare_update(4, &delta(3, 5, None)).unwrap();
    assert_eq!(up.texture.staging.size, 60);
    assert_eq!(up.steps[0], UploadStep::Stage { len: 60 });
    assert_eq!(up.texture.layout, ImageLayout::ShaderReadOnlyOptimal);
    reg.insert(4, up.texture, 9, 77);
    assert_eq!(reg.handles(), vec![TextureHandle::Internal(4)]);
    assert_eq!(reg.release(TextureHandle::Internal(4)), Some(77));
    assert!(reg.handles().is_empty());
    assert_eq!(reg.free_set_count(), 1);
    assert_eq!(reg.release(TextureHandle::Internal(4)), None);
    assert_eq!(reg.free_set_count(), 1);
}

#[test]
fn patch_copies_only_its_rectangle() {
    let mut reg: TextureRegistry<u32> = TextureRegistry::new();
    let up = reg.prepare_update(0, &delta(4, 4, None)).unwrap();
    reg.insert(0, up.texture, 1, 1);
    let patch = reg.prepare_update(0, &delta(2, 3, Some((2, 1)))).unwrap();
    assert_eq!(patch.bytes.len(), 24);
    assert_eq!(
        patch.steps,
        vec![
            UploadStep::Stage { len: 24 },
            UploadStep::Barrier {
                from: ImageLayout::ShaderReadOnlyOptimal,
                to: ImageLayout::TransferDstOptimal
            },
            UploadStep::CopyToImage { region: CopyRegion { x: 2, y: 1, width: 2, height: 3 } },
            UploadStep::Barrier {
                from: ImageLayout::TransferDstOptimal,
                to: ImageLayout::ShaderReadOnlyOptimal
            },
        ]
    );
    assert_eq!(patch.texture.extent, TextureExtent { width: 4, height: 4 });
    assert_eq!(reg.prepare_update(0, &delta(2, 3, Some((3, 1)))).err(), Some(TextureError::PatchOutOfBounds));
}
