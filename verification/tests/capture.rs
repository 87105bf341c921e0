use nkcore::capture::{
    created_object, staging_texture_desc, staging_view_desc, CaptureSizes, CreationFailure, ShaderViewDesc,
    StagingTextureDesc,
    initial_frame_pool_size, next_frame_step, pool_size_after_resize, FrameSize, FrameStep, ResizeOutcome,
};

#[test]
fn frame_step_presents_resizes_or_waits() {
    let pool = initial_frame_pool_size();
    assert_eq!(pool, FrameSize::new(1, 1));
    assert_eq!(next_frame_step(pool, None), FrameStep::NoNewFrame);
    assert_eq!(next_frame_step(pool, Some(FrameSize::new(1, 1))), FrameStep::Present(FrameSize::new(1, 1)));
    assert_eq!(next_frame_step(pool, Some(FrameSize::new(800, 600))), FrameStep::Resize(FrameSize::new(800, 600)));
    assert_eq!(next_frame_step(pool, Some(FrameSize::new(1, 2))), FrameStep::Resize(FrameSize::new(1, 2)));
}

#[test]
fn resize_updates_size_only_on_success() {
    let old = FrameSize::new(1, 1);
    let new = FrameSize::new(640, 480);
    assert_eq!(pool_size_after_resize(old, new, ResizeOutcome::Resized), new);
    assert_eq!(pool_size_after_resize(old, new, ResizeOutcome::PoolRecreationFailed), old);
    assert_eq!(pool_size_after_resize(old, new, ResizeOutcome::StagingTextureFailed), old);
    let after = pool_size_after_resize(old, new, ResizeOutcome::Resized);
    assert_eq!(next_frame_step(after, Some(new)), FrameStep::Present(new));
    let failed = pool_size_after_resize(old, new, ResizeOutcome::StagingTextureFailed);
    assert_eq!(next_frame_step(failed, Some(new)), FrameStep::Resize(new));
}

#[test]
fn content_size_conversions() {
    let size = FrameSize::from_content_size(1920, 1080);
    assert_eq!(size, FrameSize::new(1920, 1080));
    assert_eq!(size.to_content_size(), (1920, 1080));
    let negative = FrameSize::from_content_size(-1, 0);
    assert_eq!(negative, FrameSize::new(u32::MAX, 0));
    assert_eq!(negative.to_content_size(), (-1, 0));
    assert_eq!(FrameSize::new(0x8000_0000, 5).to_content_size(), (i32::MIN, 5));
}

#[test]
fn capture_sizes_keep_staging_texture_with_pool() {
    let mut sizes = CaptureSizes::new();
    assert_eq!(sizes.frame_pool_size(), FrameSize::new(1, 1));
    assert_eq!(sizes.staging_texture_size(), FrameSize::new(1, 1));
    let new = FrameSize::new(640, 480);
    assert_eq!(sizes.plan_next_frame(Some(new)), FrameStep::Resize(new));
    sizes.record_resize(new, ResizeOutcome::StagingTextureFailed);
    assert_eq!(sizes.frame_pool_size(), FrameSize::new(1, 1));
    assert_eq!(sizes.staging_texture_size(), FrameSize::new(1, 1));
    sizes.record_resize(new, ResizeOutcome::PoolRecreationFailed);
    assert_eq!(sizes.staging_texture_size(), FrameSize::new(1, 1));
    sizes.record_resize(new, ResizeOutcome::Resized);
    assert_eq!(sizes.frame_pool_size(), new);
    assert_eq!(sizes.staging_texture_size(), new);
    assert_eq!(sizes.plan_next_frame(Some(new)), FrameStep::Present(new));
    assert_eq!(sizes.plan_next_frame(None), FrameStep::NoNewFrame);
}

#[test]
fn created_object_requires_output() {
    assert!(matches!(created_object::<u8, u16>(Ok(Some(3))), Ok(3)));
    assert!(matches!(created_object::<u8, u16>(Ok(None)), Err(CreationFailure::NoOutput)));
    assert!(matches!(created_object::<u8, u16>(Err(7)), Err(CreationFailure::Call(7))));
}

#[test]
fn staging_descriptions_fix_every_field() {
    assert_eq!(
        staging_texture_desc(FrameSize::new(1920, 1080)),
        StagingTextureDesc {
            width: 1920,
            height: 1080,
            mip_levels: 1,
            array_size: 1,
            sample_count: 1,
            sample_quality: 0,
            cpu_access_flags: 0,
            misc_flags: 0,
        });
    assert_eq!(staging_view_desc(), ShaderViewDesc { most_detailed_mip: 0, mip_levels: 1 });
}
