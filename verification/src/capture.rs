//! The frame-pool decisions of a window or display capture session.
//!
//! The frame pool and the staging texture are created at one size. Each time frames are
//! drained from the pool, the newest one is presented when its content has the pool's
//! size; otherwise the pool and the staging texture are recreated at the new size and the
//! outdated frame is dropped.
use vstd::prelude::*;

verus! {

/// The size of the frame pool, of the staging texture and of a presented frame, in pixels.
#[derive(PartialEq, Eq, Structural, Clone, Copy, Debug)]
pub struct FrameSize {
    pub width: u32,
    pub height: u32,
}

impl FrameSize {
    /// Creates a size from its width and height.
    pub fn new(width: u32, height: u32) -> (r: FrameSize)
        ensures
            r == (FrameSize { width, height }),
    {
        FrameSize { width, height }
    }

    /// The size of a frame whose content size the capture API reported as signed 32-bit
    /// integers; each component is reinterpreted as unsigned, as an `as` conversion does.
    pub fn from_content_size(width: i32, height: i32) -> (r: FrameSize)
        ensures
            r.width == width as u32,
            r.height == height as u32,
    {
        FrameSize { width: width as u32, height: height as u32 }
    }

    /// This size as the signed 32-bit components that the capture API takes; each component
    /// is reinterpreted as signed, as an `as` conversion does.
    pub fn to_content_size(&self) -> (r: (i32, i32))
        ensures
            r == (self.width as i32, self.height as i32),
    {
        (self.width as i32, self.height as i32)
    }
}

/// The size at which a capture session creates its frame pool and staging texture.
pub open spec fn initial_pool_size() -> FrameSize {
    FrameSize { width: 1, height: 1 }
}

/// The size at which a capture session first creates its frame pool: one pixel square.
pub fn initial_frame_pool_size() -> (r: FrameSize)
    ensures
        r == initial_pool_size(),
{
    FrameSize { width: 1, height: 1 }
}

/// What to do after draining the frame pool.
#[derive(PartialEq, Eq, Structural, Clone, Copy, Debug)]
pub enum FrameStep {
    /// No frame arrived since the last call: there is nothing to present.
    NoNewFrame,
    /// Copy the newest frame into the staging texture and present it at this size.
    Present(FrameSize),
    /// The content size changed: recreate the frame pool and the staging texture at this
    /// size and present nothing, as the newest frame was captured at the old size.
    Resize(FrameSize),
}

/// The step for the newest drained frame, given the content size it reported.
pub open spec fn frame_step_for(pool_size: FrameSize, newest: Option<FrameSize>) -> FrameStep {
    match newest {
        None => FrameStep::NoNewFrame,
        Some(size) => if size == pool_size { FrameStep::Present(size) } else { FrameStep::Resize(size) },
    }
}

/// Decides what to do with the newest frame drained from a pool of size `pool_size`.
pub fn next_frame_step(pool_size: FrameSize, newest: Option<FrameSize>) -> (r: FrameStep)
    ensures
        r == frame_step_for(pool_size, newest),
{
    match newest {
        None => FrameStep::NoNewFrame,
        Some(size) => if size.width == pool_size.width && size.height == pool_size.height {
            FrameStep::Present(size)
        } else {
            FrameStep::Resize(size)
        },
    }
}

/// How an attempt to resize the frame pool and the staging texture ended.
#[derive(PartialEq, Eq, Structural, Clone, Copy, Debug)]
pub enum ResizeOutcome {
    /// Recreating the frame pool failed.
    PoolRecreationFailed,
    /// The frame pool was recreated but creating the staging texture failed.
    StagingTextureFailed,
    /// Both were recreated at the requested size.
    Resized,
}

/// The pool size recorded after a resize attempt: the requested size only if both the
/// frame pool and the staging texture were recreated, else the recorded size is kept, so
/// that the next drained frame asks for the resize again.
pub fn pool_size_after_resize(recorded: FrameSize, requested: FrameSize, outcome: ResizeOutcome) -> (r: FrameSize)
    ensures
        r == (if outcome == ResizeOutcome::Resized { requested } else { recorded }),
{
    match outcome {
        ResizeOutcome::Resized => requested,
        _ => recorded,
    }
}


/// The sizes a capture session records: the size its frame pool was last successfully
/// recreated at, and the size of its staging texture. The two are always equal: the staging
/// texture is created with the pool, and it is replaced exactly when the recorded pool size
/// changes.
pub struct CaptureSizes {
    pool_size: FrameSize,
    staging_size: FrameSize,
}

impl CaptureSizes {
    /// The recorded frame-pool size.
    pub closed spec fn pool(&self) -> FrameSize {
        self.pool_size
    }

    /// The size of the staging texture.
    pub closed spec fn staging(&self) -> FrameSize {
        self.staging_size
    }

    #[verifier::type_invariant]
    closed spec fn staging_matches_pool(&self) -> bool {
        self.pool_size == self.staging_size
    }

    /// The sizes of a new session: the frame pool and the staging texture are created one
    /// pixel square.
    pub fn new() -> (r: CaptureSizes)
        ensures
            r.pool() == initial_pool_size(),
            r.staging() == initial_pool_size(),
    {
        CaptureSizes { pool_size: initial_frame_pool_size(), staging_size: initial_frame_pool_size() }
    }

    /// The recorded frame-pool size.
    pub fn frame_pool_size(&self) -> (r: FrameSize)
        ensures
            r == self.pool(),
            r == self.staging(),
    {
        proof { use_type_invariant(self); }
        self.pool_size
    }

    /// The size of the staging texture.
    pub fn staging_texture_size(&self) -> (r: FrameSize)
        ensures
            r == self.staging(),
            r == self.pool(),
    {
        proof { use_type_invariant(self); }
        self.staging_size
    }

    /// Decides what to do with the newest drained frame. A presented frame has the size of
    /// both the frame pool and the staging texture it is copied into.
    pub fn plan_next_frame(&self, newest: Option<FrameSize>) -> (r: FrameStep)
        ensures
            r == frame_step_for(self.pool(), newest),
            r matches FrameStep::Present(size) ==> size == self.pool() && size == self.staging(),
    {
        proof { use_type_invariant(self); }
        next_frame_step(self.pool_size, newest)
    }

    /// Records how an attempt to recreate the frame pool and the staging texture at
    /// `requested` ended: both sizes become `requested` only if both were recreated, and
    /// otherwise both stay as they were.
    pub fn record_resize(&mut self, requested: FrameSize, outcome: ResizeOutcome)
        ensures
            final(self).pool() == (if outcome == ResizeOutcome::Resized { requested } else { old(self).pool() }),
            final(self).staging() == final(self).pool(),
    {
        proof { use_type_invariant(&*self); }
        let size = pool_size_after_resize(self.pool_size, requested, outcome);
        *self = CaptureSizes { pool_size: size, staging_size: size };
    }
}


/// The description of a staging texture: one mip level, one array slice, one sample of
/// quality zero, default usage bound as a shader resource, no CPU access and no other flags,
/// in format `B8G8R8A8_UNORM_SRGB`.
#[derive(PartialEq, Eq, Structural, Clone, Copy, Debug)]
pub struct StagingTextureDesc {
    pub width: u32,
    pub height: u32,
    pub mip_levels: u32,
    pub array_size: u32,
    pub sample_count: u32,
    pub sample_quality: u32,
    pub cpu_access_flags: u32,
    pub misc_flags: u32,
}

/// The description of a staging texture of the given size.
pub fn staging_texture_desc(size: FrameSize) -> (r: StagingTextureDesc)
    ensures
        r == (StagingTextureDesc {
            width: size.width,
            height: size.height,
            mip_levels: 1,
            array_size: 1,
            sample_count: 1,
            sample_quality: 0,
            cpu_access_flags: 0,
            misc_flags: 0,
        }),
{
    StagingTextureDesc {
        width: size.width,
        height: size.height,
        mip_levels: 1,
        array_size: 1,
        sample_count: 1,
        sample_quality: 0,
        cpu_access_flags: 0,
        misc_flags: 0,
    }
}

/// The description of the shader resource view of a staging texture: a two-dimensional
/// view of format `B8G8R8A8_UNORM_SRGB` over mip levels `most_detailed_mip ..
/// most_detailed_mip + mip_levels`.
#[derive(PartialEq, Eq, Structural, Clone, Copy, Debug)]
pub struct ShaderViewDesc {
    pub most_detailed_mip: u32,
    pub mip_levels: u32,
}

/// The view description over the single mip level of a staging texture.
pub fn staging_view_desc() -> (r: ShaderViewDesc)
    ensures
        r == (ShaderViewDesc { most_detailed_mip: 0, mip_levels: 1 }),
{
    ShaderViewDesc { most_detailed_mip: 0, mip_levels: 1 }
}

/// Why a creation call that fills an out-parameter gave no object.
pub enum CreationFailure<E> {
    /// The call reported an error.
    Call(E),
    /// The call reported success but left the out-parameter empty.
    NoOutput,
}

/// The object that a creation call left in its out-parameter: an error of the call is
/// passed on, and a success that left no object is a failure of its own.
pub fn created_object<T, E>(result: Result<Option<T>, E>) -> (r: Result<T, CreationFailure<E>>)
    ensures
        match result {
            Ok(Some(object)) => r == Ok::<T, CreationFailure<E>>(object),
            Ok(None) => r == Err::<T, CreationFailure<E>>(CreationFailure::NoOutput),
            Err(e) => r == Err::<T, CreationFailure<E>>(CreationFailure::Call(e)),
        },
{
    match result {
        Ok(Some(object)) => Ok(object),
        Ok(None) => Err(CreationFailure::NoOutput),
        Err(e) => Err(CreationFailure::Call(e)),
    }
}

/// After any sequence of resize attempts from a new session, the recorded pool size (and
/// with it the staging-texture size, which every `CaptureSizes` operation keeps equal to it)
/// is the size of the last successful attempt, or the initial size if none succeeded.
pub proof fn law_pool_size_follows_last_successful_resize(requests: Seq<(FrameSize, ResizeOutcome)>)
    ensures
        pool_after_resizes(initial_pool_size(), requests) == (if exists|i: int|
            0 <= i < requests.len() && (#[trigger] requests[i]).1 == ResizeOutcome::Resized {
            requests[last_successful_resize(requests)].0
        } else {
            initial_pool_size()
        }),
{
    lemma_pool_after_resizes(initial_pool_size(), requests);
}

/// The recorded pool size after a sequence of resize attempts.
pub open spec fn pool_after_resizes(start: FrameSize, requests: Seq<(FrameSize, ResizeOutcome)>) -> FrameSize
    decreases requests.len(),
{
    if requests.len() == 0 {
        start
    } else {
        let (requested, outcome) = requests.last();
        let before = pool_after_resizes(start, requests.drop_last());
        if outcome == ResizeOutcome::Resized { requested } else { before }
    }
}

/// The index of the last successful resize attempt, if there is one.
pub open spec fn last_successful_resize(requests: Seq<(FrameSize, ResizeOutcome)>) -> int
    decreases requests.len(),
{
    if requests.len() == 0 {
        -1
    } else if requests.last().1 == ResizeOutcome::Resized {
        requests.len() - 1
    } else {
        last_successful_resize(requests.drop_last())
    }
}

proof fn lemma_pool_after_resizes(start: FrameSize, requests: Seq<(FrameSize, ResizeOutcome)>)
    ensures
        pool_after_resizes(start, requests) == (if exists|i: int|
            0 <= i < requests.len() && (#[trigger] requests[i]).1 == ResizeOutcome::Resized {
            requests[last_successful_resize(requests)].0
        } else {
            start
        }),
        (exists|i: int| 0 <= i < requests.len() && (#[trigger] requests[i]).1 == ResizeOutcome::Resized)
            ==> 0 <= last_successful_resize(requests) < requests.len(),
    decreases requests.len(),
{
    if requests.len() > 0 {
        let prefix = requests.drop_last();
        lemma_pool_after_resizes(start, prefix);
        if requests.last().1 != ResizeOutcome::Resized {
            if exists|i: int| 0 <= i < requests.len() && (#[trigger] requests[i]).1 == ResizeOutcome::Resized {
                let i = choose|i: int| 0 <= i < requests.len() && (#[trigger] requests[i]).1 == ResizeOutcome::Resized;
                assert(prefix[i].1 == ResizeOutcome::Resized);
            }
            if exists|i: int| 0 <= i < prefix.len() && (#[trigger] prefix[i]).1 == ResizeOutcome::Resized {
                let i = choose|i: int| 0 <= i < prefix.len() && (#[trigger] prefix[i]).1 == ResizeOutcome::Resized;
                assert(requests[i].1 == ResizeOutcome::Resized);
                assert(requests[last_successful_resize(prefix)] == prefix[last_successful_resize(prefix)]);
            }
        } else {
            assert(requests[requests.len() - 1].1 == ResizeOutcome::Resized);
        }
    }
}

/// A resize is asked for exactly when the newest frame's size differs from the recorded
/// pool size, and once the resize succeeds a frame of the new size is presented; a failed
/// resize is asked for again by the next frame of that size.
pub proof fn law_resize_converges(recorded: FrameSize, size: FrameSize, outcome: ResizeOutcome)
    ensures
        frame_step_for(recorded, Some(size)) is Resize <==> size != recorded,
        ({
            let after = if outcome == ResizeOutcome::Resized { size } else { recorded };
            outcome == ResizeOutcome::Resized ==> frame_step_for(after, Some(size)) == FrameStep::Present(size)
        }),
        ({
            let after = if outcome == ResizeOutcome::Resized { size } else { recorded };
            outcome != ResizeOutcome::Resized && size != recorded ==> frame_step_for(after, Some(size)) == FrameStep::Resize(size)
        }),
{
}

/// A presented frame always has the size of the pool it came from.
pub proof fn law_presented_frames_match_pool(pool_size: FrameSize, newest: Option<FrameSize>)
    ensures
        frame_step_for(pool_size, newest) matches FrameStep::Present(size) ==> size == pool_size,
        frame_step_for(pool_size, newest) is NoNewFrame <==> newest is None,
{
}

/// Converting a reported content size to a frame size and back gives the reported size.
pub proof fn law_content_size_round_trips(width: i32, height: i32)
    ensures
        (width as u32) as i32 == width,
        (height as u32) as i32 == height,
{
    assert((width as u32) as i32 == width) by (bit_vector);
    assert((height as u32) as i32 == height) by (bit_vector);
}

} // verus!
