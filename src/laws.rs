use vstd::math::max;
use vstd::prelude::*;

use crate::renderer::{detached, frame_action, resize_reconfigure, resized, AcquireStatus, FrameAction, Lifecycle};
use crate::surface::{planned, AdapterReport, SurfaceConfig};

verus! {

/// A requested size is configured as `max(w, 1)` x `max(h, 1)`, whether it
/// comes with an attach or a resize.
pub proof fn lemma_configured_size_clamped(
    report: AdapterReport,
    s: Lifecycle,
    w: u32,
    h: u32,
    c: SurfaceConfig,
)
    ensures
        planned(report, w, h, Ok(c)) ==> c.width == max(w as int, 1) && c.height == max(h as int, 1),
        s is Attached ==> resized(s, w, h)->Attached_0.config.width == max(w as int, 1)
            && resized(s, w, h)->Attached_0.config.height == max(h as int, 1),
{
}

/// Detaching twice is the same as detaching once.
pub proof fn lemma_detach_idempotent(s: Lifecycle)
    ensures
        detached(detached(s)) == detached(s),
{
}

/// Resizing twice to the same size is the same as resizing once: the second
/// call has nothing to reconfigure, and neither touches the pipeline's format.
pub proof fn lemma_resize_idempotent(s: Lifecycle, w: u32, h: u32)
    ensures
        resized(resized(s, w, h), w, h) == resized(s, w, h),
        resize_reconfigure(resized(s, w, h), w, h) is None,
        s is Attached ==> resized(s, w, h)->Attached_0.pipeline_format == s->Attached_0.pipeline_format
            && resized(resized(s, w, h), w, h)->Attached_0.pipeline_format
            == s->Attached_0.pipeline_format,
{
}

/// Detaching an attached surface leaves the lifecycle detached, and a frame
/// without an attached surface does nothing, whatever the acquisition said.
pub proof fn lemma_detached_frames_idle(s: Lifecycle, status: AcquireStatus, instance_count: u32)
    ensures
        s is Attached ==> detached(s) == Lifecycle::Detached,
        frame_action(Lifecycle::Detached, status, instance_count) == FrameAction::Idle,
        frame_action(Lifecycle::Uninitialized, status, instance_count) == FrameAction::Idle,
{
}

} // verus!
