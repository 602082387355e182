//! Properties that hold across calls of the library.
use vstd::prelude::*;

use crate::actor::executed;
use crate::context::{GPUCanvasContext, GPUTextureFormat};
use crate::images::shown;
use crate::pool::{lemma_acquired_wf, lemma_completed_wf, PoolRelease, PoolsView};
use crate::presentation::{frame_len, PresentationData};
use crate::PRESENTATION_BUFFER_COUNT;

verus! {

/// Something that happens to a surface's staging pools.
pub enum PoolEvent {
    /// A present takes a buffer.
    Present,
    /// The read-back of a buffer completes.
    Completed(u64),
}

/// The pools after `events`, in order, starting from `p`.
pub open spec fn after_events(p: PoolsView, events: Seq<PoolEvent>) -> PoolsView
    decreases events.len(),
{
    if events.len() == 0 {
        p
    } else {
        let before = after_events(p, events.drop_last());
        match events.last() {
            PoolEvent::Present => before.acquired(),
            PoolEvent::Completed(id) => before.completed(id),
        }
    }
}

/// Whatever presents and completions a surface goes through, its three pools stay
/// pairwise disjoint and together never hold more than the pool's capacity.
pub proof fn lemma_pools_disjoint_and_bounded(p: PoolsView, events: Seq<PoolEvent>)
    requires
        p.wf(),
    ensures
        after_events(p, events).wf(),
        after_events(p, events).pairwise_disjoint(),
        after_events(p, events).total() <= PRESENTATION_BUFFER_COUNT,
    decreases events.len(),
{
    if events.len() > 0 {
        lemma_pools_disjoint_and_bounded(p, events.drop_last());
        let before = after_events(p, events.drop_last());
        match events.last() {
            PoolEvent::Present => lemma_acquired_wf(before),
            PoolEvent::Completed(id) => lemma_completed_wf(before, id),
        }
    }
}

/// A buffer that a present moves into *queued* is not in *available* (nor
/// *unassigned*) right after: only a completion brings it back.
pub proof fn lemma_queued_not_available(p: PoolsView)
    requires
        p.wf(),
        p.available.len() > 0 || p.unassigned.len() > 0,
    ensures
        p.acquired().queued.contains(p.next_buffer()),
        !p.acquired().available.contains(p.next_buffer()),
        !p.acquired().unassigned.contains(p.next_buffer()),
{
    lemma_acquired_wf(p);
}

/// When all of a surface's buffers are queued, none is available or unassigned, so a
/// present drops the frame: the pools stay as they were and no buffer is taken, hence
/// none created.
pub proof fn lemma_full_queue_drops_frame(p: PoolsView)
    requires
        p.wf(),
        p.queued.len() == PRESENTATION_BUFFER_COUNT,
    ensures
        p.available.len() == 0,
        p.unassigned.len() == 0,
        p.acquired() == p,
{
}

/// Tearing a surface down accounts for every identifier it held, once: one unmap and
/// destroy per queued buffer, one destroy per available buffer, one recycle per
/// identifier never created, and no identifier in two of those lists.
pub proof fn lemma_release_accounts_for_all(p: PoolsView, rel: PoolRelease)
    requires
        p.wf(),
        rel.unmap_and_destroy@ == p.queued,
        rel.destroy@ == p.available,
        rel.recycle@ == p.unassigned,
    ensures
        rel.unmap_and_destroy@.len() == p.queued.len(),
        rel.recycle@.len() == p.total() - p.available.len() - p.queued.len(),
        rel.unmap_and_destroy@.len() + rel.destroy@.len() + rel.recycle@.len() == p.total(),
        forall|x: u64| p.holds(x) <==> (rel.unmap_and_destroy@.contains(x)
            || rel.destroy@.contains(x) || rel.recycle@.contains(x)),
        forall|x: u64| rel.recycle@.contains(x) ==> !rel.destroy@.contains(x)
            && !rel.unmap_and_destroy@.contains(x),
        forall|x: u64| rel.destroy@.contains(x) ==> !rel.unmap_and_destroy@.contains(x),
{
}

/// What the compositor sees of a surface: before any frame is published, an empty
/// image of size zero; after one, a whole frame at the size the surface was set up with.
pub proof fn lemma_lock_shows_whole_frame(images: Map<u64, PresentationData>, id: u64)
    requires
        images.contains_key(id) ==> images[id].wf(),
    ensures
        !images.contains_key(id) || images[id].data@.len() == 0 ==> shown(images, id).0.len() == 0
            && shown(images, id).1.width == 0 && shown(images, id).1.height == 0,
        images.contains_key(id) && images[id].data@.len() > 0 ==> {
            &&& shown(images, id).0.len() == frame_len(images[id].buffer_stride, images[id].size)
            &&& shown(images, id).1 == images[id].size
        },
        images.contains_key(id) && images[id].size.width > 0 && images[id].size.height > 0 ==> frame_len(
            images[id].buffer_stride,
            images[id].size,
        ) > 0,
{
    if images.contains_key(id) && images[id].size.width > 0 && images[id].size.height > 0 {
        let s = images[id];
        assert(s.buffer_stride >= 256);
        assert(s.buffer_stride * s.size.height > 0) by (nonlinear_arith)
            requires
                s.buffer_stride >= 256,
                s.size.height > 0,
        ;
    }
}

/// In a run of requests, one is executed exactly when no `Exit` came before it: the
/// `Exit` itself is executed, nothing after it ever is, and order is kept.
pub proof fn lemma_nothing_runs_after_exit(exits: Seq<bool>)
    ensures
        executed(true, exits).len() == exits.len(),
        forall|j: int| 0 <= j < exits.len() ==> (#[trigger] executed(true, exits)[j] <==> forall|k: int|
            0 <= k < j ==> !exits[k]),
{
    lemma_executed(true, exits);
}

proof fn lemma_executed(running: bool, exits: Seq<bool>)
    ensures
        executed(running, exits).len() == exits.len(),
        forall|j: int| 0 <= j < exits.len() ==> (#[trigger] executed(running, exits)[j] <==> (running
            && forall|k: int| 0 <= k < j ==> !exits[k])),
    decreases exits.len(),
{
    if exits.len() > 0 {
        let rest = exits.drop_first();
        let next = running && !exits[0];
        lemma_executed(next, rest);
        let e = executed(running, exits);
        assert forall|j: int| 0 <= j < exits.len() implies (#[trigger] e[j] <==> (running && forall|k: int|
            0 <= k < j ==> !exits[k])) by {
            if j > 0 {
                assert(e[j] == executed(next, rest)[j - 1]);
                if running && forall|k: int| 0 <= k < j ==> !exits[k] {
                    assert(!exits[0]);
                    assert forall|k: int| 0 <= k < j - 1 implies !rest[k] by {
                        assert(rest[k] == exits[k + 1]);
                    }
                }
                if e[j] {
                    assert forall|k: int| 0 <= k < j implies !exits[k] by {
                        if k > 0 {
                            assert(rest[k - 1] == exits[k]);
                        }
                    }
                }
            }
        }
    }
}

/// Configuring a swap chain with a format and usage, presenting, then configuring it
/// again with the same format and usage gives an image of the same size and format as
/// the first. A present leaves the canvas's identifier and size as they were; the
/// request that configuring makes depends on those, the format and the usage alone;
/// and a surface set up from a request takes its size from the request's image.
pub proof fn lemma_reconfigure_same_image(
    before: GPUCanvasContext,
    after_present: GPUCanvasContext,
    device_id: u64,
    format: GPUTextureFormat,
    usage: u32,
    first: PresentationData,
    second: PresentationData,
)
    requires
        after_present.context_id == before.context_id,
        after_present.width == before.width,
        after_present.height == before.height,
        before.configure_request_of(device_id, format, usage) matches Some(req) && first.image_desc
            == req.image_desc && first.size == req.image_desc.size,
        after_present.configure_request_of(device_id, format, usage) matches Some(req)
            && second.image_desc == req.image_desc && second.size == req.image_desc.size,
    ensures
        before.configure_request_of(device_id, format, usage) == after_present.configure_request_of(
            device_id,
            format,
            usage,
        ),
        second.size == first.size,
        second.image_desc.format == first.image_desc.format,
        second.image_desc == first.image_desc,
{
}

} // verus!
