//! The GPU actor's own state and decisions. The actor takes one request at a time;
//! each handler below decides what the request does to the actor's tables and
//! returns what the backend, the compositor or the script side must be told.
use std::collections::HashMap;
use vstd::prelude::*;

use crate::bridge::{BufferMapInfo, MapCompletion, MapReply, PendingMaps};
use crate::images::{ImageUpdate, PresentOutcome, WGPUExternalImages};
use crate::pool::PoolRelease;
use crate::presentation::{ImageDescriptor, ImageKey, PresentationData};

verus! {

broadcast use vstd::std_specs::hash::group_hash_axioms;

/// Milliseconds between two polls of the backend while no request comes in.
pub const DEVICE_POLL_INTERVAL: u64 = 100;

/// The outcome of an operation that validates against a device.
#[derive(Clone, Debug, PartialEq, Eq)]
pub enum WebGPUOpResult {
    ValidationError(String),
    Success,
}

/// Notifications from the actor to the script side.
#[derive(Clone, Debug, PartialEq, Eq)]
pub enum WebGPUMsg {
    FreeBuffer(u64),
    CleanDevice { device: u64, pipeline_id: u64 },
    WebGPUOpResult { device: u64, scope_id: u64, pipeline_id: u64, result: WebGPUOpResult },
    Exit,
}

/// Why a swap chain could not be set up.
#[derive(Clone, Copy, Debug, PartialEq, Eq, Structural)]
pub enum SwapChainError {
    /// A negative size, or a frame too large to hold in memory.
    BadSize,
    /// More staging identifiers than the pool holds, or one given twice.
    BadBufferIds,
}

pub struct WGPU<R> {
    pub adapters: Vec<u64>,
    /// The pipeline that owns each device.
    pub devices: HashMap<u64, u64>,
    pub pending: PendingMaps<R>,
    /// False once `Exit` has been taken.
    pub running: bool,
    /// When the backend was last polled, in milliseconds.
    pub last_poll: u64,
}

/// Which of a run of requests are executed, each marked by whether it is `Exit`:
/// all of them up to and including the first `Exit`, none after it.
pub open spec fn executed(running: bool, exits: Seq<bool>) -> Seq<bool>
    decreases exits.len(),
{
    if exits.len() == 0 {
        Seq::empty()
    } else {
        seq![running].add(executed(running && !exits[0], exits.drop_first()))
    }
}

impl<R> WGPU<R> {
    pub open spec fn wf(&self) -> bool {
        self.pending.wf()
    }

    pub fn new(now: u64) -> (r: Self)
        ensures
            r.wf(),
            r.running,
            r.last_poll == now,
            r.adapters@.len() == 0,
            r.devices@ == Map::<u64, u64>::empty(),
            r.pending.entries@ == Map::<u64, BufferMapInfo<R>>::empty(),
    {
        WGPU {
            adapters: Vec::new(),
            devices: HashMap::new(),
            pending: PendingMaps::new(),
            running: true,
            last_poll: now,
        }
    }

    /// Whether the backend is due a poll at time `now`; if so the poll is recorded.
    pub fn poll_due(&mut self, now: u64) -> (r: bool)
        ensures
            r == (now >= old(self).last_poll && now - old(self).last_poll >= DEVICE_POLL_INTERVAL),
            final(self).last_poll == (if r { now } else { old(self).last_poll }),
            final(self).running == old(self).running,
            final(self).adapters == old(self).adapters,
            final(self).devices == old(self).devices,
            final(self).pending == old(self).pending,
    {
        if now >= self.last_poll && now - self.last_poll >= DEVICE_POLL_INTERVAL {
            self.last_poll = now;
            true
        } else {
            false
        }
    }

    /// Takes the next request in arrival order: whether it is to be executed. Once
    /// an `Exit` has been taken, nothing is executed any more.
    pub fn accept(&mut self, is_exit: bool) -> (r: bool)
        ensures
            r == old(self).running,
            final(self).running == (old(self).running && !is_exit),
            final(self).last_poll == old(self).last_poll,
            final(self).adapters == old(self).adapters,
            final(self).devices == old(self).devices,
            final(self).pending == old(self).pending,
    {
        let r = self.running;
        if is_exit {
            self.running = false;
        }
        r
    }

    /// Records an adapter that the backend picked.
    pub fn adapter_picked(&mut self, adapter_id: u64)
        ensures
            final(self).adapters@ == old(self).adapters@.push(adapter_id),
            final(self).devices == old(self).devices,
            final(self).pending == old(self).pending,
            final(self).running == old(self).running,
            final(self).last_poll == old(self).last_poll,
    {
        self.adapters.push(adapter_id);
    }

    /// Records a device that the backend created for `pipeline_id`.
    pub fn device_created(&mut self, device_id: u64, pipeline_id: u64)
        ensures
            final(self).devices@ == old(self).devices@.insert(device_id, pipeline_id),
            final(self).adapters == old(self).adapters,
            final(self).pending == old(self).pending,
            final(self).running == old(self).running,
            final(self).last_poll == old(self).last_poll,
    {
        self.devices.insert(device_id, pipeline_id);
    }

    /// Forgets a device; the script side is told to clean up after it. `None` when
    /// the device is not known.
    pub fn free_device(&mut self, device_id: u64) -> (r: Option<WebGPUMsg>)
        ensures
            final(self).devices@ == old(self).devices@.remove(device_id),
            r.is_some() == old(self).devices@.contains_key(device_id),
            r.is_some() ==> r == Some(WebGPUMsg::CleanDevice {
                device: device_id,
                pipeline_id: old(self).devices@[device_id],
            }),
            final(self).adapters == old(self).adapters,
            final(self).pending == old(self).pending,
            final(self).running == old(self).running,
            final(self).last_poll == old(self).last_poll,
    {
        match self.devices.remove(&device_id) {
            Some(pipeline_id) => Some(WebGPUMsg::CleanDevice { device: device_id, pipeline_id }),
            None => None,
        }
    }

    /// The notification that reports a validated operation's outcome to the
    /// pipeline owning `device_id`. `None` when the device is not known.
    pub fn send_result(&self, device_id: u64, scope_id: u64, result: Result<(), String>) -> (r:
        Option<WebGPUMsg>)
        ensures
            r.is_some() == self.devices@.contains_key(device_id),
            r.is_some() ==> r == Some(WebGPUMsg::WebGPUOpResult {
                device: device_id,
                scope_id,
                pipeline_id: self.devices@[device_id],
                result: match result {
                    Ok(_) => WebGPUOpResult::Success,
                    Err(e) => WebGPUOpResult::ValidationError(e),
                },
            }),
    {
        match self.devices.get(&device_id) {
            None => None,
            Some(pipeline_id) => Some(WebGPUMsg::WebGPUOpResult {
                device: device_id,
                scope_id,
                pipeline_id: *pipeline_id,
                result: match result {
                    Ok(_) => WebGPUOpResult::Success,
                    Err(e) => WebGPUOpResult::ValidationError(e),
                },
            }),
        }
    }

    /// Registers a mapping of `buffer_id` over `start..end` whose bytes go back to
    /// `sender`. Refused when the range is reversed or too large to hold, or when a
    /// mapping of that buffer is already pending: nothing changes, `false` comes back
    /// and the sender is dropped. On `true` the backend is to be asked for the mapping.
    pub fn buffer_map_async(&mut self, sender: R, buffer_id: u64, start: u64, end: u64) -> (r: bool)
        requires
            old(self).wf(),
        ensures
            final(self).wf(),
            r == (start <= end && end - start <= usize::MAX
                && !old(self).pending.entries@.contains_key(buffer_id)),
            r ==> final(self).pending.entries@ == old(self).pending.entries@.insert(
                buffer_id,
                BufferMapInfo { buffer_id, reply: MapReply::Direct(sender), size: (end - start) as usize },
            ),
            !r ==> final(self).pending.entries@ == old(self).pending.entries@,
            final(self).devices == old(self).devices,
            final(self).adapters == old(self).adapters,
            final(self).running == old(self).running,
            final(self).last_poll == old(self).last_poll,
    {
        if end < start || end - start > usize::MAX as u64 {
            return false;
        }
        let info = BufferMapInfo { buffer_id, reply: MapReply::Direct(sender), size: (end - start) as usize };
        self.pending.register(info)
    }

    /// The requester is done with the mapped bytes of `buffer_id`: the entry is dropped.
    pub fn buffer_map_complete(&mut self, buffer_id: u64)
        requires
            old(self).wf(),
        ensures
            final(self).wf(),
            final(self).pending.entries@ == old(self).pending.entries@.remove(buffer_id),
            final(self).devices == old(self).devices,
            final(self).adapters == old(self).adapters,
            final(self).running == old(self).running,
            final(self).last_poll == old(self).last_poll,
    {
        self.pending.consume(buffer_id);
    }

    /// The backend finished, or failed, a mapping of `buffer_id` (see
    /// `PendingMaps::complete`).
    pub fn map_completed(&mut self, buffer_id: u64, success: bool) -> (r: MapCompletion)
        requires
            old(self).wf(),
        ensures
            final(self).wf(),
            !old(self).pending.entries@.contains_key(buffer_id) ==> r == MapCompletion::Unknown
                && final(self).pending.entries@ == old(self).pending.entries@,
            old(self).pending.entries@.contains_key(buffer_id) && !success ==> r == (
            MapCompletion::Failed { buffer_id }) && final(self).pending.entries@
                == old(self).pending.entries@.remove(buffer_id),
            old(self).pending.entries@.contains_key(buffer_id) && success ==> {
                let info = old(self).pending.entries@[buffer_id];
                &&& final(self).pending.entries@ == old(self).pending.entries@
                &&& match info.reply {
                    MapReply::Direct(_) => r == (MapCompletion::Reply { buffer_id, size: info.size }),
                    MapReply::Present { external_id } => r == (MapCompletion::Publish {
                        buffer_id,
                        external_id,
                        size: info.size,
                    }),
                }
            },
            final(self).devices == old(self).devices,
            final(self).adapters == old(self).adapters,
            final(self).running == old(self).running,
            final(self).last_poll == old(self).last_poll,
    {
        self.pending.complete(buffer_id, success)
    }

    /// Sets up the swap chain of surface `external_id`: its staging identifiers start
    /// out unassigned and nothing is published yet. A surface already there under that
    /// identifier is replaced, and what its buffers ask of the backend is returned.
    pub fn create_swap_chain(
        &mut self,
        images: &mut WGPUExternalImages,
        device_id: u64,
        buffer_ids: &Vec<u64>,
        external_id: u64,
        image_key: ImageKey,
        image_desc: ImageDescriptor,
    ) -> (r: Result<Option<PoolRelease>, SwapChainError>)
        requires
            old(images).wf(),
        ensures
            final(images).wf(),
            final(images).locked_ids@ == old(images).locked_ids@,
            r == Err::<Option<PoolRelease>, SwapChainError>(SwapChainError::BadSize)
                <==> !PresentationData::size_ok(image_desc.size),
            r == Err::<Option<PoolRelease>, SwapChainError>(SwapChainError::BadBufferIds)
                <==> PresentationData::size_ok(image_desc.size) && !(buffer_ids@.len()
                <= crate::PRESENTATION_BUFFER_COUNT && buffer_ids@.no_duplicates()),
            r is Err ==> final(images).images@ == old(images).images@,
            r is Ok ==> {
                let s = final(images).images@[external_id];
                &&& final(images).images@.dom() == old(images).images@.dom().insert(external_id)
                &&& forall|k: u64| k != external_id && #[trigger] old(images).images@.contains_key(k)
                    ==> final(images).images@[k] == old(images).images@[k]
                &&& s.device_id == device_id
                &&& s.queue_id == device_id
                &&& s.data@.len() == 0
                &&& s.size == image_desc.size
                &&& s.image_key == image_key
                &&& s.image_desc == image_desc
                &&& s.external_image_id == external_id
                &&& s.pools().unassigned == buffer_ids@
                &&& s.pools().available.len() == 0
                &&& s.pools().queued.len() == 0
            },
            r matches Ok(prev) ==> (prev.is_some() <==> old(images).images@.contains_key(external_id)),
            r matches Ok(Some(rel)) ==> {
                let prev = old(images).images@[external_id].pools();
                &&& rel.unmap_and_destroy@ == prev.queued
                &&& rel.destroy@ == prev.available
                &&& rel.recycle@ == prev.unassigned
            },
    {
        let size = image_desc.size;
        let size_ok = size.width >= 0 && size.width <= 0x3fff_ff00 && size.height >= 0 && {
            let stride = crate::presentation::padded_stride(size.width as u32);
            match (stride as u64).checked_mul(size.height as u64) {
                None => false,
                Some(len) => len <= usize::MAX as u64,
            }
        };
        match PresentationData::new(device_id, buffer_ids, image_key, image_desc, external_id) {
            None => {
                if !size_ok {
                    Err(SwapChainError::BadSize)
                } else {
                    Err(SwapChainError::BadBufferIds)
                }
            },
            Some(surface) => Ok(images.configure(external_id, surface)),
        }
    }

    /// Presents the current frame of surface `external_id` (see
    /// `WGPUExternalImages::present`). For a copy, the read-back mapping of its buffer
    /// is registered to be published; the flag says whether that registration was
    /// taken, which fails only when a mapping of that buffer was already pending.
    pub fn swap_chain_present(&mut self, images: &mut WGPUExternalImages, external_id: u64) -> (r: (
        PresentOutcome,
        bool,
    ))
        requires
            old(self).wf(),
            old(images).wf(),
        ensures
            final(self).wf(),
            final(images).wf(),
            final(images).locked_ids@ == old(images).locked_ids@,
            final(images).images@.dom() == old(images).images@.dom(),
            forall|k: u64| k != external_id && #[trigger] old(images).images@.contains_key(k)
                ==> final(images).images@[k] == old(images).images@[k],
            !old(images).images@.contains_key(external_id) ==> r.0 == PresentOutcome::NotFound,
            old(images).images@.contains_key(external_id) ==> {
                let before = old(images).images@[external_id];
                let after = final(images).images@[external_id];
                &&& after.data == before.data
                &&& after.size == before.size
                &&& after.image_desc == before.image_desc
                &&& (r.0 == PresentOutcome::NoStagingBuffer <==> before.pools().available.len() == 0
                    && before.pools().unassigned.len() == 0)
                &&& (r.0 == PresentOutcome::NoStagingBuffer ==> after.pools() == before.pools())
                &&& r.0 != PresentOutcome::NotFound
                &&& (r.0 matches PresentOutcome::Copy(plan) ==> {
                    &&& (plan.create_buffer <==> before.pools().available.len() == 0)
                    &&& plan.buffer_id == (if plan.create_buffer {
                        before.pools().unassigned.last()
                    } else {
                        before.pools().available.last()
                    })
                    &&& after.pools().queued == before.pools().queued.push(plan.buffer_id)
                    &&& after.pools().unassigned == (if plan.create_buffer {
                        before.pools().unassigned.drop_last()
                    } else {
                        before.pools().unassigned
                    })
                    &&& after.pools().available == (if plan.create_buffer {
                        before.pools().available
                    } else {
                        before.pools().available.drop_last()
                    })
                    &&& plan.buffer_size == crate::presentation::frame_len(
                        before.buffer_stride,
                        before.size,
                    )
                })
            },
            r.0 matches PresentOutcome::Copy(plan) ==> {
                &&& r.1 == !old(self).pending.entries@.contains_key(plan.buffer_id)
                &&& r.1 ==> final(self).pending.entries@ == old(self).pending.entries@.insert(
                    plan.buffer_id,
                    BufferMapInfo {
                        buffer_id: plan.buffer_id,
                        reply: MapReply::Present { external_id },
                        size: plan.buffer_size as usize,
                    },
                )
                &&& !r.1 ==> final(self).pending.entries@ == old(self).pending.entries@
            },
            !(r.0 is Copy) ==> !r.1 && final(self).pending.entries@ == old(self).pending.entries@,
            final(self).devices == old(self).devices,
            final(self).adapters == old(self).adapters,
            final(self).running == old(self).running,
            final(self).last_poll == old(self).last_poll,
    {
        let outcome = images.present(external_id);
        match outcome {
            PresentOutcome::Copy(plan) => {
                let info = BufferMapInfo {
                    buffer_id: plan.buffer_id,
                    reply: MapReply::Present { external_id },
                    size: plan.buffer_size as usize,
                };
                let registered = self.pending.register(info);
                (outcome, registered)
            },
            _ => (outcome, false),
        }
    }

    /// A present's read-back of `buffer_id` finished with `bytes`: they become surface
    /// `external_id`'s image (see `WGPUExternalImages::publish`) and the pending
    /// mapping is dropped. The backend is then to unmap the buffer.
    pub fn update_webrender_data(
        &mut self,
        images: &mut WGPUExternalImages,
        buffer_id: u64,
        external_id: u64,
        bytes: Vec<u8>,
    ) -> (r: Option<ImageUpdate>)
        requires
            old(self).wf(),
            old(images).wf(),
        ensures
            final(self).wf(),
            final(images).wf(),
            final(self).pending.entries@ == old(self).pending.entries@.remove(buffer_id),
            final(images).locked_ids@ == old(images).locked_ids@,
            final(images).images@.dom() == old(images).images@.dom(),
            forall|k: u64| k != external_id && #[trigger] old(images).images@.contains_key(k)
                ==> final(images).images@[k] == old(images).images@[k],
            !old(images).images@.contains_key(external_id) ==> r.is_none(),
            old(images).images@.contains_key(external_id) ==> {
                let before = old(images).images@[external_id];
                let after = final(images).images@[external_id];
                let ok = bytes@.len() == crate::presentation::frame_len(before.buffer_stride, before.size);
                &&& r.is_some() == ok
                &&& (ok ==> after.data@ == bytes@)
                &&& (!ok ==> after.data == before.data)
                &&& (ok && before.pools().queued.contains(buffer_id) ==> after.pools() == (
                crate::pool::PoolsView {
                    unassigned: before.pools().unassigned,
                    available: before.pools().available.push(buffer_id),
                    queued: before.pools().queued.remove(before.pools().queued.index_of(buffer_id)),
                }))
                &&& (!(ok && before.pools().queued.contains(buffer_id)) ==> after.pools()
                    == before.pools())
                &&& after.size == before.size
                &&& after.image_desc == before.image_desc
                &&& (r matches Some(u) ==> u == (ImageUpdate {
                    image_key: before.image_key,
                    image_desc: before.image_desc,
                    external_image_id: before.external_image_id,
                }))
            },
            final(self).devices == old(self).devices,
            final(self).adapters == old(self).adapters,
            final(self).running == old(self).running,
            final(self).last_poll == old(self).last_poll,
    {
        let r = images.publish(external_id, buffer_id, bytes);
        self.pending.consume(buffer_id);
        r
    }

    /// Tears surface `external_id` down. The mappings still pending on its queued
    /// buffers are dropped with it, since those buffers are unmapped and destroyed.
    /// Returns what its buffers ask of the backend, and the script side is to be told
    /// to free each never-created identifier. `None` when there is no such surface.
    pub fn destroy_swap_chain(&mut self, images: &mut WGPUExternalImages, external_id: u64) -> (r:
        Option<PoolRelease>)
        requires
            old(self).wf(),
            old(images).wf(),
        ensures
            final(self).wf(),
            final(images).wf(),
            final(images).images@ == old(images).images@.remove(external_id),
            final(images).locked_ids@ == old(images).locked_ids@,
            r.is_some() <==> old(images).images@.contains_key(external_id),
            r matches Some(rel) ==> {
                let prev = old(images).images@[external_id].pools();
                &&& rel.unmap_and_destroy@ == prev.queued
                &&& rel.destroy@ == prev.available
                &&& rel.recycle@ == prev.unassigned
                &&& forall|b: u64| #[trigger] final(self).pending.entries@.contains_key(b) <==> (
                    old(self).pending.entries@.contains_key(b) && !prev.queued.contains(b))
            },
            r.is_none() ==> final(self).pending.entries@ == old(self).pending.entries@,
            final(self).devices == old(self).devices,
            final(self).adapters == old(self).adapters,
            final(self).running == old(self).running,
            final(self).last_poll == old(self).last_poll,
    {
        match images.destroy(external_id) {
            None => None,
            Some(rel) => {
                let mut i: usize = 0;
                let ghost start = self.pending.entries@;
                while i < rel.unmap_and_destroy.len()
                    invariant
                        self.wf(),
                        i <= rel.unmap_and_destroy@.len(),
                        forall|b: u64| #[trigger] self.pending.entries@.contains_key(b) <==> (
                            start.contains_key(b) && !rel.unmap_and_destroy@.subrange(0, i as int).contains(b)),
                        self.devices == old(self).devices,
                        self.adapters == old(self).adapters,
                        self.running == old(self).running,
                        self.last_poll == old(self).last_poll,
                    decreases rel.unmap_and_destroy@.len() - i,
                {
                    let b = rel.unmap_and_destroy[i];
                    self.pending.consume(b);
                    proof {
                        let q = rel.unmap_and_destroy@;
                        assert forall|x: u64| q.subrange(0, i + 1).contains(x) <==> (q.subrange(0, i as int).contains(x) || x == b) by {
                            if q.subrange(0, i + 1).contains(x) {
                                let j = q.subrange(0, i + 1).index_of(x);
                                if j < i {
                                    assert(q.subrange(0, i as int)[j] == x);
                                }
                            }
                            if q.subrange(0, i as int).contains(x) {
                                let j = q.subrange(0, i as int).index_of(x);
                                assert(q.subrange(0, i + 1)[j] == x);
                            }
                            if x == b {
                                assert(q.subrange(0, i + 1)[i as int] == x);
                            }
                        }
                    }
                    i = i + 1;
                }
                assert(rel.unmap_and_destroy@.subrange(0, rel.unmap_and_destroy@.len() as int) == rel.unmap_and_destroy@);
                Some(rel)
            },
        }
    }
}

} // verus!
