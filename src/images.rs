//! The surfaces' published images, shared between the GPU actor, which writes them,
//! and the compositor, which reads them through `lock` and `unlock`.
use std::collections::HashMap;
use vstd::prelude::*;

use crate::pool::PoolRelease;
use crate::presentation::{
    frame_len, ImageDescriptor, ImageKey, ImageSize, PresentPlan, PresentationData,
};

verus! {

broadcast use vstd::std_specs::hash::group_hash_axioms;

/// The image that a surface shows: its bytes and size once a frame has been
/// published, else nothing and a zero size.
pub open spec fn shown(images: Map<u64, PresentationData>, id: u64) -> (Seq<u8>, ImageSize) {
    if images.contains_key(id) && images[id].data@.len() > 0 {
        (images[id].data@, images[id].size)
    } else {
        (Seq::empty(), ImageSize { width: 0, height: 0 })
    }
}

/// What a present request came to.
#[derive(Clone, Copy, Debug, PartialEq, Eq, Structural)]
pub enum PresentOutcome {
    /// No surface under that identifier.
    NotFound,
    /// Every staging buffer is in flight: the frame is dropped.
    NoStagingBuffer,
    /// The copy and read-back to perform.
    Copy(PresentPlan),
}

/// What the compositor is told when a surface's image changed.
#[derive(Clone, Copy, Debug, PartialEq, Eq, Structural)]
pub struct ImageUpdate {
    pub image_key: ImageKey,
    pub image_desc: ImageDescriptor,
    pub external_image_id: u64,
}

pub struct WGPUExternalImages {
    pub images: HashMap<u64, PresentationData>,
    pub locked_ids: HashMap<u64, Vec<u8>>,
}

impl WGPUExternalImages {
    /// Every surface is well formed.
    pub open spec fn wf(&self) -> bool {
        forall|k: u64| #[trigger] self.images@.contains_key(k) ==> self.images@[k].wf()
    }

    /// No surface and nothing locked.
    pub fn new() -> (r: Self)
        ensures
            r.wf(),
            r.images@ == Map::<u64, PresentationData>::empty(),
            r.locked_ids@ == Map::<u64, Vec<u8>>::empty(),
    {
        WGPUExternalImages { images: HashMap::new(), locked_ids: HashMap::new() }
    }

    /// Takes a snapshot of surface `id` for the compositor and keeps it until `unlock`.
    pub fn lock(&mut self, id: u64) -> (r: (&[u8], ImageSize))
        ensures
            final(self).images@ == old(self).images@,
            final(self).locked_ids@.dom() == old(self).locked_ids@.dom().insert(id),
            final(self).locked_ids@[id]@ == shown(old(self).images@, id).0,
            forall|k: u64| k != id && #[trigger] old(self).locked_ids@.contains_key(k)
                ==> final(self).locked_ids@[k] == old(self).locked_ids@[k],
            r.0@ == shown(old(self).images@, id).0,
            r.1 == shown(old(self).images@, id).1,
    {
        let (data, size) = match self.images.get(&id) {
            Some(present_data) => {
                if present_data.data.len() > 0 {
                    (present_data.data.clone(), present_data.size)
                } else {
                    (Vec::new(), ImageSize { width: 0, height: 0 })
                }
            },
            None => (Vec::new(), ImageSize { width: 0, height: 0 }),
        };
        self.locked_ids.insert(id, data);
        match self.locked_ids.get(&id) {
            Some(bytes) => (bytes.as_slice(), size),
            None => (&[], size),
        }
    }

    /// Drops the compositor's snapshot of surface `id`.
    pub fn unlock(&mut self, id: u64)
        ensures
            final(self).images@ == old(self).images@,
            final(self).locked_ids@ == old(self).locked_ids@.remove(id),
    {
        self.locked_ids.remove(&id);
    }

    /// Installs surface `id`. A surface that was there before is taken out, and what
    /// its staging buffers ask of the backend is returned.
    pub fn configure(&mut self, id: u64, surface: PresentationData) -> (r: Option<PoolRelease>)
        requires
            old(self).wf(),
            surface.wf(),
        ensures
            final(self).wf(),
            final(self).images@ == old(self).images@.insert(id, surface),
            final(self).locked_ids@ == old(self).locked_ids@,
            r.is_some() <==> old(self).images@.contains_key(id),
            r matches Some(rel) ==> {
                let prev = old(self).images@[id].pools();
                &&& rel.unmap_and_destroy@ == prev.queued
                &&& rel.destroy@ == prev.available
                &&& rel.recycle@ == prev.unassigned
            },
    {
        match self.images.insert(id, surface) {
            Some(prev) => Some(prev.release()),
            None => None,
        }
    }

    /// Starts a present on surface `id` (see `PresentationData::begin_present`).
    pub fn present(&mut self, id: u64) -> (r: PresentOutcome)
        requires
            old(self).wf(),
        ensures
            final(self).wf(),
            final(self).locked_ids@ == old(self).locked_ids@,
            final(self).images@.dom() == old(self).images@.dom(),
            forall|k: u64| k != id && #[trigger] old(self).images@.contains_key(k)
                ==> final(self).images@[k] == old(self).images@[k],
            !old(self).images@.contains_key(id) ==> r == PresentOutcome::NotFound,
            old(self).images@.contains_key(id) ==> {
                let before = old(self).images@[id];
                let after = final(self).images@[id];
                &&& after.data == before.data
                &&& after.size == before.size
                &&& after.buffer_stride == before.buffer_stride
                &&& after.image_key == before.image_key
                &&& after.image_desc == before.image_desc
                &&& (r == PresentOutcome::NoStagingBuffer <==> before.pools().available.len() == 0
                    && before.pools().unassigned.len() == 0)
                &&& (r == PresentOutcome::NoStagingBuffer ==> after.pools() == before.pools())
                &&& r != PresentOutcome::NotFound
                &&& (r matches PresentOutcome::Copy(plan) ==> {
                    &&& (plan.create_buffer <==> before.pools().available.len() == 0)
                    &&& plan.buffer_id == (if plan.create_buffer {
                        before.pools().unassigned.last()
                    } else {
                        before.pools().available.last()
                    })
                    &&& after.pools().queued == before.pools().queued.push(plan.buffer_id)
                    &&& after.pools().unassigned == (if plan.create_buffer {
                        before.pools().unassigned.drop_last()
                    } else {
                        before.pools().unassigned
                    })
                    &&& after.pools().available == (if plan.create_buffer {
                        before.pools().available
                    } else {
                        before.pools().available.drop_last()
                    })
                    &&& plan.device_id == before.device_id
                    &&& plan.queue_id == before.queue_id
                    &&& plan.bytes_per_row == before.buffer_stride
                    &&& plan.width == before.size.width
                    &&& plan.height == before.size.height
                    &&& plan.buffer_size == frame_len(before.buffer_stride, before.size)
                })
            },
    {
        match self.images.remove(&id) {
            None => PresentOutcome::NotFound,
            Some(mut surface) => {
                let r = match surface.begin_present() {
                    None => PresentOutcome::NoStagingBuffer,
                    Some(plan) => PresentOutcome::Copy(plan),
                };
                self.images.insert(id, surface);
                r
            },
        }
    }

    /// Publishes the bytes read back from `buffer_id` as surface `id`'s image (see
    /// `PresentationData::publish`). Returns what the compositor must be told, or
    /// `None` when there is no such surface or the bytes are not one whole frame.
    pub fn publish(&mut self, id: u64, buffer_id: u64, bytes: Vec<u8>) -> (r: Option<ImageUpdate>)
        requires
            old(self).wf(),
        ensures
            final(self).wf(),
            final(self).locked_ids@ == old(self).locked_ids@,
            final(self).images@.dom() == old(self).images@.dom(),
            forall|k: u64| k != id && #[trigger] old(self).images@.contains_key(k)
                ==> final(self).images@[k] == old(self).images@[k],
            !old(self).images@.contains_key(id) ==> r.is_none(),
            old(self).images@.contains_key(id) ==> {
                let before = old(self).images@[id];
                let after = final(self).images@[id];
                let ok = bytes@.len() == frame_len(before.buffer_stride, before.size);
                &&& r.is_some() == ok
                &&& (ok ==> after.data@ == bytes@)
                &&& (!ok ==> after.data == before.data)
                &&& (ok && before.pools().queued.contains(buffer_id) ==> after.pools() == (
                crate::pool::PoolsView {
                    unassigned: before.pools().unassigned,
                    available: before.pools().available.push(buffer_id),
                    queued: before.pools().queued.remove(
                        before.pools().queued.index_of(buffer_id),
                    ),
                }))
                &&& (!(ok && before.pools().queued.contains(buffer_id)) ==> after.pools()
                    == before.pools())
                &&& after.size == before.size
                &&& after.buffer_stride == before.buffer_stride
                &&& after.image_key == before.image_key
                &&& after.image_desc == before.image_desc
                &&& (r matches Some(u) ==> u == (ImageUpdate {
                    image_key: before.image_key,
                    image_desc: before.image_desc,
                    external_image_id: before.external_image_id,
                }))
            },
    {
        match self.images.remove(&id) {
            None => None,
            Some(mut surface) => {
                let ok = surface.publish(buffer_id, bytes);
                let update = ImageUpdate {
                    image_key: surface.image_key,
                    image_desc: surface.image_desc,
                    external_image_id: surface.external_image_id,
                };
                self.images.insert(id, surface);
                if ok {
                    Some(update)
                } else {
                    None
                }
            },
        }
    }

    /// Takes surface `id` out, with what its staging buffers ask of the backend and
    /// of the identifier allocator. `None` when there is no such surface.
    pub fn destroy(&mut self, id: u64) -> (r: Option<PoolRelease>)
        requires
            old(self).wf(),
        ensures
            final(self).wf(),
            final(self).images@ == old(self).images@.remove(id),
            final(self).locked_ids@ == old(self).locked_ids@,
            r.is_some() <==> old(self).images@.contains_key(id),
            r matches Some(rel) ==> {
                let prev = old(self).images@[id].pools();
                &&& rel.unmap_and_destroy@ == prev.queued
                &&& rel.destroy@ == prev.available
                &&& rel.recycle@ == prev.unassigned
            },
    {
        match self.images.remove(&id) {
            Some(prev) => Some(prev.release()),
            None => None,
        }
    }
}

} // verus!
