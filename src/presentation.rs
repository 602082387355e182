//! The state of one presentation surface: its image, its stride and its staging buffers.
use vstd::prelude::*;

use crate::pool::{Acquired, BufferPools, PoolRelease};

verus! {

/// The alignment, in bytes, that the backend asks of a row in a buffer-texture copy.
pub const COPY_BYTES_PER_ROW_ALIGNMENT: u32 = 256;

/// Width and height of an image, in pixels.
#[derive(Clone, Copy, Debug, PartialEq, Eq, Structural)]
pub struct ImageSize {
    pub width: i32,
    pub height: i32,
}

/// The pixel layouts a swap chain can present.
#[derive(Clone, Copy, Debug, PartialEq, Eq, Structural)]
pub enum ImageFormat {
    RGBA8,
    BGRA8,
}

/// The compositor's key for a registered image.
#[derive(Clone, Copy, Debug, PartialEq, Eq, Structural)]
pub struct ImageKey {
    pub namespace: u32,
    pub key: u32,
}

/// How the compositor is to read an image.
#[derive(Clone, Copy, Debug, PartialEq, Eq, Structural)]
pub struct ImageDescriptor {
    pub format: ImageFormat,
    pub size: ImageSize,
    pub stride: Option<i32>,
    pub offset: i32,
    pub is_opaque: bool,
}

/// Bytes per row, rounded past `width * 4` to the next multiple of the row alignment.
pub open spec fn stride_of(width: nat) -> nat {
    ((width * 4) / 256 + 1) * 256
}

/// Bytes per row of a staging buffer for an image `width` pixels wide.
pub fn padded_stride(width: u32) -> (r: u32)
    requires
        width <= 0x3fff_ff00,
    ensures
        r == stride_of(width as nat),
{
    let w4: u32 = width * 4;
    assert((w4 | 255u32) < 0xffff_ffffu32 && (w4 | 255u32) + 1 == (w4 / 256 + 1) * 256)
        by (bit_vector)
        requires
            w4 <= 0xffff_fc00u32,
    ;
    (w4 | (COPY_BYTES_PER_ROW_ALIGNMENT - 1)) + 1
}

/// What a present asks of the backend: copy the surface's texture into `buffer_id`,
/// creating that buffer first when `create_buffer` holds, then map it for reading.
#[derive(Clone, Copy, Debug, PartialEq, Eq, Structural)]
pub struct PresentPlan {
    pub buffer_id: u64,
    pub create_buffer: bool,
    pub device_id: u64,
    pub queue_id: u64,
    pub bytes_per_row: u32,
    pub width: u32,
    pub height: u32,
    pub buffer_size: u64,
}

pub struct PresentationData {
    pub device_id: u64,
    pub queue_id: u64,
    pub data: Vec<u8>,
    pub size: ImageSize,
    pub pools: BufferPools,
    pub buffer_stride: u32,
    pub image_key: ImageKey,
    pub image_desc: ImageDescriptor,
    pub external_image_id: u64,
}

/// Size in bytes of a published frame of `size` at row stride `stride`.
pub open spec fn frame_len(stride: u32, size: ImageSize) -> int {
    stride * size.height
}

impl PresentationData {
    /// The staging pools, as sequences.
    pub open spec fn pools(&self) -> crate::pool::PoolsView {
        self.pools@
    }

    /// Dimensions are non-negative, a frame fits in memory, the stride is the padded
    /// one, the published bytes are nothing or one whole frame, and the pools are sound.
    pub open spec fn wf(&self) -> bool {
        &&& 0 <= self.size.width <= 0x3fff_ff00
        &&& 0 <= self.size.height
        &&& self.buffer_stride == stride_of(self.size.width as nat)
        &&& frame_len(self.buffer_stride, self.size) <= usize::MAX
        &&& (self.data@.len() == 0 || self.data@.len() == frame_len(self.buffer_stride, self.size))
        &&& self.pools().wf()
    }

    /// Whether a surface of this size can be set up: non-negative and fitting in memory.
    pub open spec fn size_ok(size: ImageSize) -> bool {
        &&& 0 <= size.width <= 0x3fff_ff00
        &&& 0 <= size.height
        &&& stride_of(size.width as nat) * size.height <= usize::MAX
    }

    /// A surface of `image_desc.size` whose reserved identifiers are `buffer_ids`.
    /// Nothing is published yet. Refused on a size out of range, more identifiers
    /// than the pool's capacity, or a repeated identifier.
    pub fn new(
        device_id: u64,
        buffer_ids: &Vec<u64>,
        image_key: ImageKey,
        image_desc: ImageDescriptor,
        external_image_id: u64,
    ) -> (r: Option<PresentationData>)
        ensures
            r.is_some() <==> Self::size_ok(image_desc.size)
                && buffer_ids@.len() <= crate::PRESENTATION_BUFFER_COUNT
                && buffer_ids@.no_duplicates(),
            r matches Some(p) ==> {
                &&& p.wf()
                &&& p.device_id == device_id
                &&& p.queue_id == device_id
                &&& p.data@.len() == 0
                &&& p.size == image_desc.size
                &&& p.buffer_stride == stride_of(image_desc.size.width as nat)
                &&& p.image_key == image_key
                &&& p.image_desc == image_desc
                &&& p.external_image_id == external_image_id
                &&& p.pools().unassigned == buffer_ids@
                &&& p.pools().available.len() == 0
                &&& p.pools().queued.len() == 0
            },
    {
        let size = image_desc.size;
        if size.width < 0 || size.width > 0x3fff_ff00 || size.height < 0 {
            return None;
        }
        let stride = padded_stride(size.width as u32);
        match (stride as u64).checked_mul(size.height as u64) {
            None => {
                return None;
            },
            Some(len) => {
                if len > usize::MAX as u64 {
                    return None;
                }
            },
        }
        match BufferPools::new(buffer_ids) {
            None => None,
            Some(pools) => Some(PresentationData {
                device_id,
                queue_id: device_id,
                data: Vec::new(),
                size,
                pools,
                buffer_stride: stride,
                image_key,
                image_desc,
                external_image_id,
            }),
        }
    }

    /// Starts a present: picks a staging buffer and queues it. `None` when all of
    /// them are in flight; the frame is then dropped and nothing changes.
    pub fn begin_present(&mut self) -> (r: Option<PresentPlan>)
        requires
            old(self).wf(),
        ensures
            final(self).wf(),
            final(self).data == old(self).data,
            final(self).size == old(self).size,
            final(self).buffer_stride == old(self).buffer_stride,
            final(self).device_id == old(self).device_id,
            final(self).queue_id == old(self).queue_id,
            final(self).image_key == old(self).image_key,
            final(self).image_desc == old(self).image_desc,
            final(self).external_image_id == old(self).external_image_id,
            r.is_none() <==> old(self).pools().available.len() == 0
                && old(self).pools().unassigned.len() == 0,
            r.is_none() ==> final(self).pools() == old(self).pools(),
            r matches Some(plan) ==> {
                &&& plan.create_buffer <==> old(self).pools().available.len() == 0
                &&& plan.buffer_id == (if plan.create_buffer {
                    old(self).pools().unassigned.last()
                } else {
                    old(self).pools().available.last()
                })
                &&& final(self).pools().queued == old(self).pools().queued.push(plan.buffer_id)
                &&& final(self).pools().unassigned == (if plan.create_buffer {
                    old(self).pools().unassigned.drop_last()
                } else {
                    old(self).pools().unassigned
                })
                &&& final(self).pools().available == (if plan.create_buffer {
                    old(self).pools().available
                } else {
                    old(self).pools().available.drop_last()
                })
                &&& plan.device_id == old(self).device_id
                &&& plan.queue_id == old(self).queue_id
                &&& plan.bytes_per_row == old(self).buffer_stride
                &&& plan.width == old(self).size.width
                &&& plan.height == old(self).size.height
                &&& plan.buffer_size == frame_len(old(self).buffer_stride, old(self).size)
            },
    {
        let (buffer_id, create_buffer) = match self.pools.acquire() {
            Acquired::Reused(id) => (id, false),
            Acquired::Fresh(id) => (id, true),
            Acquired::Exhausted => {
                return None;
            },
        };
        let width = self.size.width as u32;
        let height = self.size.height as u32;
        Some(PresentPlan {
            buffer_id,
            create_buffer,
            device_id: self.device_id,
            queue_id: self.queue_id,
            bytes_per_row: self.buffer_stride,
            width,
            height,
            buffer_size: (self.buffer_stride as u64) * (height as u64),
        })
    }

    /// Publishes a frame read back from `buffer_id` and returns that buffer to
    /// *available*. Bytes that are not one whole frame are refused: nothing changes
    /// and `false` is returned.
    pub fn publish(&mut self, buffer_id: u64, bytes: Vec<u8>) -> (r: bool)
        requires
            old(self).wf(),
        ensures
            final(self).wf(),
            r == (bytes@.len() == frame_len(old(self).buffer_stride, old(self).size)),
            r ==> final(self).data@ == bytes@,
            !r ==> final(self).data == old(self).data,
            r && old(self).pools().queued.contains(buffer_id) ==> final(self).pools() == (
            crate::pool::PoolsView {
                unassigned: old(self).pools().unassigned,
                available: old(self).pools().available.push(buffer_id),
                queued: old(self).pools().queued.remove(
                    old(self).pools().queued.index_of(buffer_id),
                ),
            }),
            !(r && old(self).pools().queued.contains(buffer_id)) ==> final(self).pools()
                == old(self).pools(),
            final(self).size == old(self).size,
            final(self).buffer_stride == old(self).buffer_stride,
            final(self).device_id == old(self).device_id,
            final(self).queue_id == old(self).queue_id,
            final(self).image_key == old(self).image_key,
            final(self).image_desc == old(self).image_desc,
            final(self).external_image_id == old(self).external_image_id,
    {
        let expected: u64 = (self.buffer_stride as u64) * (self.size.height as u64);
        if bytes.len() as u64 != expected {
            return false;
        }
        self.data = bytes;
        self.pools.complete(buffer_id);
        true
    }

    /// Ends the surface: what its staging buffers ask of the backend and the allocator.
    pub fn release(self) -> (r: PoolRelease)
        ensures
            r.unmap_and_destroy@ == self.pools().queued,
            r.destroy@ == self.pools().available,
            r.recycle@ == self.pools().unassigned,
    {
        self.pools.release()
    }

    /// The number of staging identifiers the surface holds, in all states.
    pub fn buffers_in_use(&self) -> (r: usize)
        requires
            self.wf(),
        ensures
            r == self.pools().total(),
    {
        self.pools.in_use()
    }
}

} // verus!
