//! Pending buffer mappings: a registry from buffer identifier to how the result of
//! the mapping is delivered, filled before the backend is asked to map and consumed
//! when its completion comes back.
use std::collections::HashMap;
use vstd::prelude::*;

verus! {

broadcast use vstd::std_specs::hash::group_hash_axioms;

/// Where the bytes of a finished mapping go.
pub enum MapReply<R> {
    /// Straight back to the requester, through its reply endpoint.
    Direct(R),
    /// Back into the actor's own queue, to be published for surface `external_id`.
    Present { external_id: u64 },
}

pub struct BufferMapInfo<R> {
    pub buffer_id: u64,
    pub reply: MapReply<R>,
    pub size: usize,
}

/// The key under which a pending mapping is found again when the backend reports
/// its completion: the callback is handed this value and looks the entry up by it.
pub fn convert_to_pointer<R>(info: &BufferMapInfo<R>) -> (r: u64)
    ensures
        r == info.buffer_id,
{
    info.buffer_id
}

/// What the completion of a mapping calls for.
#[derive(Clone, Copy, Debug, PartialEq, Eq, Structural)]
pub enum MapCompletion {
    /// No mapping was pending on that buffer.
    Unknown,
    /// Send `size` mapped bytes to the requester; the entry stays until it is consumed.
    Reply { buffer_id: u64, size: usize },
    /// Re-inject a publish of `size` bytes of `buffer_id` for surface `external_id`.
    Publish { buffer_id: u64, external_id: u64, size: usize },
    /// The mapping failed: the entry is dropped and nothing is delivered.
    Failed { buffer_id: u64 },
}

pub struct PendingMaps<R> {
    pub entries: HashMap<u64, BufferMapInfo<R>>,
}

impl<R> PendingMaps<R> {
    /// Each entry sits under its own buffer's identifier.
    pub open spec fn wf(&self) -> bool {
        forall|k: u64| #[trigger] self.entries@.contains_key(k) ==> self.entries@[k].buffer_id == k
    }

    pub fn new() -> (r: Self)
        ensures
            r.wf(),
            r.entries@ == Map::<u64, BufferMapInfo<R>>::empty(),
    {
        PendingMaps { entries: HashMap::new() }
    }

    /// Whether a mapping of `buffer_id` is pending.
    pub fn contains(&self, buffer_id: u64) -> (r: bool)
        ensures
            r == self.entries@.contains_key(buffer_id),
    {
        self.entries.contains_key(&buffer_id)
    }

    /// Records a mapping before it is issued. A buffer with a mapping already pending
    /// is refused: nothing changes and `false` is returned.
    pub fn register(&mut self, info: BufferMapInfo<R>) -> (r: bool)
        requires
            old(self).wf(),
        ensures
            final(self).wf(),
            r == !old(self).entries@.contains_key(info.buffer_id),
            r ==> final(self).entries@ == old(self).entries@.insert(info.buffer_id, info),
            !r ==> final(self).entries@ == old(self).entries@,
    {
        let id = info.buffer_id;
        if self.entries.contains_key(&id) {
            return false;
        }
        self.entries.insert(id, info);
        true
    }

    /// The backend reports that the mapping of `buffer_id` finished, or failed.
    /// A direct mapping that succeeded stays registered until it is consumed; a
    /// present mapping is handed on to be published, and a failed one is dropped.
    pub fn complete(&mut self, buffer_id: u64, success: bool) -> (r: MapCompletion)
        requires
            old(self).wf(),
        ensures
            final(self).wf(),
            !old(self).entries@.contains_key(buffer_id) ==> r == MapCompletion::Unknown
                && final(self).entries@ == old(self).entries@,
            old(self).entries@.contains_key(buffer_id) && !success ==> r == (MapCompletion::Failed {
                buffer_id,
            }) && final(self).entries@ == old(self).entries@.remove(buffer_id),
            old(self).entries@.contains_key(buffer_id) && success ==> {
                let info = old(self).entries@[buffer_id];
                match info.reply {
                    MapReply::Direct(_) => r == (MapCompletion::Reply {
                        buffer_id,
                        size: info.size,
                    }) && final(self).entries@ == old(self).entries@,
                    MapReply::Present { external_id } => r == (MapCompletion::Publish {
                        buffer_id,
                        external_id,
                        size: info.size,
                    }) && final(self).entries@ == old(self).entries@,
                }
            },
    {
        let r = match self.entries.get(&buffer_id) {
            None => {
                return MapCompletion::Unknown;
            },
            Some(info) => {
                if !success {
                    MapCompletion::Failed { buffer_id }
                } else {
                    match &info.reply {
                        MapReply::Direct(_) => MapCompletion::Reply { buffer_id, size: info.size },
                        MapReply::Present { external_id } => MapCompletion::Publish {
                            buffer_id,
                            external_id: *external_id,
                            size: info.size,
                        },
                    }
                }
            },
        };
        if !success {
            self.entries.remove(&buffer_id);
        }
        r
    }

    /// The reply endpoint of a pending direct mapping of `buffer_id`.
    pub fn reply_for(&self, buffer_id: u64) -> (r: Option<&R>)
        ensures
            r matches Some(to) ==> self.entries@.contains_key(buffer_id)
                && self.entries@[buffer_id].reply == MapReply::Direct(*to),
            r.is_none() ==> !self.entries@.contains_key(buffer_id)
                || self.entries@[buffer_id].reply is Present,
    {
        match self.entries.get(&buffer_id) {
            Some(info) => match &info.reply {
                MapReply::Direct(to) => Some(to),
                MapReply::Present { .. } => None,
            },
            None => None,
        }
    }

    /// The requester is done with the mapping of `buffer_id`: its entry is dropped.
    /// Returns whether there was one.
    pub fn consume(&mut self, buffer_id: u64) -> (r: bool)
        requires
            old(self).wf(),
        ensures
            final(self).wf(),
            r == old(self).entries@.contains_key(buffer_id),
            final(self).entries@ == old(self).entries@.remove(buffer_id),
    {
        self.entries.remove(&buffer_id).is_some()
    }
}

} // verus!
