//! A pool of buffers reused across upload cycles.
//!
//! Each cycle uploads into the slots in order, starting at the first; `clear`
//! starts a new cycle. A slot keeps its buffer and capacity from one cycle to
//! the next, and is reallocated only when the new contents do not fit.

use vstd::prelude::*;

use crate::gpu::{copy_alignment, usage_accepted, usage_copy_dst};
use crate::init::{padded_size_spec, zero_filled, BufferInitDescriptor, DeviceExt};
use crate::label::{as_label, label_view, owned_label_view, to_owned_label, OwnedLabel};
use crate::sized::{
    fits_in_place, resize_write_allowed, resize_write_buffer, resize_write_result,
    BufferResizeWriteDescriptor, SizedBuffer,
};

verus! {

/// Relies on `replace_with::replace_with_or_abort`: it moves the value out of
/// `dest`, calls `f` on it and stores the result back; the process aborts
/// instead if `f` panics.
pub assume_specification<T, F: FnOnce(T) -> T>[ replace_with::replace_with_or_abort::<T, F> ](
    dest: &mut T,
    f: F,
)
    requires
        call_requires(f, (*old(dest),)),
    ensures
        call_ensures(f, (*old(dest),), *final(dest)),
;

/// Descriptor of a [`BufferPool`].
pub struct BufferPoolDescriptor<'a> {
    /// Label given to every buffer of the pool.
    pub label: Option<&'a str>,
    /// Usage bits of every buffer of the pool, those of `wgpu::BufferUsage`.
    pub usage: u32,
}

/// A list of buffers ("slots") and the number of them in use this cycle.
pub struct BufferPool {
    buffers: Vec<SizedBuffer>,
    occupied: usize,
    label: OwnedLabel,
    usage: u32,
}

impl BufferPool {
    /// The slots, vacant ones included.
    pub closed spec fn slots(&self) -> Seq<SizedBuffer> {
        self.buffers@
    }

    /// The number of slots in use this cycle.
    pub closed spec fn occupied_spec(&self) -> nat {
        self.occupied as nat
    }

    /// The label given to every buffer the pool creates.
    pub closed spec fn label(&self) -> Option<Seq<char>> {
        owned_label_view(&self.label)
    }

    /// The usage bits given to every buffer the pool creates.
    pub closed spec fn usage(&self) -> u32 {
        self.usage
    }

    /// The slots in use are a prefix of the slots, and every slot is a sized
    /// buffer created with the pool's usage.
    pub open spec fn wf(&self) -> bool {
        &&& self.occupied_spec() <= self.slots().len()
        &&& usage_accepted(self.usage())
        &&& forall|j: int|
            0 <= j < self.slots().len() ==> {
                &&& (#[trigger] self.slots()[j]).wf()
                &&& self.slots()[j].buffer.usage() == self.usage()
            }
    }

    /// The inputs on which `upload` can run: a write into a reused slot needs
    /// a usage that takes queue writes, and a new buffer must be addressable.
    pub open spec fn upload_allowed(&self, len: nat) -> bool {
        &&& self.occupied_spec() < self.slots().len() && fits_in_place(
            len,
            self.slots()[self.occupied_spec() as int].size as nat,
        ) ==> usage_copy_dst(self.usage())
        &&& len + copy_alignment() <= usize::MAX
    }

    /// What an upload of `data` that returned `r` leaves, from `self` to `next`.
    pub open spec fn upload_result(&self, next: &Self, data: Seq<u8>, r: usize) -> bool {
        let i = self.occupied_spec() as int;
        &&& next.wf()
        &&& r == self.occupied_spec() + 1
        &&& next.occupied_spec() == r
        &&& next.label() == self.label()
        &&& next.usage() == self.usage()
        &&& if i < self.slots().len() {
            &&& next.slots().len() == self.slots().len()
            &&& forall|j: int| 0 <= j < self.slots().len() && j != i ==> next.slots()[j]
                == self.slots()[j]
            &&& resize_write_result(self.slots()[i], data, self.usage(), next.slots()[i])
        } else {
            let size = padded_size_spec(data.len(), copy_alignment());
            &&& next.slots().len() == self.slots().len() + 1
            &&& next.slots().subrange(0, i) == self.slots()
            &&& next.slots()[i].size == size
            &&& next.slots()[i].buffer.contents() == zero_filled(data, size)
        }
    }

    /// What `clear` leaves, from `self` to `next`.
    pub open spec fn clear_result(&self, next: &Self) -> bool {
        &&& next.wf()
        &&& next.occupied_spec() == 0
        &&& next.slots() == self.slots()
        &&& next.label() == self.label()
        &&& next.usage() == self.usage()
    }

    /// Creates a pool without slots.
    pub fn new(descriptor: &BufferPoolDescriptor) -> (r: Self)
        requires
            usage_accepted(descriptor.usage),
        ensures
            r.wf(),
            r.slots().len() == 0,
            r.occupied_spec() == 0,
            r.label() == label_view(descriptor.label),
            r.usage() == descriptor.usage,
    {
        Self {
            buffers: Vec::new(),
            occupied: 0,
            label: to_owned_label(descriptor.label),
            usage: descriptor.usage,
        }
    }

    /// Uploads `data` into the next vacant slot, creating one when none is
    /// left, and returns the number of slots in use afterwards.
    pub fn upload(&mut self, device: &wgpu::Device, queue: &wgpu::Queue, data: &[u8]) -> (r:
        usize)
        requires
            old(self).wf(),
            old(self).upload_allowed(data@.len()),
        ensures
            old(self).upload_result(final(self), data@, r),
    {
        if self.occupied < self.buffers.len() {
            let i = self.occupied;
            let usage = self.usage;
            let ghost payload = data@;
            {
                let label = as_label(&self.label);
                let descriptor = BufferResizeWriteDescriptor { label, contents: data, usage };
                let write = |buffer: SizedBuffer| -> (r: SizedBuffer)
                    requires
                        resize_write_allowed(buffer, payload.len(), usage),
                    ensures
                        resize_write_result(buffer, payload, usage, r),
                    { resize_write_buffer(device, queue, buffer, &descriptor) };
                replace_with::replace_with_or_abort(&mut self.buffers[i], write);
            }
            self.occupied = self.occupied + 1;
            self.occupied
        } else {
            let buffer = self.create_buffer(device, data);
            self.buffers.push(buffer);
            // The cursor stood at the end, so it moves to the new slot count.
            let slot_count = self.buffers.len();
            proof {
                assert(self.buffers@.subrange(0, self.occupied as int) =~= old(self).buffers@);
            }
            self.occupied = slot_count;
            self.occupied
        }
    }

    /// Starts a new cycle: every slot becomes vacant and reusable.
    pub fn clear(&mut self)
        requires
            old(self).wf(),
        ensures
            old(self).clear_result(final(self)),
    {
        self.occupied = 0;
    }

    /// The wgpu handle of slot `i`, if the slot is in use this cycle.
    pub fn get(&self, i: usize) -> (r: Option<&wgpu::Buffer>)
        requires
            self.wf(),
        ensures
            i < self.occupied_spec() ==> r == Some(&self.slots()[i as int].buffer.handle()),
            i >= self.occupied_spec() ==> r is None,
    {
        if i < self.occupied {
            Some(self.buffers[i].buffer.raw())
        } else {
            None
        }
    }

    /// The wgpu handle of slot `i`, in use or vacant.
    pub fn get_any(&self, i: usize) -> (r: Option<&wgpu::Buffer>)
        ensures
            i < self.slots().len() ==> r == Some(&self.slots()[i as int].buffer.handle()),
            i >= self.slots().len() ==> r is None,
    {
        if i < self.buffers.len() {
            Some(self.buffers[i].buffer.raw())
        } else {
            None
        }
    }

    /// The number of slots, in use and vacant.
    pub fn size(&self) -> (r: usize)
        ensures
            r == self.slots().len(),
    {
        self.buffers.len()
    }

    /// The number of slots in use this cycle.
    pub fn occupied(&self) -> (r: usize)
        ensures
            r == self.occupied_spec(),
    {
        self.occupied
    }

    /// A new slot holding `data`, then zeros to the padded length of `data`.
    fn create_buffer(&self, device: &wgpu::Device, data: &[u8]) -> (r: SizedBuffer)
        requires
            usage_accepted(self.usage()),
            data@.len() + copy_alignment() <= usize::MAX,
        ensures
            r.wf(),
            r.size == padded_size_spec(data@.len(), copy_alignment()),
            r.buffer.contents() == zero_filled(data@, r.size as nat),
            r.buffer.usage() == self.usage(),
    {
        let descriptor = BufferInitDescriptor {
            label: as_label(&self.label),
            contents: data,
            usage: self.usage,
            size: None,
        };
        let buffer = device.create_buffer_init(&descriptor);
        SizedBuffer::new(buffer.size(), buffer)
    }
}

/// Two uploads into an empty pool create slots 1 and 2; after `clear`, an
/// upload that fits into the first slot lands there again: it keeps the slot's
/// buffer and capacity, writes the data over its start, and leaves only that
/// slot in use.
pub proof fn lemma_cycle_reuses_first_slot(
    p0: BufferPool,
    p1: BufferPool,
    p2: BufferPool,
    p3: BufferPool,
    p4: BufferPool,
    first: Seq<u8>,
    second: Seq<u8>,
    third: Seq<u8>,
    r1: usize,
    r2: usize,
    r4: usize,
)
    requires
        p0.wf(),
        p0.slots().len() == 0,
        p0.upload_result(&p1, first, r1),
        p1.upload_result(&p2, second, r2),
        p2.clear_result(&p3),
        p3.upload_result(&p4, third, r4),
        third.len() <= first.len(),
    ensures
        r1 == 1,
        r2 == 2,
        p2.slots().len() == 2,
        p2.slots()[0].size >= first.len(),
        r4 == 1,
        p4.occupied_spec() == 1,
        p4.slots().len() == 2,
        p4.slots()[0].buffer.handle() == p2.slots()[0].buffer.handle(),
        p4.slots()[0].size == p2.slots()[0].size,
        p4.slots()[0].buffer.contents().subrange(0, third.len() as int) == third,
        p4.slots()[1] == p2.slots()[1],
{
    assert(p1.slots()[0] == p2.slots().subrange(0, 1)[0]);
    assert(padded_size_spec(first.len(), copy_alignment()) >= first.len()) by (nonlinear_arith);
}

} // verus!
