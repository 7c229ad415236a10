//! A buffer that grows when new contents do not fit.

use vstd::prelude::*;

use crate::gpu::{
    copy_alignment, copy_buffer_alignment, create_buffer, usage_accepted, usage_copy_dst, GpuBuffer,
};
use crate::init::{
    padded_size, padded_size_spec, write_padded, zero_filled, BufferInitDescriptor, DeviceExt,
};
use crate::label::{as_label, label_view, owned_label_view, to_owned_label, OwnedLabel};

verus! {

/// The size reserved on reallocation, from the size before it: its square.
pub open spec fn growth(last_size: nat) -> nat {
    last_size * last_size
}

/// The reserve size of a reallocation after a buffer of `last_size` bytes.
pub fn reserve_function(last_size: u64) -> (r: u64)
    requires
        growth(last_size as nat) <= u64::MAX,
    ensures
        r == growth(last_size as nat),
{
    last_size * last_size
}

/// The squaring growth leaves sizes 0 and 1 where they are.
pub proof fn lemma_growth_fixed_points()
    ensures
        growth(0) == 0,
        growth(1) == 1,
{
}

/// The descriptor of an empty buffer. The buffer is always created unmapped:
/// the structure writes to it through the queue only.
pub struct BufferDescriptor<'a> {
    /// Debug label of the buffer.
    pub label: Option<&'a str>,
    /// Size of the buffer in bytes.
    pub size: u64,
    /// Usage bits of the buffer, those of `wgpu::BufferUsage`.
    pub usage: u32,
}

/// A buffer that is reallocated, with reserve, when the contents outgrow it.
pub struct DynamicBuffer {
    raw: GpuBuffer,
    label: OwnedLabel,
    size: u64,
    usage: u32,
}

impl DynamicBuffer {
    /// The buffer currently owned.
    pub closed spec fn buffer(&self) -> GpuBuffer {
        self.raw
    }

    /// The logical size: the length of the last contents written, or the size
    /// the buffer was created with.
    pub closed spec fn size(&self) -> nat {
        self.size as nat
    }

    /// The label given to every buffer created for the structure.
    pub closed spec fn label(&self) -> Option<Seq<char>> {
        owned_label_view(&self.label)
    }

    /// The usage bits given to every buffer created for the structure.
    pub closed spec fn usage(&self) -> u32 {
        self.usage
    }

    /// The logical size never exceeds what backs the buffer, which was created
    /// with the structure's usage.
    pub open spec fn wf(&self) -> bool {
        &&& self.buffer().wf()
        &&& self.size() <= self.buffer().capacity()
        &&& self.buffer().usage() == self.usage()
        &&& usage_accepted(self.usage())
    }

    /// The inputs on which a reallocation with reserve can run: the reserve
    /// holds the data (a smaller explicit size is a caller's error) and is
    /// addressable.
    pub open spec fn reallocation_allowed(&self, len: nat) -> bool {
        &&& growth(self.size()) <= u64::MAX
        &&& len <= growth(self.size())
        &&& growth(self.size()) + copy_alignment() <= usize::MAX
    }

    /// The inputs on which `upload` can run: a write in place needs a buffer
    /// that takes queue writes.
    pub open spec fn upload_allowed(&self, len: nat) -> bool {
        &&& len < self.size() ==> usage_copy_dst(self.usage())
        &&& len >= self.size() ==> self.reallocation_allowed(len)
    }

    /// What a write in place of `data` leaves, from `self` to `next`.
    pub open spec fn written_in_place(&self, next: &Self, data: Seq<u8>) -> bool {
        &&& next.wf()
        &&& next.size() == data.len()
        &&& next.buffer().handle() == self.buffer().handle()
        &&& next.buffer().capacity() == self.buffer().capacity()
        &&& next.buffer().contents().subrange(0, data.len() as int) == data
        &&& next.label() == self.label()
        &&& next.usage() == self.usage()
    }

    /// What a reallocation with `data` leaves, from `self` to `next`: a new
    /// buffer of the padded growth of the old size, holding `data` then zeros.
    pub open spec fn reallocated(&self, next: &Self, data: Seq<u8>) -> bool {
        let capacity = padded_size_spec(growth(self.size()), copy_alignment());
        &&& next.wf()
        &&& next.size() == data.len()
        &&& next.buffer().capacity() == capacity
        &&& next.buffer().contents() == zero_filled(data, capacity)
        &&& next.label() == self.label()
        &&& next.usage() == self.usage()
    }

    /// Creates a buffer of the size that `descriptor` gives, rounded up to the
    /// copy alignment; wgpu fills it with zeros.
    pub fn new(device: &wgpu::Device, descriptor: &BufferDescriptor) -> (r: Self)
        requires
            usage_accepted(descriptor.usage),
            descriptor.size + copy_alignment() <= usize::MAX,
        ensures
            r.wf(),
            r.size() == descriptor.size,
            r.buffer().capacity() == padded_size_spec(descriptor.size as nat, copy_alignment()),
            r.buffer().contents() == Seq::new(r.buffer().capacity(), |i: int| 0u8),
            r.label() == label_view(descriptor.label),
            r.usage() == descriptor.usage,
    {
        let capacity = padded_size(descriptor.size, copy_buffer_alignment());
        let raw = create_buffer(device, descriptor.label, capacity, descriptor.usage);
        Self {
            raw,
            label: to_owned_label(descriptor.label),
            size: descriptor.size,
            usage: descriptor.usage,
        }
    }

    /// Creates a buffer holding the contents of `descriptor`; its logical size
    /// is the length of the contents.
    pub fn new_init(device: &wgpu::Device, descriptor: &BufferInitDescriptor) -> (r: Self)
        requires
            descriptor.is_valid(),
            descriptor.fits(),
            usage_accepted(descriptor.usage),
        ensures
            r.wf(),
            r.size() == descriptor.contents@.len(),
            r.buffer().contents() == descriptor.initial_bytes(),
            r.label() == label_view(descriptor.label),
            r.usage() == descriptor.usage,
    {
        let raw = device.create_buffer_init(descriptor);
        proof {
            assert(descriptor.contents@.len() <= descriptor.unpadded_size_spec());
            assert(padded_size_spec(descriptor.unpadded_size_spec(), copy_alignment())
                >= descriptor.unpadded_size_spec()) by (nonlinear_arith);
        }
        Self {
            raw,
            label: to_owned_label(descriptor.label),
            size: descriptor.contents.len() as u64,
            usage: descriptor.usage,
        }
    }

    /// Uploads `data`, reallocating the buffer when it is not shorter than the
    /// logical size.
    pub fn upload(&mut self, device: &wgpu::Device, queue: &wgpu::Queue, data: &[u8])
        requires
            old(self).wf(),
            old(self).upload_allowed(data@.len()),
        ensures
            data@.len() < old(self).size() ==> old(self).written_in_place(final(self), data@),
            data@.len() >= old(self).size() ==> old(self).reallocated(final(self), data@),
    {
        if self.try_upload(queue, data).is_err() {
            self.upload_by_init(device, data)
        }
    }

    /// Uploads `data` through the queue without reallocating; fails with the
    /// missing number of bytes when `data` is not shorter than the buffer.
    pub fn try_upload(&mut self, queue: &wgpu::Queue, data: &[u8]) -> (r: Result<(), u64>)
        requires
            old(self).wf(),
            data@.len() < old(self).size() ==> usage_copy_dst(old(self).usage()),
        ensures
            data@.len() < old(self).size() ==> {
                &&& r is Ok
                &&& old(self).written_in_place(final(self), data@)
            },
            data@.len() >= old(self).size() ==> {
                &&& r == Err::<(), u64>((data@.len() - old(self).size()) as u64)
                &&& *final(self) == *old(self)
            },
    {
        let data_len = data.len() as u64;
        if data_len < self.size {
            write_padded(queue, &mut self.raw, data);
            self.size = data_len;
            Ok(())
        } else {
            Err(data_len - self.size)
        }
    }

    /// Replaces the buffer with a new one that holds `data` and reserves the
    /// growth of the current size.
    pub fn upload_by_init(&mut self, device: &wgpu::Device, data: &[u8])
        requires
            old(self).wf(),
            old(self).reallocation_allowed(data@.len()),
        ensures
            old(self).reallocated(final(self), data@),
    {
        let reserve = reserve_function(self.size);
        let descriptor = BufferInitDescriptor {
            label: as_label(&self.label),
            contents: data,
            size: Some(reserve),
            usage: self.usage,
        };
        let raw = device.create_buffer_init(&descriptor);
        proof {
            assert(padded_size_spec(reserve as nat, copy_alignment()) >= reserve) by (nonlinear_arith);
        }
        self.raw = raw;
        self.size = data.len() as u64;
    }

    /// The wgpu handle of the buffer currently owned.
    pub fn raw(&self) -> (r: &wgpu::Buffer)
        ensures
            *r == self.buffer().handle(),
    {
        self.raw.raw()
    }

    /// Gives up the structure for the wgpu handle of its buffer.
    pub fn into_raw(self) -> (r: wgpu::Buffer)
        ensures
            r == self.buffer().handle(),
    {
        self.raw.into_raw()
    }
}

} // verus!
