//! Buffers paired with their size, and the write-or-reallocate step on them.

use vstd::prelude::*;

use crate::gpu::{copy_alignment, usage_accepted, usage_copy_dst, GpuBuffer};
use crate::init::{padded_size_spec, write_padded, zero_filled, BufferInitDescriptor, DeviceExt};

verus! {

/// A buffer together with the number of bytes that back it.
pub struct SizedBuffer {
    pub size: u64,
    pub buffer: GpuBuffer,
}

impl SizedBuffer {
    pub fn new(size: u64, buffer: GpuBuffer) -> (r: Self)
        ensures
            r.size == size,
            r.buffer == buffer,
    {
        Self { size, buffer }
    }

    /// The size is the capacity of the buffer.
    pub open spec fn wf(&self) -> bool {
        &&& self.buffer.wf()
        &&& self.size == self.buffer.capacity()
    }
}

/// What `resize_write_buffer` writes, and how a replacement buffer is made.
pub struct BufferResizeWriteDescriptor<'a> {
    pub label: Option<&'a str>,
    pub contents: &'a [u8],
    /// Usage bits of a replacement buffer, those of `wgpu::BufferUsage`.
    pub usage: u32,
}

/// The contents fit into a buffer of `capacity` bytes without reallocation.
pub open spec fn fits_in_place(len: nat, capacity: nat) -> bool {
    len <= capacity
}

/// The inputs on which the write-or-reallocate step can run: a write in place
/// needs a buffer that takes queue writes, a replacement a usage that wgpu
/// accepts and a size that is addressable.
pub open spec fn resize_write_allowed(buffer: SizedBuffer, len: nat, usage: u32) -> bool {
    &&& buffer.wf()
    &&& fits_in_place(len, buffer.size as nat) ==> usage_copy_dst(buffer.buffer.usage())
    &&& !fits_in_place(len, buffer.size as nat) ==> usage_accepted(usage)
    &&& len + copy_alignment() <= usize::MAX
}

/// What the write-or-reallocate step of `data` turns `buffer` into: the same
/// buffer with `data` written over its start, or a new buffer of the padded
/// length of `data` holding `data` and then zeros.
pub open spec fn resize_write_result(
    buffer: SizedBuffer,
    data: Seq<u8>,
    usage: u32,
    r: SizedBuffer,
) -> bool {
    &&& r.wf()
    &&& if fits_in_place(data.len(), buffer.size as nat) {
        &&& r.size == buffer.size
        &&& r.buffer.handle() == buffer.buffer.handle()
        &&& r.buffer.usage() == buffer.buffer.usage()
        &&& r.buffer.contents().subrange(0, data.len() as int) == data
    } else {
        &&& r.size == padded_size_spec(data.len(), copy_alignment())
        &&& r.buffer.usage() == usage
        &&& r.buffer.contents() == zero_filled(data, r.size as nat)
    }
}

/// Writes the contents into `buffer` when they fit; otherwise creates a new
/// buffer sized to the contents and returns it in place of the old one.
pub fn resize_write_buffer(
    device: &wgpu::Device,
    queue: &wgpu::Queue,
    buffer: SizedBuffer,
    descriptor: &BufferResizeWriteDescriptor,
) -> (r: SizedBuffer)
    requires
        resize_write_allowed(buffer, descriptor.contents@.len(), descriptor.usage),
    ensures
        resize_write_result(buffer, descriptor.contents@, descriptor.usage, r),
{
    let contents_size = descriptor.contents.len() as u64;
    if contents_size <= buffer.size {
        let mut buffer = buffer;
        write_padded(queue, &mut buffer.buffer, descriptor.contents);
        buffer
    } else {
        let init = BufferInitDescriptor {
            label: descriptor.label,
            contents: descriptor.contents,
            size: None,
            usage: descriptor.usage,
        };
        let new = device.create_buffer_init(&init);
        SizedBuffer::new(new.size(), new)
    }
}

} // verus!
