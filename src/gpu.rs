//! The wgpu items this library relies on, declared for the verifier.
//!
//! The device, queue and raw buffer handles are opaque. A [`GpuBuffer`] pairs
//! a raw buffer with its size, its usage bits and a model of the bytes it
//! holds; only the wrappers of this module, which make the wgpu calls, create
//! or change one. Usage flags are kept as the bits of `wgpu::BufferUsage`.

use vstd::prelude::*;

verus! {

#[verifier::external_type_specification]
#[verifier::external_body]
pub struct ExDevice(wgpu::Device);

#[verifier::external_type_specification]
#[verifier::external_body]
pub struct ExQueue(wgpu::Queue);

#[verifier::external_type_specification]
#[verifier::external_body]
pub struct ExBuffer(wgpu::Buffer);

/// The alignment that wgpu demands of buffer sizes and copy sizes.
pub open spec fn copy_alignment() -> nat {
    4
}

/// The bits of `wgpu::BufferUsage`.
pub const MAP_READ: u32 = 1;
pub const MAP_WRITE: u32 = 2;
pub const COPY_SRC: u32 = 4;
pub const COPY_DST: u32 = 8;
pub const INDEX: u32 = 16;
pub const VERTEX: u32 = 32;
pub const UNIFORM: u32 = 64;
pub const STORAGE: u32 = 128;
pub const INDIRECT: u32 = 256;
/// Every bit that names a usage.
pub const ALL_USAGES: u32 = 511;

/// A usage that wgpu accepts for a new buffer on a device without native-only
/// features: not empty, and when it allows mapping, nothing but mapping for
/// writing and copying out, or mapping for reading and copying in.
pub open spec fn usage_accepted(usage: u32) -> bool {
    let u = usage & ALL_USAGES;
    &&& u != 0
    &&& (u & (MAP_READ | MAP_WRITE)) == 0 || (u | (MAP_WRITE | COPY_SRC)) == (MAP_WRITE
        | COPY_SRC) || (u | (MAP_READ | COPY_DST)) == (MAP_READ | COPY_DST)
}

/// A usage that allows writes through the queue.
pub open spec fn usage_copy_dst(usage: u32) -> bool {
    (usage & COPY_DST) == COPY_DST
}

/// Whether wgpu accepts `usage` for a new buffer.
pub fn usage_is_accepted(usage: u32) -> (r: bool)
    ensures
        r == usage_accepted(usage),
{
    let u = usage & ALL_USAGES;
    u != 0 && ((u & (MAP_READ | MAP_WRITE)) == 0 || (u | (MAP_WRITE | COPY_SRC)) == (MAP_WRITE
        | COPY_SRC) || (u | (MAP_READ | COPY_DST)) == (MAP_READ | COPY_DST))
}

/// Whether `usage` allows writes through the queue.
pub fn usage_has_copy_dst(usage: u32) -> (r: bool)
    ensures
        r == usage_copy_dst(usage),
{
    (usage & COPY_DST) == COPY_DST
}

/// A buffer on the device, with its size, usage and contents.
pub struct GpuBuffer {
    raw: wgpu::Buffer,
    size: u64,
    usage: u32,
    contents: Ghost<Seq<u8>>,
}

impl GpuBuffer {
    /// The wgpu handle.
    pub closed spec fn handle(&self) -> wgpu::Buffer {
        self.raw
    }

    /// The number of bytes that back the handle.
    pub closed spec fn capacity(&self) -> nat {
        self.size as nat
    }

    /// The usage bits the buffer was created with.
    pub closed spec fn usage(&self) -> u32 {
        self.usage
    }

    /// The bytes the buffer holds once the writes scheduled so far are done.
    pub closed spec fn contents(&self) -> Seq<u8> {
        self.contents@
    }

    /// Its contents span its capacity, a positive multiple of the alignment
    /// that is addressable on the host.
    pub open spec fn wf(&self) -> bool {
        &&& self.contents().len() == self.capacity()
        &&& 0 < self.capacity() <= usize::MAX
        &&& self.capacity() % copy_alignment() == 0
    }

    /// The number of bytes that back the handle.
    pub fn size(&self) -> (r: u64)
        ensures
            r == self.capacity(),
    {
        self.size
    }

    /// The usage bits the buffer was created with.
    pub fn usage_bits(&self) -> (r: u32)
        ensures
            r == self.usage(),
    {
        self.usage
    }

    /// The wgpu handle.
    pub fn raw(&self) -> (r: &wgpu::Buffer)
        ensures
            *r == self.handle(),
    {
        &self.raw
    }

    /// Gives up the size and contents for the wgpu handle.
    pub fn into_raw(self) -> (r: wgpu::Buffer)
        ensures
            r == self.handle(),
    {
        self.raw
    }
}

/// Relies on the constant `wgpu::COPY_BUFFER_ALIGNMENT`, which wgpu defines as 4.
#[verifier::external_body]
pub(crate) fn copy_buffer_alignment() -> (r: u64)
    ensures
        r == copy_alignment(),
{
    wgpu::COPY_BUFFER_ALIGNMENT
}

/// Relies on `wgpu::Device::create_buffer` with `mapped_at_creation: false`:
/// allocates a buffer of `size` bytes, which wgpu zero-initializes before
/// its first use. wgpu refuses a usage that `usage_accepted` leaves out.
#[verifier::external_body]
pub(crate) fn create_buffer(
    device: &wgpu::Device,
    label: Option<&str>,
    size: u64,
    usage: u32,
) -> (r: GpuBuffer)
    requires
        usage_accepted(usage),
        0 < size <= usize::MAX,
        (size as nat) % copy_alignment() == 0,
    ensures
        r.capacity() == size,
        r.usage() == usage,
        r.contents() == Seq::new(size as nat, |i: int| 0u8),
{
    let desc = wgpu::BufferDescriptor {
        label,
        size,
        usage: wgpu::BufferUsage::from_bits_truncate(usage),
        mapped_at_creation: false,
    };
    let contents = Ghost(Seq::new(size as nat, |i: int| 0u8));
    GpuBuffer { raw: device.create_buffer(&desc), size, usage, contents }
}

/// Relies on `wgpu::Device::create_buffer` with `mapped_at_creation: true`,
/// `wgpu::BufferSlice::get_mapped_range_mut` and `wgpu::Buffer::unmap`: a
/// buffer of exactly `bytes.len()` bytes is allocated mapped, `bytes` are copied
/// into its whole range, and it is unmapped. wgpu refuses a mapped creation
/// whose size is not a multiple of the copy alignment, and a usage that
/// `usage_accepted` leaves out.
#[verifier::external_body]
pub(crate) fn create_buffer_filled(
    device: &wgpu::Device,
    label: Option<&str>,
    usage: u32,
    bytes: &[u8],
) -> (r: GpuBuffer)
    requires
        usage_accepted(usage),
        bytes@.len() > 0,
        bytes@.len() % copy_alignment() == 0,
    ensures
        r.capacity() == bytes@.len(),
        r.usage() == usage,
        r.contents() == bytes@,
{
    let size = bytes.len() as wgpu::BufferAddress;
    let flags = wgpu::BufferUsage::from_bits_truncate(usage);
    let desc = wgpu::BufferDescriptor { label, size, usage: flags, mapped_at_creation: true };
    let raw = device.create_buffer(&desc);
    raw.slice(..).get_mapped_range_mut().copy_from_slice(bytes);
    raw.unmap();
    GpuBuffer { raw, size, usage, contents: Ghost(bytes@) }
}

/// Relies on `wgpu::Queue::write_buffer` at offset 0: schedules a copy of
/// `data` over the start of `buffer`. wgpu refuses a write whose size is not a
/// multiple of the copy alignment, one past the end of the buffer, and one
/// into a buffer without `COPY_DST`.
#[verifier::external_body]
pub(crate) fn write_buffer(queue: &wgpu::Queue, buffer: &mut GpuBuffer, data: &[u8])
    requires
        data@.len() % copy_alignment() == 0,
        data@.len() <= old(buffer).capacity(),
        usage_copy_dst(old(buffer).usage()),
    ensures
        final(buffer).handle() == old(buffer).handle(),
        final(buffer).capacity() == old(buffer).capacity(),
        final(buffer).usage() == old(buffer).usage(),
        final(buffer).contents() == data@ + old(buffer).contents().subrange(
            data@.len() as int,
            old(buffer).contents().len() as int,
        ),
{
    queue.write_buffer(&buffer.raw, 0, data)
}

} // verus!
