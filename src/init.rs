//! The aligned initializer: creates a buffer that already holds given bytes.
//!
//! The size of the new buffer is the requested size rounded up to a multiple
//! of the copy alignment, and at least one alignment unit; the bytes past the
//! contents are zero.

use vstd::prelude::*;

use crate::gpu::{
    copy_alignment, copy_buffer_alignment, create_buffer_filled, usage_accepted, usage_copy_dst,
    write_buffer, GpuBuffer,
};

verus! {

/// Smallest multiple of `align` that is at least `size`.
pub open spec fn align_up_spec(size: nat, align: nat) -> nat
    recommends
        align > 0,
{
    (((size + align - 1) / align as int) * align) as nat
}

/// Smallest multiple of `align` that is at least `size`, and at least `align`.
pub open spec fn padded_size_spec(size: nat, align: nat) -> nat
    recommends
        align > 0,
{
    let rounded = align_up_spec(size, align);
    if rounded < align { align } else { rounded }
}

/// `contents` followed by zeros up to `len` bytes.
pub open spec fn zero_filled(contents: Seq<u8>, len: nat) -> Seq<u8> {
    contents + Seq::new((len - contents.len()) as nat, |i: int| 0u8)
}

/// Rounds `size` up to a multiple of `align`.
pub fn align_up(size: u64, align: u64) -> (r: u64)
    requires
        align > 0,
        size + align - 1 <= u64::MAX,
    ensures
        r == align_up_spec(size as nat, align as nat),
        r % align == 0,
        r >= size,
        r < size + align,
{
    let q = (size + (align - 1)) / align;
    proof {
        assert(q * align <= size + align - 1) by (nonlinear_arith)
            requires q == (size + align - 1) / align as int, align > 0, size + align - 1 >= 0;
        assert(q * align > size - 1) by (nonlinear_arith)
            requires q == (size + align - 1) / align as int, align > 0, size + align - 1 >= 0;
        assert((q * align) % (align as int) == 0) by (nonlinear_arith)
            requires q >= 0, align > 0;
    }
    q * align
}

/// A size rounded up to the alignment stays within any aligned bound above it.
pub proof fn lemma_align_up_within(size: nat, align: nat, bound: nat)
    requires
        align > 0,
        size <= bound,
        bound % align == 0,
    ensures
        align_up_spec(size, align) <= bound,
{
    let q = (size + align - 1) / align as int;
    let k = bound as int / align as int;
    assert(bound == k * align) by (nonlinear_arith)
        requires k == bound as int / align as int, bound % align == 0, align > 0;
    assert(size + align - 1 < (k + 1) * align) by (nonlinear_arith)
        requires bound == k * align, size <= bound, align > 0;
    assert(q <= k) by (nonlinear_arith)
        requires q == (size + align - 1) / align as int, size + align - 1 < (k + 1) * align,
            align > 0, size + align - 1 >= 0;
    assert(q * align <= k * align) by (nonlinear_arith)
        requires q <= k, align > 0;
}

/// Rounds `size` up to a multiple of `align`, with one `align` as the least result.
pub fn padded_size(size: u64, align: u64) -> (r: u64)
    requires
        align > 0,
        size + align - 1 <= u64::MAX,
    ensures
        r == padded_size_spec(size as nat, align as nat),
        r % align == 0,
        r >= size,
        r >= align,
        r < size + align || r == align,
{
    let rounded = align_up(size, align);
    proof {
        assert((align as int) % (align as int) == 0) by (nonlinear_arith)
            requires align > 0;
    }
    if rounded < align { align } else { rounded }
}

/// The bytes of a new buffer of `len` bytes that starts with `contents`.
pub fn zero_filled_bytes(contents: &[u8], len: u64) -> (r: Vec<u8>)
    requires
        contents@.len() <= len,
        len <= usize::MAX,
    ensures
        r@ == zero_filled(contents@, len as nat),
        r@.len() == len,
{
    let mut r: Vec<u8> = Vec::with_capacity(len as usize);
    let mut i: usize = 0;
    while i < contents.len()
        invariant
            0 <= i <= contents@.len(),
            r@ == contents@.subrange(0, i as int),
        decreases contents@.len() - i,
    {
        r.push(contents[i]);
        i = i + 1;
    }
    assert(r@ == contents@);
    while (i as u64) < len
        invariant
            contents@.len() <= i <= len,
            len <= usize::MAX,
            r@ == zero_filled(contents@, i as nat),
        decreases len - i,
    {
        r.push(0u8);
        proof {
            assert(r@ =~= zero_filled(contents@, (i + 1) as nat));
        }
        i = i + 1;
    }
    r
}

/// Contents shorter than one alignment unit, and not empty, give a buffer of
/// exactly one unit: the contents, then zeros to the end.
pub proof fn lemma_short_contents_round_trip(contents: Seq<u8>, align: nat)
    requires
        0 < contents.len() < align,
    ensures
        padded_size_spec(contents.len(), align) == align,
        zero_filled(contents, align).len() == align,
        zero_filled(contents, align).subrange(0, contents.len() as int) == contents,
        forall|i: int|
            contents.len() <= i < align ==> #[trigger] zero_filled(contents, align)[i] == 0,
{
    let len = contents.len();
    assert((len + align - 1) / align as int == 1) by (nonlinear_arith)
        requires 0 < len < align;
    assert(zero_filled(contents, align).subrange(0, len as int) =~= contents);
}

/// The descriptor of a buffer created with contents, with an optional size
/// that is at least the length of the contents.
pub struct BufferInitDescriptor<'a> {
    /// Debug label of the buffer.
    pub label: Option<&'a str>,
    /// Contents of the buffer on creation.
    pub contents: &'a [u8],
    /// Size of the buffer; the length of `contents` when absent.
    pub size: Option<u64>,
    /// Usage bits of the buffer, those of `wgpu::BufferUsage`.
    pub usage: u32,
}

impl<'a> BufferInitDescriptor<'a> {
    /// The explicit size, if any, is not smaller than the contents.
    pub open spec fn is_valid(&self) -> bool {
        match self.size {
            Some(s) => self.contents@.len() <= s,
            None => true,
        }
    }

    /// The size the contents ask for before padding.
    pub open spec fn unpadded_size_spec(&self) -> nat {
        match self.size {
            Some(s) => s as nat,
            None => self.contents@.len(),
        }
    }

    /// The size of the buffer that the descriptor creates.
    pub open spec fn padded_size_spec(&self) -> nat {
        padded_size_spec(self.unpadded_size_spec(), copy_alignment())
    }

    /// The bytes of the buffer that the descriptor creates.
    pub open spec fn initial_bytes(&self) -> Seq<u8> {
        zero_filled(self.contents@, self.padded_size_spec())
    }

    /// A descriptor that can be created without overflow on this machine.
    pub open spec fn fits(&self) -> bool {
        self.unpadded_size_spec() + copy_alignment() <= usize::MAX
    }

    /// The size before padding; `None` when the explicit size is smaller than
    /// the contents, which is a caller's error.
    pub fn unpadded_size(&self) -> (r: Option<u64>)
        ensures
            r is None <==> !self.is_valid(),
            r is Some ==> r->0 == self.unpadded_size_spec(),
    {
        let contents_size = self.contents.len() as u64;
        match self.size {
            None => Some(contents_size),
            Some(specified) => if specified >= contents_size { Some(specified) } else { None },
        }
    }

    /// The exact bytes of the buffer that the descriptor creates.
    pub fn layout(&self) -> (r: Vec<u8>)
        requires
            self.is_valid(),
            self.fits(),
        ensures
            r@ == self.initial_bytes(),
            r@.len() == self.padded_size_spec(),
            r@.len() > 0,
            r@.len() % copy_alignment() == 0,
    {
        let unpadded = match self.unpadded_size() {
            Some(s) => s,
            None => 0,
        };
        let padded = padded_size(unpadded, copy_buffer_alignment());
        zero_filled_bytes(self.contents, padded)
    }
}

/// Writes `data` over the start of `buffer` through the queue, as a copy
/// padded with zeros to the copy alignment.
pub fn write_padded(queue: &wgpu::Queue, buffer: &mut GpuBuffer, data: &[u8])
    requires
        old(buffer).wf(),
        data@.len() <= old(buffer).capacity(),
        usage_copy_dst(old(buffer).usage()),
    ensures
        final(buffer).wf(),
        final(buffer).handle() == old(buffer).handle(),
        final(buffer).capacity() == old(buffer).capacity(),
        final(buffer).usage() == old(buffer).usage(),
        final(buffer).contents().subrange(0, data@.len() as int) == data@,
{
    proof {
        assert(data@.len() + copy_alignment() - 1 <= u64::MAX);
    }
    let len = align_up(data.len() as u64, copy_buffer_alignment());
    proof {
        lemma_align_up_within(data@.len(), copy_alignment(), buffer.capacity());
    }
    let bytes = zero_filled_bytes(data, len);
    write_buffer(queue, buffer, bytes.as_slice());
    assert(buffer.contents().subrange(0, data@.len() as int) =~= data@);
}

/// Creation of buffers that hold contents from the start.
pub trait DeviceExt {
    /// Creates a buffer of the padded size holding the contents, then zeros.
    fn create_buffer_init(&self, descriptor: &BufferInitDescriptor<'_>) -> (r: GpuBuffer)
        requires
            descriptor.is_valid(),
            descriptor.fits(),
            usage_accepted(descriptor.usage),
        ensures
            r.wf(),
            r.contents() == descriptor.initial_bytes(),
            r.capacity() == descriptor.padded_size_spec(),
            r.usage() == descriptor.usage,
    ;
}

impl DeviceExt for wgpu::Device {
    fn create_buffer_init(&self, descriptor: &BufferInitDescriptor<'_>) -> (r: GpuBuffer) {
        let bytes = descriptor.layout();
        create_buffer_filled(self, descriptor.label, descriptor.usage, bytes.as_slice())
    }
}

} // verus!
