//! Growable and pooled GPU buffers on top of wgpu.
//!
//! A [`DynamicBuffer`] owns one buffer and reallocates it when new contents
//! do not fit; a [`BufferPool`] recycles a list of buffers across upload
//! cycles. Every buffer created with contents goes through the aligned
//! initializer of [`init`].

pub mod gpu;
pub mod init;
pub mod sized;
pub mod dynamic;
pub mod pool;
pub mod label;

pub use dynamic::{reserve_function, BufferDescriptor, DynamicBuffer};
pub use gpu::{
    usage_has_copy_dst, usage_is_accepted, GpuBuffer, ALL_USAGES, COPY_DST, COPY_SRC, INDEX,
    INDIRECT, MAP_READ, MAP_WRITE, STORAGE, UNIFORM, VERTEX,
};
pub use init::{align_up, padded_size, write_padded, zero_filled_bytes, BufferInitDescriptor, DeviceExt};
pub use label::{as_label, to_owned_label, OwnedLabel};
pub use pool::{BufferPool, BufferPoolDescriptor};
pub use sized::{resize_write_buffer, BufferResizeWriteDescriptor, SizedBuffer};
