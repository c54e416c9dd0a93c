use vstd::bytes::{spec_u32_from_le_bytes, spec_u64_from_le_bytes, u32_from_le_bytes, u64_from_le_bytes};
use vstd::prelude::*;
use vstd::slice::slice_subrange;

verus! {

// Byte layout of one frame record's header, little-endian, followed directly by
// the payload. The record's total size is stored in `bytes_of_frame` and is also
// the distance to the next record.
pub const FRAME_ID_AT: usize = 0;
pub const HARDWARE_FRAME_ID_AT: usize = 8;
pub const DIMS_AT: usize = 16;
pub const STRIDES_AT: usize = 32;
pub const SAMPLE_TAG_AT: usize = 64;
pub const TS_HARDWARE_AT: usize = 72;
pub const TS_ACQ_THREAD_AT: usize = 80;
pub const BYTES_OF_FRAME_AT: usize = 88;
/// Size of the fixed header; the payload starts here.
pub const HEADER_SIZE: usize = 96;

/// The little-endian `u32` stored at `off`.
pub open spec fn u32_at(b: Seq<u8>, off: int) -> u32 {
    spec_u32_from_le_bytes(b.subrange(off, off + 4))
}

/// The little-endian `u64` stored at `off`.
pub open spec fn u64_at(b: Seq<u8>, off: int) -> u64 {
    spec_u64_from_le_bytes(b.subrange(off, off + 8))
}

/// The stride (total record size) of the record that starts at `pos`.
pub open spec fn stride_at(b: Seq<u8>, pos: int) -> u32 {
    u32_at(b, pos + BYTES_OF_FRAME_AT)
}

pub fn read_u32(b: &[u8], off: usize) -> (r: u32)
    requires
        off + 4 <= b@.len(),
    ensures
        r == u32_at(b@, off as int),
{
    assert(b@.len() == b.len());
    u32_from_le_bytes(slice_subrange(b, off, off + 4))
}

pub fn read_u64(b: &[u8], off: usize) -> (r: u64)
    requires
        off + 8 <= b@.len(),
    ensures
        r == u64_at(b@, off as int),
{
    assert(b@.len() == b.len());
    u64_from_le_bytes(slice_subrange(b, off, off + 8))
}

/// Capture times of one frame.
#[derive(Debug, Clone, Copy, PartialEq, Eq, Structural)]
pub struct FrameTimestamps {
    pub hardware: u64,
    pub acq_thread: u64,
}

/// Identity and capture times of one frame.
#[derive(Debug, Clone, Copy, PartialEq, Eq, Structural)]
pub struct FrameMetadata {
    pub frame_id: u64,
    pub hardware_frame_id: u64,
    pub timestamps: FrameTimestamps,
}

/// The shape descriptor embedded in a record: dimensions, their strides, and
/// the raw sample-type tag, all as stored.
#[derive(Debug, Clone, Copy, PartialEq, Eq, Structural)]
pub struct ShapeDescriptor {
    pub channels: u32,
    pub width: u32,
    pub height: u32,
    pub planes: u32,
    pub channel_stride: i64,
    pub width_stride: i64,
    pub height_stride: i64,
    pub plane_stride: i64,
    pub sample_tag: u32,
}

/// The metadata stored in the header of the record at `pos`.
pub open spec fn metadata_at(b: Seq<u8>, pos: int) -> FrameMetadata {
    FrameMetadata {
        frame_id: u64_at(b, pos + FRAME_ID_AT),
        hardware_frame_id: u64_at(b, pos + HARDWARE_FRAME_ID_AT),
        timestamps: FrameTimestamps {
            hardware: u64_at(b, pos + TS_HARDWARE_AT),
            acq_thread: u64_at(b, pos + TS_ACQ_THREAD_AT),
        },
    }
}

/// The shape descriptor stored in the header of the record at `pos`.
pub open spec fn shape_at(b: Seq<u8>, pos: int) -> ShapeDescriptor {
    ShapeDescriptor {
        channels: u32_at(b, pos + DIMS_AT),
        width: u32_at(b, pos + DIMS_AT + 4),
        height: u32_at(b, pos + DIMS_AT + 8),
        planes: u32_at(b, pos + DIMS_AT + 12),
        channel_stride: u64_at(b, pos + STRIDES_AT) as i64,
        width_stride: u64_at(b, pos + STRIDES_AT + 8) as i64,
        height_stride: u64_at(b, pos + STRIDES_AT + 16) as i64,
        plane_stride: u64_at(b, pos + STRIDES_AT + 24) as i64,
        sample_tag: u32_at(b, pos + SAMPLE_TAG_AT),
    }
}

/// Reads the metadata of the record whose header starts at `pos`.
pub fn read_metadata(b: &[u8], pos: usize) -> (r: FrameMetadata)
    requires
        pos + HEADER_SIZE <= b@.len(),
    ensures
        r == metadata_at(b@, pos as int),
{
    assert(b@.len() == b.len());
    FrameMetadata {
        frame_id: read_u64(b, pos + FRAME_ID_AT),
        hardware_frame_id: read_u64(b, pos + HARDWARE_FRAME_ID_AT),
        timestamps: FrameTimestamps {
            hardware: read_u64(b, pos + TS_HARDWARE_AT),
            acq_thread: read_u64(b, pos + TS_ACQ_THREAD_AT),
        },
    }
}

/// Reads the shape descriptor of the record whose header starts at `pos`.
pub fn read_shape(b: &[u8], pos: usize) -> (r: ShapeDescriptor)
    requires
        pos + HEADER_SIZE <= b@.len(),
    ensures
        r == shape_at(b@, pos as int),
{
    assert(b@.len() == b.len());
    ShapeDescriptor {
        channels: read_u32(b, pos + DIMS_AT),
        width: read_u32(b, pos + DIMS_AT + 4),
        height: read_u32(b, pos + DIMS_AT + 8),
        planes: read_u32(b, pos + DIMS_AT + 12),
        channel_stride: #[verifier::truncate] (read_u64(b, pos + STRIDES_AT) as i64),
        width_stride: #[verifier::truncate] (read_u64(b, pos + STRIDES_AT + 8) as i64),
        height_stride: #[verifier::truncate] (read_u64(b, pos + STRIDES_AT + 16) as i64),
        plane_stride: #[verifier::truncate] (read_u64(b, pos + STRIDES_AT + 24) as i64),
        sample_tag: read_u32(b, pos + SAMPLE_TAG_AT),
    }
}

} // verus!
