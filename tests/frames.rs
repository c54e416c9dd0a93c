use acquire_frames::record::{
    FrameMetadata, FrameTimestamps, BYTES_OF_FRAME_AT, DIMS_AT, FRAME_ID_AT, HARDWARE_FRAME_ID_AT,
    HEADER_SIZE, SAMPLE_TAG_AT, STRIDES_AT, TS_ACQ_THREAD_AT, TS_HARDWARE_AT,
};
use acquire_frames::region::{count_records, RegionError};
use acquire_frames::sample_type::SampleType;
use acquire_frames::session::{
    FrameBufferSession, FrameError, FrameView, Phase, SessionError, UnmapRequest,
};

fn put_u32(b: &mut [u8], at: usize, v: u32) {
    b[at..at + 4].copy_from_slice(&v.to_le_bytes());
}

fn put_u64(b: &mut [u8], at: usize, v: u64) {
    b[at..at + 8].copy_from_slice(&v.to_le_bytes());
}

/// One record of `stride` bytes with the given ids, shape and sample tag; the
/// payload bytes count up from 0.
fn record(frame_id: u64, stride: u32, tag: u32, dims: [u32; 4]) -> Vec<u8> {
    let mut b = vec![0u8; stride as usize];
    put_u64(&mut b, FRAME_ID_AT, frame_id);
    put_u64(&mut b, HARDWARE_FRAME_ID_AT, frame_id + 1000);
    for (i, d) in dims.iter().enumerate() {
        put_u32(&mut b, DIMS_AT + 4 * i, *d);
    }
    put_u64(&mut b, STRIDES_AT, 1);
    put_u32(&mut b, SAMPLE_TAG_AT, tag);
    put_u64(&mut b, TS_HARDWARE_AT, frame_id * 10);
    put_u64(&mut b, TS_ACQ_THREAD_AT, frame_id * 10 + 1);
    put_u32(&mut b, BYTES_OF_FRAME_AT, stride);
    for i in HEADER_SIZE..stride as usize {
        b[i] = (i - HEADER_SIZE) as u8;
    }
    b
}

fn region(ids_and_strides: &[(u64, u32)]) -> Vec<u8> {
    let mut b = Vec::new();
    for (id, stride) in ids_and_strides {
        b.extend(record(*id, *stride, 0, [1, 2, 2, 1]));
    }
    b
}

fn walk(s: &FrameBufferSession) -> Vec<FrameView> {
    let mut it = s.frames();
    let mut out = Vec::new();
    while let Some(v) = it.next(s).unwrap() {
        out.push(v);
    }
    out
}

fn ids(s: &FrameBufferSession, views: &[FrameView]) -> Vec<u64> {
    views.iter().map(|v| v.metadata(s).unwrap().frame_id).collect()
}

#[test]
fn frame_count_of_empty_region_is_zero() {
    let b: Vec<u8> = Vec::new();
    assert_eq!(count_records(&b), Ok(0));
    let mut s = FrameBufferSession::new(0, 1);
    s.enter(&b).unwrap();
    assert_eq!(s.get_frame_count(), Ok(0));
}

#[test]
fn frame_count_of_three_records() {
    let b = region(&[(10, 128), (11, 256), (12, 128)]);
    assert_eq!(b.len(), 512);
    let mut s = FrameBufferSession::new(0, 1);
    s.enter(&b).unwrap();
    assert_eq!(s.get_frame_count(), Ok(3));
}

#[test]
fn walk_visits_each_whole_record_once() {
    let strides = [100u32, 200, 1000, 101];
    let b = region(&[(1, strides[0]), (2, strides[1]), (3, strides[2]), (4, strides[3])]);
    let total: u32 = strides.iter().sum();
    assert_eq!(b.len(), total as usize);
    let mut s = FrameBufferSession::new(1, 7);
    s.enter(&b).unwrap();
    assert_eq!(s.get_frame_count(), Ok(4));
    let views = walk(&s);
    assert_eq!(views.len(), 4);
    let mut at = 0usize;
    for (v, stride) in views.iter().zip(strides.iter()) {
        let img = v.data(&s).unwrap();
        assert_eq!(img.payload_offset, at + HEADER_SIZE);
        at += *stride as usize;
    }
    assert_eq!(at, b.len());
}

#[test]
fn frames_come_in_region_order_and_walks_repeat() {
    let b = region(&[(10, 128), (11, 256), (12, 128)]);
    let mut s = FrameBufferSession::new(0, 1);
    s.enter(&b).unwrap();
    let first = walk(&s);
    let second = walk(&s);
    assert_eq!(ids(&s, &first), vec![10, 11, 12]);
    assert_eq!(ids(&s, &second), vec![10, 11, 12]);
    assert_eq!(s.exit(), Some(UnmapRequest { stream_id: 0, consumed_bytes: 512 }));

    let mut again = FrameBufferSession::new(0, 2);
    again.enter(&b).unwrap();
    let third = walk(&again);
    assert_eq!(ids(&again, &third), vec![10, 11, 12]);
}

#[test]
fn metadata_reads_ids_and_timestamps() {
    let b = region(&[(10, 128)]);
    let mut s = FrameBufferSession::new(0, 1);
    s.enter(&b).unwrap();
    let v = s.frames().next(&s).unwrap().unwrap();
    assert_eq!(
        v.metadata(&s),
        Ok(FrameMetadata {
            frame_id: 10,
            hardware_frame_id: 1010,
            timestamps: FrameTimestamps { hardware: 100, acq_thread: 101 },
        })
    );
}

#[test]
fn views_turn_stale_after_exit() {
    let b = region(&[(10, 128), (11, 256)]);
    let mut s = FrameBufferSession::new(0, 1);
    s.enter(&b).unwrap();
    let mut it = s.frames();
    let v = it.next(&s).unwrap().unwrap();
    assert!(v.metadata(&s).is_ok());
    assert!(v.data(&s).is_ok());
    s.exit();
    assert_eq!(s.phase(), Phase::Invalidated);
    assert_eq!(v.metadata(&s), Err(FrameError::StaleView));
    assert_eq!(v.data(&s), Err(FrameError::StaleView));
    assert_eq!(v.samples(&s), Err(FrameError::StaleView));
    assert_eq!(it.next(&s), Ok(None));
    assert_eq!(s.get_frame_count(), Ok(0));
}

#[test]
fn view_of_another_session_is_stale() {
    let b = region(&[(10, 128)]);
    let mut a = FrameBufferSession::new(0, 1);
    a.enter(&b).unwrap();
    let mut other = FrameBufferSession::new(0, 2);
    other.enter(&b).unwrap();
    let v = a.frames().next(&a).unwrap().unwrap();
    assert_eq!(v.metadata(&other), Err(FrameError::StaleView));
    assert_eq!(a.frames().next(&other), Ok(None));
}

#[test]
fn unmap_requested_once_with_full_length() {
    let b = region(&[(1, 128), (2, 128)]);
    let mut s = FrameBufferSession::new(3, 1);
    s.enter(&b).unwrap();
    assert_eq!(s.exit(), Some(UnmapRequest { stream_id: 3, consumed_bytes: 256 }));
    assert_eq!(s.exit(), None);
    assert_eq!(s.exit(), None);
    assert_eq!(s.enter(&b), Err(SessionError::AlreadyEntered));
}

#[test]
fn unmap_carries_consumed_override() {
    let b = region(&[(1, 128), (2, 128)]);
    let mut s = FrameBufferSession::new(1, 1);
    s.enter(&b).unwrap();
    assert_eq!(s.set_consumed_bytes(128), Ok(()));
    assert_eq!(s.exit(), Some(UnmapRequest { stream_id: 1, consumed_bytes: 128 }));
    assert_eq!(s.exit(), None);
}

#[test]
fn consumed_override_is_checked() {
    let b = region(&[(1, 128)]);
    let mut s = FrameBufferSession::new(1, 1);
    assert_eq!(s.set_consumed_bytes(0), Err(SessionError::NotMapped));
    s.enter(&b).unwrap();
    assert_eq!(
        s.set_consumed_bytes(129),
        Err(SessionError::ConsumedExceedsMapped { consumed: 129, mapped: 128 })
    );
    assert_eq!(s.exit(), Some(UnmapRequest { stream_id: 1, consumed_bytes: 128 }));
    assert_eq!(s.set_consumed_bytes(0), Err(SessionError::NotMapped));
}

#[test]
fn exit_without_enter_requests_nothing() {
    let mut s = FrameBufferSession::new(0, 1);
    assert_eq!(s.phase(), Phase::Closed);
    assert_eq!(s.exit(), None);
    assert_eq!(s.phase(), Phase::Invalidated);
}

#[test]
fn empty_region_yields_no_frames_and_unmaps_zero() {
    let b: Vec<u8> = Vec::new();
    let mut s = FrameBufferSession::new(0, 1);
    s.enter(&b).unwrap();
    assert_eq!(s.phase(), Phase::Mapped);
    assert!(walk(&s).is_empty());
    assert_eq!(s.get_frame_count(), Ok(0));
    assert_eq!(s.exit(), Some(UnmapRequest { stream_id: 0, consumed_bytes: 0 }));
}

#[test]
fn early_exit_unmaps_whole_region() {
    let b = region(&[(10, 128), (11, 256), (12, 128)]);
    let mut s = FrameBufferSession::new(0, 1);
    s.enter(&b).unwrap();
    let mut it = s.frames();
    let f10 = it.next(&s).unwrap().unwrap();
    let f11 = it.next(&s).unwrap().unwrap();
    assert_eq!(f10.metadata(&s).unwrap().frame_id, 10);
    assert_eq!(f11.metadata(&s).unwrap().frame_id, 11);
    assert_eq!(s.exit(), Some(UnmapRequest { stream_id: 0, consumed_bytes: 512 }));
    assert_eq!(it.next(&s), Ok(None));
}

#[test]
fn early_exit_unmaps_whole_region_of_equal_records() {
    let b = region(&[(10, 128), (11, 128), (12, 128)]);
    let mut s = FrameBufferSession::new(0, 1);
    s.enter(&b).unwrap();
    let mut it = s.frames();
    assert_eq!(it.next(&s).unwrap().unwrap().metadata(&s).unwrap().frame_id, 10);
    assert_eq!(it.next(&s).unwrap().unwrap().metadata(&s).unwrap().frame_id, 11);
    assert_eq!(s.exit(), Some(UnmapRequest { stream_id: 0, consumed_bytes: 384 }));
}

#[test]
fn unknown_sample_tag_fails_decoding() {
    let b = record(5, 128, 9, [1, 2, 2, 1]);
    let mut s = FrameBufferSession::new(0, 1);
    s.enter(&b).unwrap();
    let v = s.frames().next(&s).unwrap().unwrap();
    assert_eq!(v.data(&s), Err(FrameError::UnknownSampleType { tag: 9 }));
    assert_eq!(v.samples(&s), Err(FrameError::UnknownSampleType { tag: 9 }));
    assert_eq!(v.metadata(&s).unwrap().frame_id, 5);
}

#[test]
fn data_describes_samples_in_place() {
    // u16 samples: 3 channels x 2 wide x 2 high x 1 plane = 12 samples, 24 bytes.
    let b = record(1, 128, 1, [3, 2, 2, 1]);
    let mut s = FrameBufferSession::new(0, 1);
    s.enter(&b).unwrap();
    let v = s.frames().next(&s).unwrap().unwrap();
    let img = v.data(&s).unwrap();
    assert_eq!(img.sample_type, SampleType::U16);
    assert_eq!(img.shape.channels, 3);
    assert_eq!(img.shape.width, 2);
    assert_eq!(img.shape.height, 2);
    assert_eq!(img.shape.planes, 1);
    assert_eq!(img.shape.channel_stride, 1);
    assert_eq!(img.payload_offset, HEADER_SIZE);
    assert_eq!(img.payload_len, 24);
    let samples = v.samples(&s).unwrap();
    assert_eq!(samples.len(), 24);
    assert_eq!(samples, &b[HEADER_SIZE..HEADER_SIZE + 24]);
    assert_eq!(samples[5], 5);
}

#[test]
fn shape_larger_than_payload_fails_decoding() {
    // f32 samples: 8 x 1 x 1 x 1 = 32 bytes, but only 128 - 96 = 32 fit; 9 do not.
    let fits = record(1, 128, 4, [8, 1, 1, 1]);
    let too_big = record(2, 128, 4, [9, 1, 1, 1]);
    let mut s = FrameBufferSession::new(0, 1);
    s.enter(&fits).unwrap();
    let v = s.frames().next(&s).unwrap().unwrap();
    assert_eq!(v.data(&s).unwrap().payload_len, 32);
    let mut t = FrameBufferSession::new(0, 2);
    t.enter(&too_big).unwrap();
    let w = t.frames().next(&t).unwrap().unwrap();
    assert_eq!(w.data(&t), Err(FrameError::ShapeExceedsPayload { payload_bytes: 32 }));
}

#[test]
fn huge_shape_fails_without_overflow() {
    let b = record(1, 128, 4, [u32::MAX, u32::MAX, u32::MAX, u32::MAX]);
    let mut s = FrameBufferSession::new(0, 1);
    s.enter(&b).unwrap();
    let v = s.frames().next(&s).unwrap().unwrap();
    assert_eq!(v.data(&s), Err(FrameError::ShapeExceedsPayload { payload_bytes: 32 }));
}

#[test]
fn zero_stride_is_a_fault() {
    let mut b = region(&[(1, 128), (2, 128)]);
    put_u32(&mut b, 128 + BYTES_OF_FRAME_AT, 0);
    assert_eq!(count_records(&b), Err(RegionError::ZeroStride { offset: 128 }));
    let mut s = FrameBufferSession::new(0, 1);
    s.enter(&b).unwrap();
    assert_eq!(s.get_frame_count(), Err(RegionError::ZeroStride { offset: 128 }));
    let mut it = s.frames();
    assert!(it.next(&s).unwrap().is_some());
    assert_eq!(it.next(&s), Err(RegionError::ZeroStride { offset: 128 }));
    assert_eq!(it.next(&s), Err(RegionError::ZeroStride { offset: 128 }));
    assert_eq!(s.exit(), Some(UnmapRequest { stream_id: 0, consumed_bytes: 256 }));
}

#[test]
fn stride_below_header_is_a_fault() {
    let mut b = region(&[(1, 128)]);
    put_u32(&mut b, BYTES_OF_FRAME_AT, 95);
    assert_eq!(count_records(&b), Err(RegionError::StrideBelowHeader { offset: 0 }));
}

#[test]
fn stride_past_end_is_a_fault() {
    let mut b = region(&[(1, 128), (2, 128)]);
    put_u32(&mut b, 128 + BYTES_OF_FRAME_AT, 129);
    assert_eq!(count_records(&b), Err(RegionError::Overrun { offset: 128 }));
}

#[test]
fn trailing_partial_header_is_a_fault() {
    let mut b = region(&[(1, 128)]);
    b.extend(vec![0u8; 40]);
    assert_eq!(count_records(&b), Err(RegionError::TruncatedHeader { offset: 128 }));
}
