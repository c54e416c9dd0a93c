use vstd::prelude::*;
use vstd::slice::slice_subrange;

use crate::record::{
    metadata_at, read_metadata, read_shape, shape_at, FrameMetadata, ShapeDescriptor, HEADER_SIZE,
};
use crate::region::{after, count_records, record_stride, spans, spans_from, step_at, RegionError};
use crate::sample_type::{sample_size, sample_type_of, SampleType};

verus! {

/// Where a session stands in its life: `Closed` before the region is mapped,
/// `Mapped` while its bytes may be read, `Invalidated` once it has exited.
#[derive(Debug, Clone, Copy, PartialEq, Eq, Structural)]
pub enum Phase {
    Closed,
    Mapped,
    Invalidated,
}

/// What the runtime must be told when a session exits: release the region of
/// `stream_id`, of which `consumed_bytes` bytes were consumed.
#[derive(Debug, Clone, Copy, PartialEq, Eq, Structural)]
pub struct UnmapRequest {
    pub stream_id: u32,
    pub consumed_bytes: usize,
}

/// Misuse of a session's life cycle.
#[derive(Debug, Clone, Copy, PartialEq, Eq, Structural)]
pub enum SessionError {
    /// `enter` on a session that has already been entered.
    AlreadyEntered,
    /// A consumed-bytes override on a session that holds no mapped region.
    NotMapped,
    /// A consumed-bytes override larger than the mapped region.
    ConsumedExceedsMapped { consumed: usize, mapped: usize },
}

/// Failure to read a frame view.
#[derive(Debug, Clone, Copy, PartialEq, Eq, Structural)]
pub enum FrameError {
    /// The view's session has exited, or the view is not one of its records.
    StaleView,
    /// The record's shape descriptor holds a sample-type tag outside the set.
    UnknownSampleType { tag: u32 },
    /// The record's shape needs more bytes than its payload holds.
    ShapeExceedsPayload { payload_bytes: usize },
}

/// The mathematical state of a session.
pub struct SessionModel {
    pub stream_id: u32,
    pub session_id: u64,
    pub phase: Phase,
    /// The mapped bytes; empty unless the phase is `Mapped`.
    pub bytes: Seq<u8>,
    pub consumed_override: Option<usize>,
}

enum Mapping<'a> {
    Closed,
    Mapped(&'a [u8]),
    Invalidated,
}

/// One scoped read of a stream's frame buffer: enter with the region that the
/// runtime mapped, read frames, exit to obtain the one unmap request.
pub struct FrameBufferSession<'a> {
    stream_id: u32,
    session_id: u64,
    mapping: Mapping<'a>,
    consumed_override: Option<usize>,
}

impl<'a> View for FrameBufferSession<'a> {
    type V = SessionModel;

    closed spec fn view(&self) -> SessionModel {
        SessionModel {
            stream_id: self.stream_id,
            session_id: self.session_id,
            phase: match self.mapping {
                Mapping::Closed => Phase::Closed,
                Mapping::Mapped(_) => Phase::Mapped,
                Mapping::Invalidated => Phase::Invalidated,
            },
            bytes: match self.mapping {
                Mapping::Mapped(b) => b@,
                _ => Seq::empty(),
            },
            consumed_override: self.consumed_override,
        }
    }
}

/// The state after an exit: invalidated, with nothing readable left.
pub open spec fn exited(m: SessionModel) -> SessionModel {
    SessionModel { phase: Phase::Invalidated, bytes: Seq::empty(), ..m }
}

/// The byte count reported on exit: the override if one was set, else the whole
/// mapped length.
pub open spec fn consumed_on_exit(m: SessionModel) -> usize {
    match m.consumed_override {
        Some(n) => n,
        None => m.bytes.len() as usize,
    }
}

/// The unmap request that an exit from `m` yields: one from a mapped session,
/// none otherwise.
pub open spec fn unmap_on_exit(m: SessionModel) -> Option<UnmapRequest> {
    if m.phase == Phase::Mapped {
        Some(UnmapRequest { stream_id: m.stream_id, consumed_bytes: consumed_on_exit(m) })
    } else {
        None
    }
}

/// Whether the records of session `session_id` may be read in state `m`.
pub open spec fn is_live(m: SessionModel, session_id: u64) -> bool {
    m.phase == Phase::Mapped && m.session_id == session_id
}

/// The frame count reported in state `m`: zero unless mapped.
pub open spec fn frame_count_of(m: SessionModel) -> Result<int, RegionError> {
    if m.phase == Phase::Mapped {
        match spans(m.bytes) {
            Ok(sp) => Ok(sp.len() as int),
            Err(e) => Err(e),
        }
    } else {
        Ok(0)
    }
}

impl<'a> FrameBufferSession<'a> {
    /// A closed session for stream `stream_id`. `session_id` tells this
    /// session's frame views from those of every other session.
    pub fn new(stream_id: u32, session_id: u64) -> (r: Self)
        ensures
            r@ == (SessionModel {
                stream_id,
                session_id,
                phase: Phase::Closed,
                bytes: Seq::empty(),
                consumed_override: None,
            }),
    {
        FrameBufferSession { stream_id, session_id, mapping: Mapping::Closed, consumed_override: None }
    }

    pub fn stream_id(&self) -> (r: u32)
        ensures
            r == self@.stream_id,
    {
        self.stream_id
    }

    pub fn session_id(&self) -> (r: u64)
        ensures
            r == self@.session_id,
    {
        self.session_id
    }

    pub fn phase(&self) -> (r: Phase)
        ensures
            r == self@.phase,
    {
        match self.mapping {
            Mapping::Closed => Phase::Closed,
            Mapping::Mapped(_) => Phase::Mapped,
            Mapping::Invalidated => Phase::Invalidated,
        }
    }

    /// Takes the region that the runtime mapped for this session's stream; an
    /// empty region is no error. Only a closed session can be entered.
    pub fn enter(&mut self, region: &'a [u8]) -> (r: Result<(), SessionError>)
        ensures
            old(self)@.phase == Phase::Closed ==> r is Ok && final(self)@ == (SessionModel {
                phase: Phase::Mapped,
                bytes: region@,
                ..old(self)@
            }),
            old(self)@.phase != Phase::Closed ==> r == Err::<(), SessionError>(
                SessionError::AlreadyEntered,
            ) && final(self)@ == old(self)@,
    {
        match self.mapping {
            Mapping::Closed => {
                self.mapping = Mapping::Mapped(region);
                Ok(())
            },
            _ => Err(SessionError::AlreadyEntered),
        }
    }

    /// Reports only the first `consumed` bytes as consumed on exit, leaving the
    /// rest of the region to the next read.
    pub fn set_consumed_bytes(&mut self, consumed: usize) -> (r: Result<(), SessionError>)
        ensures
            old(self)@.phase != Phase::Mapped ==> r == Err::<(), SessionError>(
                SessionError::NotMapped,
            ) && final(self)@ == old(self)@,
            old(self)@.phase == Phase::Mapped && consumed > old(self)@.bytes.len() ==> r == Err::<
                (),
                SessionError,
            >(
                SessionError::ConsumedExceedsMapped {
                    consumed,
                    mapped: old(self)@.bytes.len() as usize,
                },
            ) && final(self)@ == old(self)@,
            old(self)@.phase == Phase::Mapped && consumed <= old(self)@.bytes.len() ==> r is Ok
                && final(self)@ == (SessionModel {
                consumed_override: Some(consumed),
                ..old(self)@
            }),
    {
        match self.mapping {
            Mapping::Mapped(b) => {
                if consumed > b.len() {
                    Err(SessionError::ConsumedExceedsMapped { consumed, mapped: b.len() })
                } else {
                    self.consumed_override = Some(consumed);
                    Ok(())
                }
            },
            _ => Err(SessionError::NotMapped),
        }
    }

    /// Ends the session: every frame view of it turns stale, and a mapped
    /// session yields the one unmap request to hand to the runtime. Exiting
    /// again yields nothing.
    pub fn exit(&mut self) -> (r: Option<UnmapRequest>)
        ensures
            r == unmap_on_exit(old(self)@),
            final(self)@ == exited(old(self)@),
    {
        let r = match self.mapping {
            Mapping::Mapped(b) => Some(
                UnmapRequest {
                    stream_id: self.stream_id,
                    consumed_bytes: match self.consumed_override {
                        Some(n) => n,
                        None => b.len(),
                    },
                },
            ),
            _ => None,
        };
        self.mapping = Mapping::Invalidated;
        r
    }

    /// Number of records in the mapped region, by a walk from its start; zero
    /// for a session that is not mapped.
    pub fn get_frame_count(&self) -> (r: Result<usize, RegionError>)
        ensures
            r matches Ok(n) ==> frame_count_of(self@) == Ok::<int, RegionError>(n as int),
            r matches Err(e) ==> frame_count_of(self@) == Err::<int, RegionError>(e),
    {
        match self.mapping {
            Mapping::Mapped(b) => count_records(b),
            _ => Ok(0),
        }
    }

    /// A fresh cursor at the start of the region.
    pub fn frames(&self) -> (r: FrameIterator)
        ensures
            r@.session_id == self@.session_id,
            r@.pos == 0,
            r@.done == Seq::<(int, int)>::empty(),
            r.tracks(self@),
    {
        FrameIterator { session_id: self.session_id, pos: 0, done: Ghost(Seq::empty()) }
    }
}

/// The mathematical state of a cursor: its session, its byte position, and
/// the records it has yielded so far, as `(offset, stride)`.
pub struct IterModel {
    pub session_id: u64,
    pub pos: int,
    pub done: Seq<(int, int)>,
}

/// Forward cursor over the records of one session's region.
pub struct FrameIterator {
    session_id: u64,
    pos: usize,
    done: Ghost<Seq<(int, int)>>,
}

impl View for FrameIterator {
    type V = IterModel;

    closed spec fn view(&self) -> IterModel {
        IterModel { session_id: self.session_id, pos: self.pos as int, done: self.done@ }
    }
}

/// A frame of one session, as its record's offset and stride in the region.
#[derive(Debug, Clone, Copy, PartialEq, Eq, Structural)]
pub struct FrameView {
    session_id: u64,
    offset: usize,
    len: usize,
}

/// The mathematical value of a frame view.
pub struct FrameSpan {
    pub session_id: u64,
    pub offset: int,
    pub len: int,
}

impl View for FrameView {
    type V = FrameSpan;

    closed spec fn view(&self) -> FrameSpan {
        FrameSpan { session_id: self.session_id, offset: self.offset as int, len: self.len as int }
    }
}

impl FrameIterator {
    /// While the session is live, the records yielded so far followed by those
    /// from the cursor's position on are the records of the whole region.
    pub open spec fn tracks(&self, m: SessionModel) -> bool {
        is_live(m, self@.session_id) ==> {
            &&& 0 <= self@.pos <= m.bytes.len()
            &&& spans(m.bytes) == after(self@.done, spans_from(m.bytes, self@.pos))
        }
    }

    /// The next record: none once the session is no longer live or the region
    /// is exhausted; a fault for a malformed record, at which the cursor stays.
    pub fn next(&mut self, session: &FrameBufferSession) -> (r: Result<Option<FrameView>, RegionError>)
        ensures
            old(self).tracks(session@) ==> final(self).tracks(session@),
            final(self)@.session_id == old(self)@.session_id,
            !is_live(session@, old(self)@.session_id) || old(self)@.pos >= session@.bytes.len()
                ==> r == Ok::<Option<FrameView>, RegionError>(None) && final(self)@ == old(
                self,
            )@,
            is_live(session@, old(self)@.session_id) && old(self)@.pos < session@.bytes.len()
                ==> match step_at(session@.bytes, old(self)@.pos) {
                Ok(s) => (r matches Ok(Some(v)) && v@ == (FrameSpan {
                    session_id: old(self)@.session_id,
                    offset: old(self)@.pos,
                    len: s,
                })) && final(self)@ == (IterModel {
                    pos: old(self)@.pos + s,
                    done: old(self)@.done.push((old(self)@.pos, s)),
                    ..old(self)@
                }),
                Err(e) => r == Err::<Option<FrameView>, RegionError>(e) && final(self)@ == old(
                    self,
                )@,
            },
    {
        let b = match session.mapping {
            Mapping::Mapped(b) => b,
            _ => {
                return Ok(None);
            },
        };
        if session.session_id != self.session_id || self.pos >= b.len() {
            return Ok(None);
        }
        match record_stride(b, self.pos) {
            Err(e) => Err(e),
            Ok(s) => {
                let v = FrameView { session_id: self.session_id, offset: self.pos, len: s };
                proof {
                    let m = session@;
                    let p = self.pos as int;
                    if self.tracks(m) {
                        let rest = spans_from(m.bytes, p + s);
                        assert(spans_from(m.bytes, p) == after(seq![(p, s as int)], rest));
                        if rest is Ok {
                            assert(self.done@ + (seq![(p, s as int)] + rest->Ok_0)
                                =~= self.done@.push((p, s as int)) + rest->Ok_0);
                        }
                    }
                    self.done = Ghost(self.done@.push((p, s as int)));
                }
                self.pos = self.pos + s;
                Ok(Some(v))
            },
        }
    }
}

/// A decoded frame payload: its sample type and shape, and where its samples
/// lie in the region. Nothing is copied: the samples are read in place.
#[derive(Debug, Clone, Copy, PartialEq, Eq, Structural)]
pub struct ImageView {
    pub sample_type: SampleType,
    pub shape: ShapeDescriptor,
    /// Offset of the first sample in the region.
    pub payload_offset: usize,
    /// Bytes taken by the samples: planes × height × width × channels × sample size.
    pub payload_len: usize,
}

/// Whether view `v` may be read in state `m`: its session is live and its
/// record lies inside the region.
pub open spec fn readable(m: SessionModel, v: FrameSpan) -> bool {
    &&& is_live(m, v.session_id)
    &&& HEADER_SIZE <= v.len
    &&& 0 <= v.offset
    &&& v.offset + v.len <= m.bytes.len()
}

/// What `metadata` returns for view `v` in state `m`.
pub open spec fn metadata_result(m: SessionModel, v: FrameSpan) -> Result<FrameMetadata, FrameError> {
    if readable(m, v) {
        Ok(metadata_at(m.bytes, v.offset))
    } else {
        Err(FrameError::StaleView)
    }
}

/// The number of samples that shape `sh` describes.
pub open spec fn sample_count(sh: ShapeDescriptor) -> int {
    sh.channels * sh.width * sh.height * sh.planes
}

/// What `data` returns for view `v` in state `m`.
pub open spec fn data_result(m: SessionModel, v: FrameSpan) -> Result<ImageView, FrameError> {
    if !readable(m, v) {
        Err(FrameError::StaleView)
    } else {
        let sh = shape_at(m.bytes, v.offset);
        let available = v.len - HEADER_SIZE;
        match sample_type_of(sh.sample_tag) {
            None => Err(FrameError::UnknownSampleType { tag: sh.sample_tag }),
            Some(t) => {
                let needed = sample_count(sh) * sample_size(t);
                if needed > available {
                    Err(FrameError::ShapeExceedsPayload { payload_bytes: available as usize })
                } else {
                    Ok(
                        ImageView {
                            sample_type: t,
                            shape: sh,
                            payload_offset: (v.offset + HEADER_SIZE) as usize,
                            payload_len: needed as usize,
                        },
                    )
                }
            },
        }
    }
}

impl FrameView {
    /// The whole region, if this view can be read in it.
    fn live_region<'a>(&self, session: &FrameBufferSession<'a>) -> (r: Option<&'a [u8]>)
        ensures
            readable(session@, self@) ==> (r matches Some(x) && x@ == session@.bytes),
            !readable(session@, self@) ==> r is None,
    {
        match session.mapping {
            Mapping::Mapped(b) => {
                if session.session_id == self.session_id && HEADER_SIZE <= self.len && self.len
                    <= b.len() && self.offset <= b.len() - self.len {
                    Some(b)
                } else {
                    None
                }
            },
            _ => None,
        }
    }

    /// Frame ids and capture times from the record's header.
    pub fn metadata(&self, session: &FrameBufferSession) -> (r: Result<FrameMetadata, FrameError>)
        ensures
            r == metadata_result(session@, self@),
    {
        match self.live_region(session) {
            Some(b) => Ok(read_metadata(b, self.offset)),
            None => Err(FrameError::StaleView),
        }
    }

    /// Decodes the payload's shape and sample type into a view of the samples
    /// in place.
    pub fn data(&self, session: &FrameBufferSession) -> (r: Result<ImageView, FrameError>)
        ensures
            r == data_result(session@, self@),
    {
        let b = match self.live_region(session) {
            Some(b) => b,
            None => {
                return Err(FrameError::StaleView);
            },
        };
        assert(b@.len() == b.len());
        let sh = read_shape(b, self.offset);
        let t = match SampleType::from_tag(sh.sample_tag) {
            Some(t) => t,
            None => {
                return Err(FrameError::UnknownSampleType { tag: sh.sample_tag });
            },
        };
        let available = self.len - HEADER_SIZE;
        let size = t.size();
        let c = sh.channels as u128;
        let w = sh.width as u128;
        let h = sh.height as u128;
        let p = sh.planes as u128;
        proof {
            assert(c * w <= 0xffff_ffff_ffff_ffffu128 && h * p <= 0xffff_ffff_ffff_ffffu128)
                by (nonlinear_arith)
                requires
                    c <= 0xffff_ffffu128,
                    w <= 0xffff_ffffu128,
                    h <= 0xffff_ffffu128,
                    p <= 0xffff_ffffu128,
            ;
        }
        let cw = c * w;
        let hp = h * p;
        proof {
            assert(cw * hp <= 0xffff_ffff_ffff_ffff_ffff_ffff_ffff_ffffu128) by (nonlinear_arith)
                requires
                    cw <= 0xffff_ffff_ffff_ffffu128,
                    hp <= 0xffff_ffff_ffff_ffffu128,
            ;
        }
        let count = cw * hp;
        let limit = available as u128 / size as u128;
        proof {
            assert(count == sample_count(sh)) by (nonlinear_arith)
                requires
                    count == cw * hp,
                    cw == sh.channels * sh.width,
                    hp == sh.height * sh.planes,
            ;
            assert((count > limit) == (count * size > available)) by (nonlinear_arith)
                requires
                    limit == available as int / size as int,
                    1 <= size,
            ;
        }
        if count > limit {
            return Err(FrameError::ShapeExceedsPayload { payload_bytes: available });
        }
        proof {
            assert(count * size <= available) by (nonlinear_arith)
                requires
                    limit == available as int / size as int,
                    1 <= size,
                    count <= limit,
            ;
        }
        Ok(
            ImageView {
                sample_type: t,
                shape: sh,
                payload_offset: self.offset + HEADER_SIZE,
                payload_len: (count * size as u128) as usize,
            },
        )
    }
}

impl FrameView {
    /// The samples of the frame as a read-only borrow of the region, laid out
    /// as `data` describes; nothing is copied. Fails as `data` does.
    pub fn samples<'a>(&self, session: &FrameBufferSession<'a>) -> (r: Result<&'a [u8], FrameError>)
        ensures
            data_result(session@, self@) matches Err(e) ==> r == Err::<&'a [u8], FrameError>(e),
            data_result(session@, self@) matches Ok(img) ==> (r matches Ok(p) && p@
                == session@.bytes.subrange(
                img.payload_offset as int,
                img.payload_offset + img.payload_len,
            )),
    {
        let img = match self.data(session) {
            Ok(img) => img,
            Err(e) => {
                return Err(e);
            },
        };
        match self.live_region(session) {
            Some(b) => {
                assert(b@.len() == b.len());
                Ok(slice_subrange(b, img.payload_offset, img.payload_offset + img.payload_len))
            },
            None => Err(FrameError::StaleView),
        }
    }
}

/// A cursor that has reached the end of a live session's region has yielded
/// every record of the region, once each and in region order.
pub proof fn lemma_exhausted_cursor_yielded_all(it: FrameIterator, m: SessionModel)
    requires
        it.tracks(m),
        is_live(m, it@.session_id),
        it@.pos >= m.bytes.len(),
    ensures
        spans(m.bytes) == Ok::<Seq<(int, int)>, RegionError>(it@.done),
{
    assert(it@.done + Seq::<(int, int)>::empty() =~= it@.done);
}

/// Walks are repeatable: two cursors run to the end over the same bytes, in
/// one session or in two, have yielded the same records in the same order.
pub proof fn lemma_walks_agree(it1: FrameIterator, m1: SessionModel, it2: FrameIterator, m2: SessionModel)
    requires
        it1.tracks(m1),
        is_live(m1, it1@.session_id),
        it1@.pos >= m1.bytes.len(),
        it2.tracks(m2),
        is_live(m2, it2@.session_id),
        it2@.pos >= m2.bytes.len(),
        m1.bytes == m2.bytes,
    ensures
        it1@.done == it2@.done,
{
    lemma_exhausted_cursor_yielded_all(it1, m1);
    lemma_exhausted_cursor_yielded_all(it2, m2);
}

/// Once a session has exited, every view of it is stale: metadata and data
/// both fail, and no cursor yields another frame.
pub proof fn lemma_exit_makes_views_stale(m: SessionModel, v: FrameSpan)
    ensures
        metadata_result(exited(m), v) == Err::<FrameMetadata, FrameError>(FrameError::StaleView),
        data_result(exited(m), v) == Err::<ImageView, FrameError>(FrameError::StaleView),
        !is_live(exited(m), v.session_id),
{
}

/// A session yields exactly one unmap request over its life: the first exit
/// from the mapped phase yields it, carrying the override if one was set and
/// else the whole mapped length; the exited state is final, and exiting it
/// again yields none.
pub proof fn lemma_single_unmap(m: SessionModel)
    requires
        m.phase == Phase::Mapped,
        m.bytes.len() <= usize::MAX,
    ensures
        unmap_on_exit(m) == Some(
            UnmapRequest {
                stream_id: m.stream_id,
                consumed_bytes: match m.consumed_override {
                    Some(n) => n,
                    None => m.bytes.len() as usize,
                },
            },
        ),
        unmap_on_exit(m)->0.consumed_bytes as int == match m.consumed_override {
            Some(n) => n as int,
            None => m.bytes.len() as int,
        },
        exited(exited(m)) == exited(m),
        unmap_on_exit(exited(m)) is None,
        exited(m).phase != Phase::Closed,
{
}

} // verus!
