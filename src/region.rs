use vstd::prelude::*;

use crate::record::{read_u32, stride_at, BYTES_OF_FRAME_AT, HEADER_SIZE};

verus! {

/// Why the walk over a mapped region stopped before its end.
#[derive(Debug, Clone, Copy, PartialEq, Eq, Structural)]
pub enum RegionError {
    /// Fewer bytes than a header remain at `offset`.
    TruncatedHeader { offset: usize },
    /// The record at `offset` declares a size of zero: the walk would not advance.
    ZeroStride { offset: usize },
    /// The record at `offset` declares a size smaller than its own header.
    StrideBelowHeader { offset: usize },
    /// The record at `offset` declares a size that reaches past the region's end.
    Overrun { offset: usize },
}

/// Outcome of one cursor step at `pos`, where `pos < b.len()`: the stride of
/// the record that starts there, or what is wrong with it.
pub open spec fn step_at(b: Seq<u8>, pos: int) -> Result<int, RegionError> {
    if b.len() - pos < HEADER_SIZE {
        Err(RegionError::TruncatedHeader { offset: pos as usize })
    } else {
        let s = stride_at(b, pos) as int;
        if s == 0 {
            Err(RegionError::ZeroStride { offset: pos as usize })
        } else if s < HEADER_SIZE {
            Err(RegionError::StrideBelowHeader { offset: pos as usize })
        } else if s > b.len() - pos {
            Err(RegionError::Overrun { offset: pos as usize })
        } else {
            Ok(s)
        }
    }
}

/// The records from `pos` to the end of `b`, each as `(offset, stride)`, in
/// the order the cursor meets them; or the first fault met on the way.
pub open spec fn spans_from(b: Seq<u8>, pos: int) -> Result<Seq<(int, int)>, RegionError>
    decreases b.len() - pos,
{
    if pos < 0 || pos >= b.len() {
        Ok(Seq::empty())
    } else {
        match step_at(b, pos) {
            Err(e) => Err(e),
            Ok(s) => {
                if s <= 0 {
                    Ok(Seq::empty())
                } else {
                    match spans_from(b, pos + s) {
                        Err(e) => Err(e),
                        Ok(rest) => Ok(seq![(pos, s)] + rest),
                    }
                }
            },
        }
    }
}

/// The records of a whole region.
pub open spec fn spans(b: Seq<u8>) -> Result<Seq<(int, int)>, RegionError> {
    spans_from(b, 0)
}

/// `r` with `done` in front of its records; a fault stays as it is.
pub open spec fn after(done: Seq<(int, int)>, r: Result<Seq<(int, int)>, RegionError>) -> Result<
    Seq<(int, int)>,
    RegionError,
> {
    match r {
        Ok(rest) => Ok(done + rest),
        Err(e) => Err(e),
    }
}

/// A single record standing alone: it holds at least a header, and the
/// stride it declares is exactly its own length.
pub open spec fn is_whole_record(r: Seq<u8>) -> bool {
    r.len() >= HEADER_SIZE && stride_at(r, 0) as int == r.len()
}

/// The sum of the strides of `sp`.
pub open spec fn stride_sum(sp: Seq<(int, int)>) -> int
    decreases sp.len(),
{
    if sp.len() == 0 {
        0
    } else {
        sp[0].1 + stride_sum(sp.drop_first())
    }
}

/// `sp` with every offset moved by `k`.
pub open spec fn shifted(sp: Seq<(int, int)>, k: int) -> Seq<(int, int)> {
    sp.map_values(|x: (int, int)| (x.0 + k, x.1))
}

proof fn lemma_stride_sum_shifted(sp: Seq<(int, int)>, k: int)
    ensures
        stride_sum(shifted(sp, k)) == stride_sum(sp),
    decreases sp.len(),
{
    if sp.len() > 0 {
        assert(shifted(sp, k).drop_first() =~= shifted(sp.drop_first(), k));
        lemma_stride_sum_shifted(sp.drop_first(), k);
    }
}

/// Bytes placed in front of a region move its records and change nothing else.
proof fn lemma_spans_behind_prefix(a: Seq<u8>, c: Seq<u8>, p: int)
    requires
        0 <= p <= c.len(),
        spans_from(c, p) is Ok,
    ensures
        spans_from(a + c, a.len() + p) == Ok::<Seq<(int, int)>, RegionError>(
            shifted(spans_from(c, p)->Ok_0, a.len() as int),
        ),
    decreases c.len() - p,
{
    let b = a + c;
    let q = a.len() + p;
    if p == c.len() {
        assert(shifted(Seq::empty(), a.len() as int) =~= Seq::empty());
    } else {
        if c.len() - p >= HEADER_SIZE {
            assert(b.subrange(q + BYTES_OF_FRAME_AT, q + BYTES_OF_FRAME_AT + 4) =~= c.subrange(
                p + BYTES_OF_FRAME_AT,
                p + BYTES_OF_FRAME_AT + 4,
            ));
        }
        assert(step_at(b, q) == step_at(c, p));
        let s = step_at(c, p)->Ok_0;
        lemma_spans_behind_prefix(a, c, p + s);
        let rest = spans_from(c, p + s)->Ok_0;
        assert(shifted(seq![(p, s)] + rest, a.len() as int) =~= seq![(q, s)] + shifted(
            rest,
            a.len() as int,
        ));
    }
}

/// A region made of whole records laid end to end: the walk from its start
/// meets exactly those records, in order, each at the offset where it was
/// placed and with its own length as stride; every record ends within the
/// region, and the strides add up to the region's length.
pub proof fn lemma_whole_records_walk(recs: Seq<Seq<u8>>)
    requires
        forall|i: int| 0 <= i < recs.len() ==> is_whole_record(#[trigger] recs[i]),
    ensures
        spans(recs.flatten()) is Ok,
        spans(recs.flatten())->Ok_0.len() == recs.len(),
        stride_sum(spans(recs.flatten())->Ok_0) == recs.flatten().len(),
        forall|i: int|
            0 <= i < recs.len() ==> {
                let sp = #[trigger] spans(recs.flatten())->Ok_0[i];
                &&& sp.1 == recs[i].len()
                &&& 0 <= sp.0
                &&& sp.0 + sp.1 <= recs.flatten().len()
            },
    decreases recs.len(),
{
    let b = recs.flatten();
    if recs.len() == 0 {
        assert(spans(b) == Ok::<Seq<(int, int)>, RegionError>(Seq::empty()));
    } else {
        let r0 = recs[0];
        let tail = recs.drop_first();
        assert forall|i: int| 0 <= i < tail.len() implies is_whole_record(#[trigger] tail[i]) by {
            assert(tail[i] == recs[i + 1]);
        }
        lemma_whole_records_walk(tail);
        let c = tail.flatten();
        assert(b == r0 + c);
        assert(b.subrange(BYTES_OF_FRAME_AT as int, BYTES_OF_FRAME_AT + 4) =~= r0.subrange(
            BYTES_OF_FRAME_AT as int,
            BYTES_OF_FRAME_AT + 4,
        ));
        let s = r0.len() as int;
        assert(step_at(b, 0) == Ok::<int, RegionError>(s));
        lemma_spans_behind_prefix(r0, c, 0);
        let rest = spans(c)->Ok_0;
        let sp = seq![(0int, s)] + shifted(rest, s);
        assert(spans(b) == Ok::<Seq<(int, int)>, RegionError>(sp));
        assert(sp.drop_first() =~= shifted(rest, s));
        lemma_stride_sum_shifted(rest, s);
        assert forall|i: int| 0 <= i < recs.len() implies {
            let x = #[trigger] spans(b)->Ok_0[i];
            &&& x.1 == recs[i].len()
            &&& 0 <= x.0
            &&& x.0 + x.1 <= b.len()
        } by {
            if i > 0 {
                assert(tail[i - 1] == recs[i]);
                assert(sp[i] == (rest[i - 1].0 + s, rest[i - 1].1));
            }
        }
    }
}

/// The records from `pos` on lie end to end in region order: the first starts
/// at `pos`, each starts where the one before it ends, so their offsets
/// strictly increase, and the last ends at the region's end.
pub proof fn lemma_spans_in_region_order(b: Seq<u8>, pos: int)
    requires
        0 <= pos <= b.len(),
        spans_from(b, pos) is Ok,
    ensures
        ({
            let sp = spans_from(b, pos)->Ok_0;
            &&& sp.len() > 0 ==> sp[0].0 == pos
            &&& sp.len() > 0 ==> sp[sp.len() - 1].0 + sp[sp.len() - 1].1 == b.len()
            &&& sp.len() == 0 ==> pos == b.len()
            &&& forall|i: int| 0 <= i < sp.len() ==> (#[trigger] sp[i]).1 >= HEADER_SIZE
            &&& forall|i: int|
                0 <= i < sp.len() - 1 ==> (#[trigger] sp[i]).0 + sp[i].1 == sp[i + 1].0
            &&& forall|i: int, j: int| 0 <= i < j < sp.len() ==> (#[trigger] sp[i]).0 < (#[trigger] sp[j]).0
        }),
    decreases b.len() - pos,
{
    if pos < b.len() {
        let s = step_at(b, pos)->Ok_0;
        lemma_spans_in_region_order(b, pos + s);
        let rest = spans_from(b, pos + s)->Ok_0;
        let sp = spans_from(b, pos)->Ok_0;
        assert(sp == seq![(pos, s)] + rest);
        assert forall|i: int| 0 <= i < sp.len() - 1 implies (#[trigger] sp[i]).0 + sp[i].1 == sp[i + 1].0 by {
            if i > 0 {
                assert(sp[i] == rest[i - 1]);
            }
        }
        assert forall|i: int, j: int| 0 <= i < j < sp.len() implies (#[trigger] sp[i]).0 < (#[trigger] sp[j]).0 by {
            if i > 0 {
                assert(sp[i] == rest[i - 1] && sp[j] == rest[j - 1]);
            } else {
                assert(sp[j] == rest[j - 1]);
                assert(rest[j - 1].0 >= pos + s);
            }
        }
    }
}

/// One cursor step: the stride of the record at `pos`, checked against the
/// region's end, so that the cursor never runs past it and always advances.
pub fn record_stride(b: &[u8], pos: usize) -> (r: Result<usize, RegionError>)
    requires
        pos < b@.len(),
    ensures
        r matches Ok(s) ==> step_at(b@, pos as int) == Ok::<int, RegionError>(s as int),
        r matches Err(e) ==> step_at(b@, pos as int) == Err::<int, RegionError>(e),
{
    let len = b.len();
    if len - pos < HEADER_SIZE {
        return Err(RegionError::TruncatedHeader { offset: pos });
    }
    let s = read_u32(b, pos + BYTES_OF_FRAME_AT) as usize;
    if s == 0 {
        Err(RegionError::ZeroStride { offset: pos })
    } else if s < HEADER_SIZE {
        Err(RegionError::StrideBelowHeader { offset: pos })
    } else if s > len - pos {
        Err(RegionError::Overrun { offset: pos })
    } else {
        Ok(s)
    }
}

/// Counts the records of `b` by walking from the start, advancing by each
/// record's stride; fails at the first malformed record.
pub fn count_records(b: &[u8]) -> (r: Result<usize, RegionError>)
    ensures
        r matches Ok(n) ==> spans(b@) matches Ok(sp) && sp.len() == n,
        r matches Err(e) ==> spans(b@) == Err::<Seq<(int, int)>, RegionError>(e),
{
    let len = b.len();
    let mut pos: usize = 0;
    let mut count: usize = 0;
    let ghost mut done: Seq<(int, int)> = Seq::empty();
    while pos < len
        invariant
            len == b@.len(),
            pos <= len,
            count == done.len(),
            count <= pos,
            spans(b@) == after(done, spans_from(b@, pos as int)),
        decreases len - pos,
    {
        match record_stride(b, pos) {
            Err(e) => {
                return Err(e);
            },
            Ok(s) => {
                proof {
                    let rest = spans_from(b@, pos + s);
                    assert(spans_from(b@, pos as int) == after(seq![(pos as int, s as int)], rest));
                    match rest {
                        Ok(r) => {
                            assert(done + (seq![(pos as int, s as int)] + r) =~= done.push(
                                (pos as int, s as int),
                            ) + r);
                        },
                        Err(_) => {},
                    }
                    done = done.push((pos as int, s as int));
                }
                pos = pos + s;
                count = count + 1;
            },
        }
    }
    proof {
        assert(done + Seq::<(int, int)>::empty() =~= done);
    }
    Ok(count)
}

} // verus!
