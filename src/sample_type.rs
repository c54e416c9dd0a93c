use vstd::prelude::*;

verus! {

/// Element encoding of one pixel sample, as tagged in a record's shape descriptor.
#[derive(Debug, Clone, Copy, PartialEq, Eq, Structural)]
pub enum SampleType {
    U8,
    U16,
    I8,
    I16,
    F32,
    U10,
    U12,
    U14,
}

/// The tag value that the native ABI uses for each sample type.
pub open spec fn tag_of(t: SampleType) -> u32 {
    match t {
        SampleType::U8 => 0,
        SampleType::U16 => 1,
        SampleType::I8 => 2,
        SampleType::I16 => 3,
        SampleType::F32 => 4,
        SampleType::U10 => 5,
        SampleType::U12 => 6,
        SampleType::U14 => 7,
    }
}

/// Bytes that one sample of type `t` occupies in a payload. The fixed-point
/// types are stored in 16-bit words.
pub open spec fn sample_size(t: SampleType) -> nat {
    match t {
        SampleType::U8 | SampleType::I8 => 1,
        SampleType::U16 | SampleType::I16 | SampleType::U10 | SampleType::U12 | SampleType::U14 => 2,
        SampleType::F32 => 4,
    }
}

/// The sample type that a tag stands for, if it is one of the closed set.
pub open spec fn sample_type_of(tag: u32) -> Option<SampleType> {
    if tag == 0 {
        Some(SampleType::U8)
    } else if tag == 1 {
        Some(SampleType::U16)
    } else if tag == 2 {
        Some(SampleType::I8)
    } else if tag == 3 {
        Some(SampleType::I16)
    } else if tag == 4 {
        Some(SampleType::F32)
    } else if tag == 5 {
        Some(SampleType::U10)
    } else if tag == 6 {
        Some(SampleType::U12)
    } else if tag == 7 {
        Some(SampleType::U14)
    } else {
        None
    }
}

impl Default for SampleType {
    fn default() -> (r: SampleType)
        ensures
            r == SampleType::U8,
    {
        SampleType::U8
    }
}

impl SampleType {
    /// Every sample type, in tag order.
    pub fn iter() -> (r: Vec<SampleType>)
        ensures
            r@.len() == 8,
            forall|i: int| 0 <= i < 8 ==> tag_of(#[trigger] r@[i]) == i,
    {
        vec![
            SampleType::U8,
            SampleType::U16,
            SampleType::I8,
            SampleType::I16,
            SampleType::F32,
            SampleType::U10,
            SampleType::U12,
            SampleType::U14,
        ]
    }

    /// The tag that stands for this sample type.
    pub fn tag(&self) -> (r: u32)
        ensures
            r == tag_of(*self),
    {
        match self {
            SampleType::U8 => 0,
            SampleType::U16 => 1,
            SampleType::I8 => 2,
            SampleType::I16 => 3,
            SampleType::F32 => 4,
            SampleType::U10 => 5,
            SampleType::U12 => 6,
            SampleType::U14 => 7,
        }
    }

    /// Bytes per sample.
    pub fn size(&self) -> (r: usize)
        ensures
            r == sample_size(*self),
    {
        match self {
            SampleType::U8 | SampleType::I8 => 1,
            SampleType::F32 => 4,
            _ => 2,
        }
    }

    /// The sample type that `tag` stands for; `None` for a tag outside the set.
    pub fn from_tag(tag: u32) -> (r: Option<SampleType>)
        ensures
            r == sample_type_of(tag),
            r matches Some(t) ==> tag_of(t) == tag,
            r is Some <==> tag < 8,
    {
        match tag {
            0 => Some(SampleType::U8),
            1 => Some(SampleType::U16),
            2 => Some(SampleType::I8),
            3 => Some(SampleType::I16),
            4 => Some(SampleType::F32),
            5 => Some(SampleType::U10),
            6 => Some(SampleType::U12),
            7 => Some(SampleType::U14),
            _ => None,
        }
    }
}

} // verus!
