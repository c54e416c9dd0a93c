//! Zero-copy access to the frame records that an acquisition runtime maps for
//! reading: a bounds-checked walk over a mapped region, a session whose exit
//! yields exactly one unmap request and turns every frame view of it stale,
//! and typed views of each frame's header and samples.
use vstd::prelude::*;

pub mod record;
pub mod region;
pub mod runtime;
pub mod sample_type;
pub mod session;

verus! {

} // verus!
