use vstd::prelude::*;

verus! {

/// The runtime calls whose failures are reported.
#[derive(Debug, Clone, Copy, PartialEq, Eq, Structural)]
pub enum NativeCall {
    Init,
    Start,
    Stop,
    Abort,
    ExecuteTrigger,
    MapRead,
    UnmapRead,
    Shutdown,
}

/// A runtime call that returned a failure status, with the call and the stream
/// it concerned.
#[derive(Debug, Clone, Copy, PartialEq, Eq, Structural)]
pub struct NativeError {
    pub call: NativeCall,
    pub stream_id: Option<u32>,
    pub status: u32,
}

/// The status code of a successful runtime call.
pub const STATUS_OK: u32 = 0;

/// Turns the status of `call` into a result: success only for `STATUS_OK`.
pub fn check_status(call: NativeCall, stream_id: Option<u32>, status: u32) -> (r: Result<(), NativeError>)
    ensures
        status == STATUS_OK ==> r is Ok,
        status != STATUS_OK ==> r == Err::<(), NativeError>(NativeError { call, stream_id, status }),
{
    if status == STATUS_OK {
        Ok(())
    } else {
        Err(NativeError { call, stream_id, status })
    }
}

/// How a scoped read ended badly: its body failed, or releasing the region did.
#[derive(Debug, PartialEq, Eq)]
pub enum ScopeError<E> {
    Body(E),
    Cleanup(NativeError),
}

/// The outcome of a scoped read from the outcome of its body and that of the
/// unmap that always follows it. A failed unmap leaves the runtime
/// untrustworthy, so it outranks any failure of the body.
pub fn settle<T, E>(body: Result<T, E>, cleanup: Result<(), NativeError>) -> (r: Result<T, ScopeError<E>>)
    ensures
        cleanup matches Err(c) ==> r == Err::<T, ScopeError<E>>(ScopeError::Cleanup(c)),
        cleanup is Ok ==> match body {
            Ok(t) => r == Ok::<T, ScopeError<E>>(t),
            Err(e) => r == Err::<T, ScopeError<E>>(ScopeError::Body(e)),
        },
{
    match cleanup {
        Err(c) => Err(ScopeError::Cleanup(c)),
        Ok(()) => match body {
            Ok(t) => Ok(t),
            Err(e) => Err(ScopeError::Body(e)),
        },
    }
}

/// Hands out the identifiers that tell sessions apart, each one once.
pub struct SessionIds {
    next: u64,
}

impl View for SessionIds {
    type V = nat;

    /// The smallest identifier not handed out yet.
    closed spec fn view(&self) -> nat {
        self.next as nat
    }
}

impl SessionIds {
    pub fn new() -> (r: Self)
        ensures
            r@ == 0,
    {
        SessionIds { next: 0 }
    }

    /// A fresh identifier, larger than every one handed out before; `None`
    /// once the identifiers are used up.
    pub fn issue(&mut self) -> (r: Option<u64>)
        ensures
            old(self)@ < u64::MAX ==> r == Some(old(self)@ as u64) && final(self)@ == old(self)@ + 1,
            old(self)@ >= u64::MAX ==> r is None && final(self)@ == old(self)@,
    {
        if self.next == u64::MAX {
            None
        } else {
            let id = self.next;
            self.next = self.next + 1;
            Some(id)
        }
    }
}

} // verus!
