//! FIFO model of a pool of in-flight asynchronous bulk-IN transfers.
//!
//! The pool holds opaque transfer tokens in submission order. The USB
//! work itself — allocating, submitting, cancelling and polling the real
//! transfers — happens outside this library; the pool decides which
//! transfer is reaped next, in which order cancellation is requested,
//! and how the raw libusb outcome codes map to typed results.

use std::collections::VecDeque;

use vstd::prelude::*;

verus! {

// Transfer status codes of the libusb ABI, as the driver reports them.
pub const LIBUSB_TRANSFER_COMPLETED: i32 = 0;

pub const LIBUSB_TRANSFER_ERROR: i32 = 1;

pub const LIBUSB_TRANSFER_TIMED_OUT: i32 = 2;

pub const LIBUSB_TRANSFER_CANCELLED: i32 = 3;

pub const LIBUSB_TRANSFER_STALL: i32 = 4;

pub const LIBUSB_TRANSFER_NO_DEVICE: i32 = 5;

pub const LIBUSB_TRANSFER_OVERFLOW: i32 = 6;

// Error codes of the libusb ABI.
pub const LIBUSB_ERROR_IO: i32 = -1;

pub const LIBUSB_ERROR_INVALID_PARAM: i32 = -2;

pub const LIBUSB_ERROR_ACCESS: i32 = -3;

pub const LIBUSB_ERROR_NO_DEVICE: i32 = -4;

pub const LIBUSB_ERROR_NOT_FOUND: i32 = -5;

pub const LIBUSB_ERROR_BUSY: i32 = -6;

pub const LIBUSB_ERROR_TIMEOUT: i32 = -7;

pub const LIBUSB_ERROR_OVERFLOW: i32 = -8;

pub const LIBUSB_ERROR_PIPE: i32 = -9;

pub const LIBUSB_ERROR_INTERRUPTED: i32 = -10;

pub const LIBUSB_ERROR_NO_MEM: i32 = -11;

pub const LIBUSB_ERROR_NOT_SUPPORTED: i32 = -12;

pub const LIBUSB_ERROR_OTHER: i32 = -99;

/// Error of the asynchronous transfer layer.
#[derive(Debug, Clone, Copy, PartialEq, Eq, Structural)]
pub enum AsyncError {
    /// No transfers pending.
    NoTransfersPending,
    /// Transfer is stalled.
    Stall,
    /// Device was disconnected.
    Disconnected,
    /// Transfer was cancelled.
    Cancelled,
    /// Input/output error.
    Io,
    /// Invalid parameter.
    InvalidParam,
    /// Access denied (insufficient permissions).
    Access,
    /// No such device (it may have been disconnected).
    NoDevice,
    /// Entity not found.
    NotFound,
    /// Resource busy.
    Busy,
    /// Operation timed out.
    Timeout,
    /// Overflow.
    Overflow,
    /// Pipe error.
    Pipe,
    /// System call interrupted (perhaps due to signal).
    Interrupted,
    /// Insufficient memory.
    NoMem,
    /// Operation not supported or unimplemented on this platform.
    NotSupported,
    /// Other error.
    Other,
}

/// Stream-level error: a disconnect is kept apart, everything else is
/// carried as an input/output failure.
#[derive(Debug, Clone, Copy, PartialEq, Eq, Structural)]
pub enum StreamError {
    /// The device was unplugged.
    Disconnected,
    /// Any other failure of the transfer layer.
    Io(AsyncError),
}

pub type StreamResult<T> = Result<T, StreamError>;

impl From<AsyncError> for StreamError {
    fn from(err: AsyncError) -> (r: StreamError) {
        match err {
            AsyncError::Disconnected => StreamError::Disconnected,
            _ => StreamError::Io(err),
        }
    }
}

impl vstd::std_specs::convert::FromSpecImpl<AsyncError> for StreamError {
    open spec fn obeys_from_spec() -> bool {
        true
    }

    open spec fn from_spec(err: AsyncError) -> StreamError {
        spec_stream_error(err)
    }
}

/// The stream error that an async error is lifted to.
pub open spec fn spec_stream_error(err: AsyncError) -> StreamError {
    match err {
        AsyncError::Disconnected => StreamError::Disconnected,
        _ => StreamError::Io(err),
    }
}

/// The async error named by a libusb error code, `None` for zero.
pub open spec fn spec_libusb_error(err: i32) -> Option<AsyncError> {
    if err == 0 {
        None
    } else if err == LIBUSB_ERROR_IO {
        Some(AsyncError::Io)
    } else if err == LIBUSB_ERROR_INVALID_PARAM {
        Some(AsyncError::InvalidParam)
    } else if err == LIBUSB_ERROR_ACCESS {
        Some(AsyncError::Access)
    } else if err == LIBUSB_ERROR_NO_DEVICE {
        Some(AsyncError::NoDevice)
    } else if err == LIBUSB_ERROR_NOT_FOUND {
        Some(AsyncError::NotFound)
    } else if err == LIBUSB_ERROR_BUSY {
        Some(AsyncError::Busy)
    } else if err == LIBUSB_ERROR_TIMEOUT {
        Some(AsyncError::Timeout)
    } else if err == LIBUSB_ERROR_OVERFLOW {
        Some(AsyncError::Overflow)
    } else if err == LIBUSB_ERROR_PIPE {
        Some(AsyncError::Pipe)
    } else if err == LIBUSB_ERROR_INTERRUPTED {
        Some(AsyncError::Interrupted)
    } else if err == LIBUSB_ERROR_NO_MEM {
        Some(AsyncError::NoMem)
    } else if err == LIBUSB_ERROR_NOT_SUPPORTED {
        Some(AsyncError::NotSupported)
    } else {
        Some(AsyncError::Other)
    }
}

/// True of zero and of every error code libusb defines.
pub open spec fn spec_known_libusb_code(err: i32) -> bool {
    err == 0 || (-12 <= err <= -1) || err == LIBUSB_ERROR_OTHER
}

impl AsyncError {
    /// Maps a raw libusb return code to `Ok` for zero and to the typed
    /// error otherwise. Codes libusb does not define are left out.
    pub fn from_libusb_error(err: i32) -> (r: Result<(), AsyncError>)
        requires
            spec_known_libusb_code(err),
        ensures
            r is Ok <==> err == 0,
            r matches Err(e) ==> spec_libusb_error(err) == Some(e),
    {
        if err == 0 {
            Ok(())
        } else if err == LIBUSB_ERROR_IO {
            Err(AsyncError::Io)
        } else if err == LIBUSB_ERROR_INVALID_PARAM {
            Err(AsyncError::InvalidParam)
        } else if err == LIBUSB_ERROR_ACCESS {
            Err(AsyncError::Access)
        } else if err == LIBUSB_ERROR_NO_DEVICE {
            Err(AsyncError::NoDevice)
        } else if err == LIBUSB_ERROR_NOT_FOUND {
            Err(AsyncError::NotFound)
        } else if err == LIBUSB_ERROR_BUSY {
            Err(AsyncError::Busy)
        } else if err == LIBUSB_ERROR_TIMEOUT {
            Err(AsyncError::Timeout)
        } else if err == LIBUSB_ERROR_OVERFLOW {
            Err(AsyncError::Overflow)
        } else if err == LIBUSB_ERROR_PIPE {
            Err(AsyncError::Pipe)
        } else if err == LIBUSB_ERROR_INTERRUPTED {
            Err(AsyncError::Interrupted)
        } else if err == LIBUSB_ERROR_NO_MEM {
            Err(AsyncError::NoMem)
        } else if err == LIBUSB_ERROR_NOT_SUPPORTED {
            Err(AsyncError::NotSupported)
        } else {
            Err(AsyncError::Other)
        }
    }
}

/// True of every transfer status the driver can report on a completed
/// transfer of this pool. Timeouts are excluded: the pool submits its
/// transfers with no hardware timeout, so the driver never reports one.
pub open spec fn spec_reapable_status(status: i32) -> bool {
    status == LIBUSB_TRANSFER_COMPLETED || status == LIBUSB_TRANSFER_ERROR || status
        == LIBUSB_TRANSFER_CANCELLED || status == LIBUSB_TRANSFER_STALL || status
        == LIBUSB_TRANSFER_NO_DEVICE || status == LIBUSB_TRANSFER_OVERFLOW
}

/// Result of reaping a transfer: the transferred byte count on
/// completion, the typed error on every other disposition.
pub open spec fn spec_transfer_disposition(status: i32, actual_length: i32) -> Result<
    usize,
    AsyncError,
> {
    if status == LIBUSB_TRANSFER_COMPLETED {
        Ok(actual_length as usize)
    } else if status == LIBUSB_TRANSFER_CANCELLED {
        Err(AsyncError::Cancelled)
    } else if status == LIBUSB_TRANSFER_STALL {
        Err(AsyncError::Stall)
    } else if status == LIBUSB_TRANSFER_NO_DEVICE {
        Err(AsyncError::Disconnected)
    } else if status == LIBUSB_TRANSFER_OVERFLOW {
        Err(AsyncError::Overflow)
    } else {
        Err(AsyncError::Other)
    }
}

/// The poll outcome: completion by the deadline gives `Ok(true)`, a
/// libusb timeout gives `Ok(false)`, any other nonzero code its error.
pub fn poll_disposition(err: i32, completed: bool) -> (r: StreamResult<bool>)
    requires
        spec_known_libusb_code(err),
    ensures
        err == 0 ==> r == StreamResult::<bool>::Ok(completed),
        err == LIBUSB_ERROR_TIMEOUT ==> r == StreamResult::<bool>::Ok(false),
        (err != 0 && err != LIBUSB_ERROR_TIMEOUT) ==> r == StreamResult::<bool>::Err(
            spec_stream_error(spec_libusb_error(err).unwrap()),
        ),
{
    if err == 0 {
        Ok(completed)
    } else if err == LIBUSB_ERROR_TIMEOUT {
        Ok(false)
    } else {
        match AsyncError::from_libusb_error(err) {
            Ok(_) => Ok(completed),
            Err(e) => Err(StreamError::from(e)),
        }
    }
}

/// The pool of in-flight transfers: opaque tokens in submission order,
/// the front being the transfer submitted first.
pub struct AsyncPool {
    pending: VecDeque<u64>,
}

impl View for AsyncPool {
    type V = Seq<u64>;

    closed spec fn view(&self) -> Seq<u64> {
        self.pending@
    }
}

impl AsyncPool {
    /// An empty pool.
    pub fn new() -> (r: AsyncPool)
        ensures
            r@ =~= Seq::<u64>::empty(),
    {
        AsyncPool { pending: VecDeque::new() }
    }

    /// Records a submitted transfer at the tail of the queue.
    pub fn submit(&mut self, transfer: u64)
        ensures
            final(self)@ == old(self)@.push(transfer),
    {
        self.pending.push_back(transfer);
    }

    /// The transfer to poll next: the head of the queue, or
    /// `NoTransfersPending` when nothing is in flight.
    pub fn poll_front(&self) -> (r: Result<u64, AsyncError>)
        ensures
            r matches Ok(t) ==> self@.len() > 0 && t == self@[0],
            r is Err <==> self@.len() == 0,
            r matches Err(e) ==> e == AsyncError::NoTransfersPending,
    {
        if self.pending.len() == 0 {
            Err(AsyncError::NoTransfersPending)
        } else {
            Ok(self.pending[0])
        }
    }

    /// Reaps the completed head of the queue, mapping the driver's
    /// status code to the transferred byte count or a typed error.
    /// `length` is the requested transfer size and bounds what was
    /// actually transferred.
    pub fn finish_front(&mut self, status: i32, length: i32, actual_length: i32) -> (r:
        Result<usize, AsyncError>)
        requires
            old(self)@.len() > 0,
            spec_reapable_status(status),
            0 <= actual_length <= length,
        ensures
            final(self)@ == old(self)@.drop_first(),
            r == spec_transfer_disposition(status, actual_length),
    {
        let popped = self.pending.pop_front();
        proof {
            assert(popped is Some);
            assert(final(self)@ =~= old(self)@.drop_first());
        }
        if status == LIBUSB_TRANSFER_COMPLETED {
            Ok(actual_length as usize)
        } else if status == LIBUSB_TRANSFER_CANCELLED {
            Err(AsyncError::Cancelled)
        } else if status == LIBUSB_TRANSFER_STALL {
            Err(AsyncError::Stall)
        } else if status == LIBUSB_TRANSFER_NO_DEVICE {
            Err(AsyncError::Disconnected)
        } else if status == LIBUSB_TRANSFER_OVERFLOW {
            Err(AsyncError::Overflow)
        } else {
            Err(AsyncError::Other)
        }
    }

    /// The transfers to cancel, in reverse order of submission: the
    /// latest-submitted transfer is cancelled first, so that no transfer
    /// submitted after a cancelled one can still reach the bus. The pool
    /// itself is unchanged: cancelled transfers are reaped by polling.
    pub fn cancellation_order(&self) -> (r: Vec<u64>)
        ensures
            r@ == self@.reverse(),
    {
        let n = self.pending.len();
        let mut order: Vec<u64> = Vec::new();
        let mut i: usize = n;
        while i > 0
            invariant
                i <= n,
                n == self@.len(),
                order@.len() == n - i,
                forall|k: int| 0 <= k < n - i ==> order@[k] == self@[n - 1 - k],
            decreases i,
        {
            i = i - 1;
            order.push(self.pending[i]);
        }
        proof {
            assert(order@ =~= self@.reverse());
        }
        order
    }

    /// Number of transfers in flight.
    pub fn pending(&self) -> (r: usize)
        ensures
            r == self@.len(),
    {
        self.pending.len()
    }

    /// True when no transfer is in flight.
    pub fn is_empty(&self) -> (r: bool)
        ensures
            r == (self@.len() == 0),
    {
        self.pending.len() == 0
    }
}

/// The queue after `polls` transfers have been reaped from the front.
pub open spec fn spec_drained(pending: Seq<u64>, polls: nat) -> Seq<u64>
    decreases polls,
{
    if polls == 0 || pending.len() == 0 {
        pending
    } else {
        spec_drained(pending.drop_first(), (polls - 1) as nat)
    }
}

/// Cancelling touches every pending transfer, in reverse order of
/// submission, and removes none of them; the drain that follows — one
/// reap per pending transfer — leaves the pool empty.
pub proof fn lemma_cancel_then_drain(pending: Seq<u64>)
    ensures
        pending.reverse().len() == pending.len(),
        forall|i: int|
            0 <= i < pending.len() ==> pending.reverse()[i] == pending[pending.len() - 1
                - i],
        spec_drained(pending, pending.len()).len() == 0,
    decreases pending.len(),
{
    if pending.len() > 0 {
        lemma_cancel_then_drain(pending.drop_first());
    }
}

} // verus!
