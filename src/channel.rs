//! Bounded channel that carries finished span payloads to the reporter
//! process. Admission is governed by an occupancy counter that senders
//! increment and the receiver decrements.

use ipc_channel::ipc::{IpcBytesReceiver, IpcBytesSender};
use ipc_channel::IpcError;
use std::sync::atomic::{AtomicUsize, Ordering};
use vstd::prelude::*;

verus! {

/// Number of undrained messages at which sends are refused.
pub const MAX_COUNT: usize = 100;

/// Why a payload was not sent or received.
#[derive(Debug, Clone, Copy, PartialEq, Eq, Structural)]
pub enum ChannelError {
    /// The payload is longer than the configured maximum.
    TooBig,
    /// The occupancy counter had already reached `MAX_COUNT`.
    Full,
    /// The sender or receiver endpoint could not be locked.
    Lock,
    /// The underlying transport reported a failure.
    Transport,
}

#[verifier::external_type_specification]
#[verifier::external_body]
pub struct ExIpcBytesSender(IpcBytesSender);

#[verifier::external_type_specification]
#[verifier::external_body]
pub struct ExIpcBytesReceiver(IpcBytesReceiver);

#[verifier::external_type_specification]
#[verifier::external_body]
pub struct ExIpcError(IpcError);

#[verifier::external_type_specification]
#[verifier::external_body]
pub struct ExIoError(std::io::Error);

/// Relies on ipc_channel's `IpcBytesSender::send`: it either transmits the
/// bytes as one message or reports an I/O error; it does not panic.
pub assume_specification[ IpcBytesSender::send ](
    sender: &IpcBytesSender,
    data: &[u8],
) -> Result<(), std::io::Error>;

/// Relies on ipc_channel's `IpcBytesReceiver::recv`: it blocks until a
/// message arrives and returns its bytes, or reports the channel's failure.
pub assume_specification[ IpcBytesReceiver::recv ](
    receiver: &IpcBytesReceiver,
) -> Result<Vec<u8>, IpcError>;

/// The length bound that a configured maximum stands for: a non-positive
/// setting leaves payloads unbounded.
pub open spec fn length_bound(configured: i64) -> usize {
    if configured <= 0 {
        usize::MAX
    } else {
        configured as usize
    }
}

/// The maximum payload length for a configured setting.
pub fn max_message_length(configured: i64) -> (r: usize)
    ensures
        r == length_bound(configured),
{
    if configured <= 0 {
        usize::MAX
    } else {
        configured as usize
    }
}

/// Admission check of a send once the counter has been incremented:
/// `previous` is the value the counter held before.
pub fn admission(previous: usize) -> (r: Result<(), ChannelError>)
    ensures
        r == (if previous >= MAX_COUNT { Err::<(), ChannelError>(ChannelError::Full) } else { Ok(()) }),
{
    if previous >= MAX_COUNT {
        Err(ChannelError::Full)
    } else {
        Ok(())
    }
}

/// Sends `data` to the reporter. An oversized payload is refused before the
/// counter is touched. Otherwise the counter is incremented first and the
/// payload is transmitted only if the counter was below `MAX_COUNT`; a
/// refused send leaves its increment in place, so the counter is an
/// advisory bound that may overshoot under contention.
pub fn channel_send(
    counter: &AtomicUsize,
    max_length: usize,
    sender: &IpcBytesSender,
    data: &[u8],
) -> (r: Result<(), ChannelError>)
    ensures
        (r == Err::<(), ChannelError>(ChannelError::TooBig)) <==> data@.len() > max_length,
        r is Ok ==> data@.len() <= max_length,
        r != Err::<(), ChannelError>(ChannelError::Lock),
{
    if data.len() > max_length {
        return Err(ChannelError::TooBig);
    }
    let previous = counter.fetch_add(1, Ordering::SeqCst);
    match admission(previous) {
        Err(e) => Err(e),
        Ok(()) => match sender.send(data) {
            Ok(()) => Ok(()),
            Err(_) => Err(ChannelError::Transport),
        },
    }
}

/// What a receive returns for the transport's result: the payload exactly
/// as it arrived, or a transport failure.
pub fn receive_outcome(received: Result<Vec<u8>, IpcError>) -> (r: Result<Vec<u8>, ChannelError>)
    ensures
        match received {
            Ok(v) => r == Ok::<Vec<u8>, ChannelError>(v),
            Err(_) => r == Err::<Vec<u8>, ChannelError>(ChannelError::Transport),
        },
{
    match received {
        Ok(v) => Ok(v),
        Err(_) => Err(ChannelError::Transport),
    }
}

/// Blocks until a payload arrives, then decrements the counter and returns
/// the payload. A failed receive leaves the counter alone.
pub fn channel_receive(counter: &AtomicUsize, receiver: &IpcBytesReceiver) -> (r: Result<
    Vec<u8>,
    ChannelError,
>)
    ensures
        r is Err ==> r == Err::<Vec<u8>, ChannelError>(ChannelError::Transport),
{
    let r = receive_outcome(receiver.recv());
    if r.is_ok() {
        counter.fetch_sub(1, Ordering::SeqCst);
    }
    r
}

} // verus!
