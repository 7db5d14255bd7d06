//! The consumer end of the channel that gathers a child's stdout and stderr.
use crate::supervisor::Event;
use crossbeam_channel::{Receiver, TryRecvError};
use vstd::prelude::*;

verus! {

/// crossbeam_channel's receiving end, carried through opaquely.
#[verifier::external_type_specification]
#[verifier::external_body]
#[verifier::reject_recursive_types(T)]
pub struct ExReceiver<T>(Receiver<T>);

/// What one read of the output channel gave.
#[derive(Clone, Copy, Debug, PartialEq, Eq, Structural)]
pub enum ChannelRead {
    Byte(u8),
    /// No byte was waiting, and some producer was still there.
    Empty,
    /// No byte was waiting, and every producer was gone.
    Closed,
}

/// The event the supervisor is told of after a read of the output channel.
pub open spec fn read_event(r: ChannelRead) -> Event {
    match r {
        ChannelRead::Byte(b) => Event::ByteAvailable(b),
        ChannelRead::Empty => Event::ChannelEmpty,
        ChannelRead::Closed => Event::ChannelClosed,
    }
}

/// Reports a read of the output channel.
pub fn event_of_read(r: ChannelRead) -> (e: Event)
    ensures
        e == read_event(r),
{
    match r {
        ChannelRead::Byte(b) => Event::ByteAvailable(b),
        ChannelRead::Empty => Event::ChannelEmpty,
        ChannelRead::Closed => Event::ChannelClosed,
    }
}

/// Relies on crossbeam_channel::Receiver::try_recv: it takes the next waiting
/// byte without blocking, or says whether the channel was merely empty or
/// empty with every sender gone. Which of these comes back depends on the
/// producers' timing, so nothing is promised of it.
#[verifier::external_body]
fn try_recv_byte(rx: &Receiver<u8>) -> (r: ChannelRead) {
    match rx.try_recv() {
        Ok(b) => ChannelRead::Byte(b),
        Err(TryRecvError::Empty) => ChannelRead::Empty,
        Err(TryRecvError::Disconnected) => ChannelRead::Closed,
    }
}

/// Relies on crossbeam_channel::Receiver::recv: it blocks until a byte can be
/// taken, or fails once the channel is empty with every sender gone; it never
/// reports a merely empty channel.
#[verifier::external_body]
fn recv_byte(rx: &Receiver<u8>) -> (r: ChannelRead)
    ensures
        r != ChannelRead::Empty,
{
    match rx.recv() {
        Ok(b) => ChannelRead::Byte(b),
        Err(_) => ChannelRead::Closed,
    }
}

/// Takes the next byte of the child's output if one is waiting, as the event
/// the supervisor expects while the child runs.
pub fn take_output_byte(rx: &Receiver<u8>) -> (r: Event)
    ensures
        exists|read: ChannelRead| r == read_event(read),
{
    let read = try_recv_byte(rx);
    event_of_read(read)
}

/// Waits for the next byte of the child's output or for the end of it, as
/// the event the supervisor expects once the child has exited.
pub fn await_output_byte(rx: &Receiver<u8>) -> (r: Event)
    ensures
        r is ByteAvailable || r is ChannelClosed,
{
    let read = recv_byte(rx);
    event_of_read(read)
}

} // verus!
