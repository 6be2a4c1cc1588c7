//! The decisions of the task that runs a connection: it receives packets,
//! sends what the handler has to send, pings the other side before the
//! timeout runs out, and closes.
use vstd::prelude::*;

verus! {

/// How many seconds before the timeout runs out a ping is sent.
pub open spec fn spec_ping_margin_secs(timeout_secs: u64) -> u64 {
    if timeout_secs <= 1 {
        0
    } else if timeout_secs <= 10 {
        1
    } else {
        5
    }
}

/// A ping goes out before the timeout runs out: for a timeout of two
/// seconds or more the margin is at least one second and less than the
/// timeout, and for a timeout above ten seconds it is five seconds. A
/// timeout of a second or less leaves no margin.
pub proof fn law_ping_before_timeout(timeout_secs: u64)
    ensures
        timeout_secs >= 2 ==> 1 <= spec_ping_margin_secs(timeout_secs) < timeout_secs,
        timeout_secs > 10 ==> spec_ping_margin_secs(timeout_secs) == 5,
        timeout_secs <= 1 ==> spec_ping_margin_secs(timeout_secs) == 0,
        spec_ping_margin_secs(timeout_secs) <= timeout_secs,
{
}

/// How many seconds before the timeout runs out a ping is sent: a ping
/// goes out every `timeout_secs - ping_margin_secs(timeout_secs)` seconds.
pub fn ping_margin_secs(timeout_secs: u64) -> (r: u64)
    ensures
        r == spec_ping_margin_secs(timeout_secs),
        r <= timeout_secs,
{
    if timeout_secs <= 1 {
        0
    } else if timeout_secs <= 10 {
        1
    } else {
        5
    }
}

/// Whether the connection still takes packets, pings and requests, and
/// whether a close packet waits to be sent when nothing is left to do.
pub struct StreamControl {
    should_close: bool,
    close_packet: bool,
}

impl StreamControl {
    pub closed spec fn closing(&self) -> bool {
        self.should_close
    }

    pub closed spec fn close_packet_waits(&self) -> bool {
        self.close_packet
    }

    pub fn new() -> (r: Self)
        ensures
            !r.closing(),
            !r.close_packet_waits(),
    {
        StreamControl { should_close: false, close_packet: false }
    }

    /// Whether packets are still received, pings sent and a close or a new
    /// configuration taken.
    pub fn is_open(&self) -> (r: bool)
        ensures
            r == !self.closing(),
    {
        !self.should_close
    }

    /// The other side closes the connection: what is left is sent, nothing
    /// more is received.
    pub fn on_remote_close(&mut self)
        ensures
            final(self).closing(),
            final(self).close_packet_waits() == old(self).close_packet_waits(),
    {
        self.should_close = true;
    }

    /// This side closes the connection: the close packet is sent once
    /// everything else is.
    pub fn on_local_close(&mut self)
        ensures
            final(self).closing(),
            final(self).close_packet_waits(),
    {
        self.should_close = true;
        self.close_packet = true;
    }

    /// Nothing is left to do: whether the close packet is to be sent now;
    /// it is sent at most once.
    pub fn finish(&mut self) -> (r: bool)
        ensures
            r == old(self).close_packet_waits(),
            !final(self).close_packet_waits(),
            final(self).closing() == old(self).closing(),
    {
        let r = self.close_packet;
        self.close_packet = false;
        r
    }
}

} // verus!
