//! Events of a benchmark, and the clock that stamps them.
use std::time::SystemTime;
use vstd::prelude::*;

verus! {

/// An event of a ring: a sequence number, a time stamp and a payload of `SIZE`
/// bytes.
#[derive(Clone, Copy)]
pub struct BenchEvent<const SIZE: usize> {
    /// Set by the producer, one more for each event.
    pub sequence: u64,
    /// When the event was sent, in nanoseconds.
    pub timestamp_ns: u64,
    pub payload: [u8; SIZE],
}

impl<const SIZE: usize> Default for BenchEvent<SIZE> {
    /// An event of zeros.
    fn default() -> (r: BenchEvent<SIZE>)
        ensures
            r.sequence == 0,
            r.timestamp_ns == 0,
            forall|i: int| 0 <= i < SIZE ==> #[trigger] r.payload@[i] == 0,
    {
        BenchEvent { sequence: 0, timestamp_ns: 0, payload: [0u8;SIZE] }
    }
}

/// An event of 64 bytes.
pub type Event64 = BenchEvent<48>;

/// An event of 144 bytes.
pub type Event144 = BenchEvent<128>;

/// An event of 256 bytes.
pub type Event256 = BenchEvent<240>;

/// An event of 1 KiB.
pub type Event1K = BenchEvent<1008>;

/// An event of 4 KiB.
pub type Event4K = BenchEvent<4080>;

/// An event of 8 KiB.
pub type Event8K = BenchEvent<8176>;

/// An event of 16 KiB.
pub type Event16K = BenchEvent<16368>;

/// An event of 32 KiB.
pub type Event32K = BenchEvent<32752>;

/// An event of 64 KiB.
pub type Event64K = BenchEvent<65520>;

/// An event of 96 KiB.
pub type Event96K = BenchEvent<98288>;

/// An event of 128 KiB.
pub type Event128K = BenchEvent<131056>;

/// An event that goes back and forth: a header of 64 bytes and a payload of
/// `SIZE` bytes. Its delay is counted from the time at which it was to be sent,
/// not from the time at which it was sent.
#[derive(Clone, Copy)]
pub struct PingPongEvent<const SIZE: usize> {
    pub sequence: u64,
    pub timestamp_ns: u64,
    pub intended_send_time_ns: u64,
    /// Fills the header up to 64 bytes.
    pub _pad: [u8; 40],
    pub payload: [u8; SIZE],
}

impl<const SIZE: usize> Default for PingPongEvent<SIZE> {
    /// An event of zeros.
    fn default() -> (r: PingPongEvent<SIZE>)
        ensures
            r.sequence == 0,
            r.timestamp_ns == 0,
            r.intended_send_time_ns == 0,
            forall|i: int| 0 <= i < 40 ==> #[trigger] r._pad@[i] == 0,
            forall|i: int| 0 <= i < SIZE ==> #[trigger] r.payload@[i] == 0,
    {
        PingPongEvent {
            sequence: 0,
            timestamp_ns: 0,
            intended_send_time_ns: 0,
            _pad: [0u8;40],
            payload: [0u8;SIZE],
        }
    }
}

impl<const SIZE: usize> PingPongEvent<SIZE> {
    /// Sets the header for a send; the payload stays.
    pub fn write_header(&mut self, sequence: u64, timestamp_ns: u64, intended_send_time_ns: u64)
        ensures
            *final(self) == (PingPongEvent {
                sequence,
                timestamp_ns,
                intended_send_time_ns,
                _pad: old(self)._pad,
                payload: old(self).payload,
            }),
    {
        self.sequence = sequence;
        self.timestamp_ns = timestamp_ns;
        self.intended_send_time_ns = intended_send_time_ns;
    }
}

/// A ping-pong event of 64 bytes, without a payload.
pub type PingPong64 = PingPongEvent<0>;

/// A ping-pong event of 512 bytes.
pub type PingPong512 = PingPongEvent<448>;

/// A ping-pong event of 1 KiB.
pub type PingPong1K = PingPongEvent<960>;

/// A ping-pong event of 4 KiB.
pub type PingPong4K = PingPongEvent<4032>;

/// A ping-pong event of 16 KiB.
pub type PingPong16K = PingPongEvent<16320>;

/// A ping-pong event of 64 KiB.
pub type PingPong64K = PingPongEvent<65472>;

/// A ping-pong event of 128 KiB.
pub type PingPong128K = PingPongEvent<131008>;

/// `SystemTime::elapsed`, asked of the Unix epoch: the nanoseconds that the
/// system's clock stands after it, and none where it stands before. Nothing is
/// claimed of what the clock shows.
#[verifier::external_body]
fn clock_since_epoch() -> Option<u128> {
    SystemTime::UNIX_EPOCH.elapsed().ok().map(|elapsed| elapsed.as_nanos())
}

/// The nanoseconds since the Unix epoch that a reading of the clock shows: the
/// low 64 bits of them, and zero for a clock that stands before the epoch.
pub fn epoch_nanos(since_epoch: Option<u128>) -> (r: u64)
    ensures
        r == match since_epoch {
            Some(nanos) => (nanos % 0x1_0000_0000_0000_0000) as u64,
            None => 0,
        },
{
    match since_epoch {
        Some(nanos) => (nanos % 0x1_0000_0000_0000_0000) as u64,
        None => 0,
    }
}

/// The current time in nanoseconds since the Unix epoch.
pub fn nanos_now() -> u64 {
    epoch_nanos(clock_since_epoch())
}

} // verus!
