//! Messages in the slots of a ring: frames with a header, and right-sized slots.
use vstd::prelude::*;
use vstd::slice::slice_subrange;

verus! {

/// `after` is `before` with `payload` at its start.
pub open spec fn overwritten(before: Seq<u8>, payload: Seq<u8>, after: Seq<u8>) -> bool {
    &&& after.len() == before.len()
    &&& forall|i: int|
        0 <= i < after.len() ==> #[trigger] after[i] == if i < payload.len() {
            payload[i]
        } else {
            before[i]
        }
}

/// Copies `payload` to the start of `data`.
fn copy_to_start<const N: usize>(data: &mut [u8; N], payload: &[u8])
    requires
        payload@.len() <= N,
    ensures
        overwritten(old(data)@, payload@, final(data)@),
{
    let ghost before = data@;
    for i in 0..payload.len()
        invariant
            payload@.len() <= N,
            before == old(data)@,
            data@.len() == before.len(),
            forall|k: int|
                0 <= k < data@.len() ==> #[trigger] data@[k] == if k < i {
                    payload@[k]
                } else {
                    before[k]
                },
    {
        data[i] = payload[i];
    }
}

/// The stamp of a message: the time at which it was to be sent, or else the
/// current time.
pub fn send_timestamp(intended_ns: Option<u64>, now_ns: u64) -> (r: u64)
    ensures
        r == match intended_ns {
            Some(intended) => intended,
            None => now_ns,
        },
{
    match intended_ns {
        Some(intended) => intended,
        None => now_ns,
    }
}

/// What a frame holds.
#[derive(Clone, Copy, Debug)]
pub struct FrameMeta<'a> {
    pub len: usize,
    pub kind: u8,
    pub flags: u8,
    pub msg_id: u32,
    pub timestamp_ns: Option<u64>,
    pub data: &'a [u8],
}

/// A frame with a time stamp, and room for `DATA_BYTES` bytes.
#[derive(Clone, Copy, Debug)]
pub struct TimedFrame<const DATA_BYTES: usize> {
    pub len: u32,
    pub kind: u8,
    pub flags: u8,
    pub msg_id: u32,
    pub timestamp_ns: u64,
    pub data: [u8; DATA_BYTES],
}

impl<const DATA_BYTES: usize> Default for TimedFrame<DATA_BYTES> {
    /// An empty frame.
    fn default() -> (r: TimedFrame<DATA_BYTES>)
        ensures
            r.len == 0,
            r.kind == 0,
            r.flags == 0,
            r.msg_id == 0,
            r.timestamp_ns == 0,
            forall|i: int| 0 <= i < DATA_BYTES ==> #[trigger] r.data@[i] == 0,
    {
        TimedFrame {
            len: 0,
            kind: 0,
            flags: 0,
            msg_id: 0,
            timestamp_ns: 0,
            data: [0u8;DATA_BYTES],
        }
    }
}

impl<const DATA_BYTES: usize> TimedFrame<DATA_BYTES> {
    /// Its message fits.
    pub open spec fn well_formed(&self) -> bool {
        self.len <= DATA_BYTES
    }

    /// The message in the frame.
    pub open spec fn message(&self) -> Seq<u8> {
        self.data@.take(self.len as int)
    }

    /// The bytes that a message can have.
    pub fn payload_capacity() -> (r: usize)
        ensures
            r == DATA_BYTES,
    {
        DATA_BYTES
    }

    /// What the frame holds.
    pub fn frame_meta(&self) -> (r: FrameMeta<'_>)
        requires
            self.well_formed(),
        ensures
            r.len == self.len,
            r.kind == self.kind,
            r.flags == self.flags,
            r.msg_id == self.msg_id,
            r.timestamp_ns == Some(self.timestamp_ns),
            r.data@ == self.message(),
    {
        FrameMeta {
            len: self.len as usize,
            kind: self.kind,
            flags: self.flags,
            msg_id: self.msg_id,
            timestamp_ns: Some(self.timestamp_ns),
            data: slice_subrange(self.data.as_slice(), 0, self.len as usize),
        }
    }

    /// Puts a message into the frame. What stood behind it stays.
    pub fn write_frame(
        &mut self,
        payload: &[u8],
        kind: u8,
        msg_id: u32,
        flags: u8,
        timestamp_ns: u64,
    )
        requires
            payload@.len() <= DATA_BYTES,
            payload@.len() <= u32::MAX,
        ensures
            final(self).well_formed(),
            final(self).len == payload@.len(),
            final(self).kind == kind,
            final(self).flags == flags,
            final(self).msg_id == msg_id,
            final(self).timestamp_ns == timestamp_ns,
            overwritten(old(self).data@, payload@, final(self).data@),
            final(self).message() == payload@,
    {
        self.len = payload.len() as u32;
        self.kind = kind;
        self.flags = flags;
        self.msg_id = msg_id;
        self.timestamp_ns = timestamp_ns;
        copy_to_start(&mut self.data, payload);
        assert(self.message() =~= payload@);
    }
}

/// A frame of 2 KiB.
pub type Frame2K = TimedFrame<2024>;

/// A frame of 8 KiB.
pub type Frame8K = TimedFrame<8168>;

/// A frame of 32 KiB.
pub type Frame32K = TimedFrame<32744>;

/// A frame of 64 KiB.
pub type Frame64K = TimedFrame<65512>;

/// A frame of 128 KiB.
pub type Frame128K = TimedFrame<131048>;

/// A slot for one encoded message of up to `DATA_BYTES` bytes.
#[derive(Clone, Copy, Debug)]
pub struct MessageSlot<const DATA_BYTES: usize> {
    pub len: u32,
    pub timestamp_ns: u64,
    pub data: [u8; DATA_BYTES],
}

impl<const DATA_BYTES: usize> Default for MessageSlot<DATA_BYTES> {
    /// An empty slot.
    fn default() -> (r: MessageSlot<DATA_BYTES>)
        ensures
            r.len == 0,
            r.timestamp_ns == 0,
            forall|i: int| 0 <= i < DATA_BYTES ==> #[trigger] r.data@[i] == 0,
    {
        MessageSlot { len: 0, timestamp_ns: 0, data: [0u8;DATA_BYTES] }
    }
}

impl<const DATA_BYTES: usize> MessageSlot<DATA_BYTES> {
    /// Its message fits.
    pub open spec fn well_formed(&self) -> bool {
        self.len <= DATA_BYTES
    }

    /// The message in the slot.
    pub open spec fn message(&self) -> Seq<u8> {
        self.data@.take(self.len as int)
    }

    /// Puts an encoded message into the slot. What stood behind it stays.
    pub fn write(&mut self, encoded: &[u8], timestamp_ns: u64)
        requires
            encoded@.len() <= DATA_BYTES,
            encoded@.len() <= u32::MAX,
        ensures
            final(self).well_formed(),
            final(self).len == encoded@.len(),
            final(self).timestamp_ns == timestamp_ns,
            overwritten(old(self).data@, encoded@, final(self).data@),
            final(self).message() == encoded@,
    {
        self.len = encoded.len() as u32;
        self.timestamp_ns = timestamp_ns;
        copy_to_start(&mut self.data, encoded);
        assert(self.message() =~= encoded@);
    }

    /// The message in the slot.
    pub fn bytes(&self) -> (r: &[u8])
        requires
            self.well_formed(),
        ensures
            r@ == self.message(),
    {
        slice_subrange(self.data.as_slice(), 0, self.len as usize)
    }
}

/// The time that the phases of a run took in all.
#[derive(Clone, Copy, Debug, PartialEq, Eq, Structural)]
pub struct PhaseSums {
    pub first_ns: u64,
    pub second_ns: u64,
}

impl PhaseSums {
    /// No time yet.
    pub fn new() -> (r: PhaseSums)
        ensures
            r == (PhaseSums { first_ns: 0, second_ns: 0 }),
    {
        PhaseSums { first_ns: 0, second_ns: 0 }
    }

    /// Adds the two phases between three readings of a clock.
    pub fn add_phases(&mut self, start_ns: u64, middle_ns: u64, end_ns: u64)
        requires
            start_ns <= middle_ns <= end_ns,
            old(self).first_ns + (middle_ns - start_ns) <= u64::MAX,
            old(self).second_ns + (end_ns - middle_ns) <= u64::MAX,
        ensures
            final(self).first_ns == old(self).first_ns + (middle_ns - start_ns),
            final(self).second_ns == old(self).second_ns + (end_ns - middle_ns),
    {
        self.first_ns = self.first_ns + (middle_ns - start_ns);
        self.second_ns = self.second_ns + (end_ns - middle_ns);
    }
}

} // verus!
