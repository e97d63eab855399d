//! Little-endian payload layouts of the frames the subsystems publish, and
//! the test for an emergency stop among received frames.
use vstd::prelude::*;

use crate::can::frame::{CanFrame, CanId, MAX_STANDARD_ID};
use crate::can::well_known::EMERGENCY_STOP;

verus! {

/// Little-endian bytes of a 16-bit value.
pub open spec fn le_bytes_u16(v: u16) -> Seq<u8> {
    seq![(v % 256) as u8, (v / 256) as u8]
}

/// Little-endian bytes of a 32-bit value.
pub open spec fn le_bytes_u32(v: u32) -> Seq<u8> {
    seq![
        (v % 256) as u8,
        ((v / 256) % 256) as u8,
        ((v / 65536) % 256) as u8,
        (v / 16777216) as u8,
    ]
}

/// A frame with the given identifier and payload, stamped at time zero.
pub open spec fn is_frame(f: CanFrame, id: u16, payload: Seq<u8>) -> bool {
    &&& f.id.value() == id
    &&& f.bytes() == payload
    &&& f.timestamp_us == 0
}

fn frame_of(id: u16, data: &[u8]) -> (f: CanFrame)
    requires
        id <= MAX_STANDARD_ID,
        data@.len() <= 8,
    ensures
        is_frame(f, id, data@),
{
    let f = CanFrame::new(CanId::new_unchecked(id), data, 0);
    assert(data@.take(data@.len() as int) == data@);
    f
}

/// A one-byte frame.
pub fn u8_frame(id: u16, v: u8) -> (f: CanFrame)
    requires
        id <= MAX_STANDARD_ID,
    ensures
        is_frame(f, id, seq![v]),
{
    let data = [v];
    let f = frame_of(id, data.as_slice());
    assert(data@ == seq![v]);
    f
}

/// A frame holding an unsigned 16-bit value, little-endian.
pub fn u16_frame(id: u16, v: u16) -> (f: CanFrame)
    requires
        id <= MAX_STANDARD_ID,
    ensures
        is_frame(f, id, le_bytes_u16(v)),
{
    let data = [(v % 256) as u8, (v / 256) as u8];
    let f = frame_of(id, data.as_slice());
    assert(data@ == le_bytes_u16(v));
    f
}

/// A frame holding a signed 16-bit value in two's complement, little-endian.
pub fn i16_frame(id: u16, v: i16) -> (f: CanFrame)
    requires
        id <= MAX_STANDARD_ID,
    ensures
        is_frame(f, id, le_bytes_u16(v as u16)),
{
    u16_frame(id, v as u16)
}

/// A frame holding a signed 32-bit value in two's complement, little-endian.
pub fn i32_frame(id: u16, v: i32) -> (f: CanFrame)
    requires
        id <= MAX_STANDARD_ID,
    ensures
        is_frame(f, id, le_bytes_u32(v as u32)),
{
    let u = v as u32;
    let data = [(u % 256) as u8, ((u / 256) % 256) as u8, ((u / 65536) % 256) as u8, (u / 16777216) as u8];
    let f = frame_of(id, data.as_slice());
    assert(data@ == le_bytes_u32(u));
    f
}

/// Whether any of the frames is an emergency stop.
pub open spec fn has_emergency_stop(frames: Seq<CanFrame>) -> bool {
    exists|i: int| 0 <= i < frames.len() && (#[trigger] frames[i]).id.value() == EMERGENCY_STOP
}

pub fn emergency_stop_seen(frames: &Vec<CanFrame>) -> (r: bool)
    ensures
        r == has_emergency_stop(frames@),
{
    let mut i: usize = 0;
    while i < frames.len()
        invariant
            i <= frames@.len(),
            forall|j: int| 0 <= j < i ==> (#[trigger] frames@[j]).id.value() != EMERGENCY_STOP,
        decreases frames@.len() - i,
    {
        if frames[i].id.raw() == EMERGENCY_STOP {
            return true;
        }
        i = i + 1;
    }
    false
}


/// Little-endian encodings put the least significant byte first: reading the
/// bytes back, each weighted by 256 to its position, gives the value.
pub proof fn law_little_endian_round_trip(a: u16, b: u32)
    ensures
        le_bytes_u16(a).len() == 2,
        le_bytes_u16(a)[0] + 256 * le_bytes_u16(a)[1] == a,
        le_bytes_u32(b).len() == 4,
        le_bytes_u32(b)[0] + 256 * le_bytes_u32(b)[1] + 65536 * le_bytes_u32(b)[2] + 16777216
            * le_bytes_u32(b)[3] == b,
{
}

/// A single emergency stop (identifier 0x001) among received frames is seen,
/// wherever it stands, and frames with other identifiers never count as one.
pub proof fn law_emergency_stop_anywhere(frames: Seq<CanFrame>, k: int)
    requires
        0 <= k < frames.len(),
    ensures
        frames[k].id.value() == 0x001 ==> has_emergency_stop(frames),
        (forall|i: int| 0 <= i < frames.len() ==> (#[trigger] frames[i]).id.value() != 0x001)
            ==> !has_emergency_stop(frames),
{
}

} // verus!
