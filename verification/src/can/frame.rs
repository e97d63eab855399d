use vstd::prelude::*;

verus! {

/// Largest 11-bit CAN identifier.
pub const MAX_STANDARD_ID: u16 = 0x7FF;

/// Most data bytes a classic CAN frame carries.
pub const MAX_FRAME_DATA: usize = 8;

/// 11-bit CAN identifier. Lower value = higher priority.
#[derive(Debug, Clone, Copy, PartialEq, Eq, Structural, Hash, Ord)]
pub struct CanId(u16);

impl CanId {
    /// An identifier always fits in 11 bits.
    #[verifier::type_invariant]
    spec fn fits_eleven_bits(self) -> bool {
        self.0 <= MAX_STANDARD_ID
    }

    /// The raw identifier value.
    pub closed spec fn value(self) -> u16 {
        self.0
    }

    /// Create a CAN ID from a raw 11-bit value; `None` above 0x7FF.
    pub fn new(raw: u16) -> (id: Option<CanId>)
        ensures
            raw <= MAX_STANDARD_ID <==> id is Some,
            id matches Some(i) ==> i.value() == raw,
    {
        if raw <= MAX_STANDARD_ID {
            Some(CanId(raw))
        } else {
            None
        }
    }

    /// Create a CAN ID from a value the caller knows fits in 11 bits.
    pub fn new_unchecked(raw: u16) -> (id: CanId)
        requires
            raw <= MAX_STANDARD_ID,
        ensures
            id.value() == raw,
    {
        CanId(raw)
    }

    pub fn raw(self) -> (r: u16)
        ensures
            r == self.value(),
            r <= MAX_STANDARD_ID,
    {
        proof {
            use_type_invariant(&self);
        }
        self.0
    }

    /// The identifier as written on the bus monitor: `0x` and three upper-case
    /// hex digits, e.g. `0x100`.
    pub fn label(self) -> (s: String)
        ensures
            s@ == id_label(self.value()),
    {
        proof {
            use_type_invariant(&self);
        }
        let mut s = String::from_str("0x");
        proof {
            reveal_strlit("0x");
        }
        let v = self.0;
        s.append(hex_digit_str(((v / 256) % 16) as u8));
        s.append(hex_digit_str(((v / 16) % 16) as u8));
        s.append(hex_digit_str((v % 16) as u8));
        s
    }
}

/// Upper-case hex digit of a nibble.
pub open spec fn hex_char(n: int) -> char {
    if n < 10 {
        (48 + n) as char
    } else {
        (55 + n) as char
    }
}

/// The two upper-case hex digits of a byte.
pub open spec fn byte_hex(b: u8) -> Seq<char> {
    seq![hex_char((b / 16) as int), hex_char((b % 16) as int)]
}

/// `0x` followed by the three hex digits of an 11-bit identifier.
pub open spec fn id_label(v: u16) -> Seq<char> {
    seq![
        '0',
        'x',
        hex_char(((v / 256) % 16) as int),
        hex_char(((v / 16) % 16) as int),
        hex_char((v % 16) as int),
    ]
}

/// Hex digits of each byte, separated by single spaces.
pub open spec fn bytes_hex(s: Seq<u8>) -> Seq<char>
    decreases s.len(),
{
    if s.len() == 0 {
        Seq::empty()
    } else if s.len() == 1 {
        byte_hex(s[0])
    } else {
        bytes_hex(s.drop_last()) + seq![' '] + byte_hex(s.last())
    }
}

/// One upper-case hex digit as a string.
fn hex_digit_str(n: u8) -> (s: &'static str)
    requires
        n < 16,
    ensures
        s@ == seq![hex_char(n as int)],
{
    match n {
        0 => { proof { reveal_strlit("0"); } "0" },
        1 => { proof { reveal_strlit("1"); } "1" },
        2 => { proof { reveal_strlit("2"); } "2" },
        3 => { proof { reveal_strlit("3"); } "3" },
        4 => { proof { reveal_strlit("4"); } "4" },
        5 => { proof { reveal_strlit("5"); } "5" },
        6 => { proof { reveal_strlit("6"); } "6" },
        7 => { proof { reveal_strlit("7"); } "7" },
        8 => { proof { reveal_strlit("8"); } "8" },
        9 => { proof { reveal_strlit("9"); } "9" },
        10 => { proof { reveal_strlit("A"); } "A" },
        11 => { proof { reveal_strlit("B"); } "B" },
        12 => { proof { reveal_strlit("C"); } "C" },
        13 => { proof { reveal_strlit("D"); } "D" },
        14 => { proof { reveal_strlit("E"); } "E" },
        _ => { proof { reveal_strlit("F"); } "F" },
    }
}

/// An identifier is determined by its raw value: two identifiers with the
/// same value are the same identifier.
pub proof fn law_id_determined_by_value(a: CanId, b: CanId)
    ensures
        a.value() == b.value() <==> a == b,
{
}

/// The data bytes held by a frame's fixed-capacity buffer, in order.
pub uninterp spec fn frame_bytes(v: heapless::Vec<u8, 8>) -> Seq<u8>;

#[verifier::external_type_specification]
#[verifier::external_body]
#[verifier::reject_recursive_types(T)]
pub struct ExHeaplessVec<T, const N: usize>(heapless::Vec<T, N>);

/// `heapless::Vec::new`: an empty buffer.
#[verifier::external_body]
fn frame_data_new() -> (v: heapless::Vec<u8, 8>)
    ensures
        frame_bytes(v) == Seq::<u8>::empty(),
{
    heapless::Vec::new()
}

/// `heapless::Vec::push`: appends the byte when fewer than 8 are held and
/// returns `Ok`; otherwise leaves the buffer as it was and hands the byte back.
#[verifier::external_body]
fn frame_data_push(v: &mut heapless::Vec<u8, 8>, b: u8) -> (r: Result<(), u8>)
    ensures
        r is Ok <==> frame_bytes(*old(v)).len() < 8,
        r matches Err(e) ==> e == b,
        frame_bytes(*final(v)) == if frame_bytes(*old(v)).len() < 8 {
            frame_bytes(*old(v)).push(b)
        } else {
            frame_bytes(*old(v))
        },
{
    v.push(b)
}

/// `heapless::Vec::as_slice`: the held bytes; a buffer never holds more than 8.
#[verifier::external_body]
fn frame_data_as_slice(v: &heapless::Vec<u8, 8>) -> (s: &[u8])
    ensures
        s@ == frame_bytes(*v),
        s@.len() <= 8,
{
    v.as_slice()
}

/// A CAN bus frame with up to 8 bytes of data.
#[derive(Debug, PartialEq, Eq)]
pub struct CanFrame {
    pub id: CanId,
    pub data: heapless::Vec<u8, 8>,
    pub timestamp_us: u64,
}

impl CanFrame {
    /// The frame's data bytes.
    pub open spec fn bytes(&self) -> Seq<u8> {
        frame_bytes(self.data)
    }

    /// Build a frame; data beyond the first 8 bytes is dropped.
    pub fn new(id: CanId, data: &[u8], timestamp_us: u64) -> (frame: CanFrame)
        ensures
            frame.id == id,
            frame.timestamp_us == timestamp_us,
            frame.bytes() == data@.take(
                if data@.len() < 8 {
                    data@.len() as int
                } else {
                    8
                },
            ),
    {
        let mut frame_data = frame_data_new();
        let n = if data.len() < MAX_FRAME_DATA {
            data.len()
        } else {
            MAX_FRAME_DATA
        };
        let mut i: usize = 0;
        while i < n
            invariant
                n <= data@.len(),
                n <= 8,
                i <= n,
                frame_bytes(frame_data) == data@.take(i as int),
            decreases n - i,
        {
            let _ = frame_data_push(&mut frame_data, data[i]);
            assert(data@.take(i as int).push(data@[i as int]) == data@.take(i + 1));
            i = i + 1;
        }
        CanFrame { id, data: frame_data, timestamp_us }
    }

    /// Data length code: the number of data bytes.
    pub fn dlc(&self) -> (n: usize)
        ensures
            n == self.bytes().len(),
            n <= 8,
    {
        frame_data_as_slice(&self.data).len()
    }

    /// The data bytes.
    pub fn payload(&self) -> (s: &[u8])
        ensures
            s@ == self.bytes(),
            s@.len() <= 8,
    {
        frame_data_as_slice(&self.data)
    }

    /// The frame as shown on the bus monitor, e.g. `[0x100] DE AD BE EF`.
    pub fn to_display_string(&self) -> (s: String)
        ensures
            s@ == seq!['['] + id_label(self.id.value()) + seq![']', ' '] + bytes_hex(self.bytes()),
    {
        let mut s = String::from_str("[");
        proof {
            reveal_strlit("[");
            reveal_strlit("] ");
            reveal_strlit(" ");
        }
        let label = self.id.label();
        s.append(label.as_str());
        s.append("] ");
        let ghost head = s@;
        let bytes = frame_data_as_slice(&self.data);
        let mut i: usize = 0;
        while i < bytes.len()
            invariant
                i <= bytes@.len(),
                bytes@ == self.bytes(),
                s@ == head + bytes_hex(bytes@.take(i as int)),
            decreases bytes@.len() - i,
        {
            let b = bytes[i];
            let ghost before = s@;
            proof {
                reveal_strlit(" ");
            }
            if i > 0 {
                s.append(" ");
            }
            let ghost mid = s@;
            s.append(hex_digit_str(b / 16));
            s.append(hex_digit_str(b % 16));
            proof {
                let t = bytes@.take(i + 1);
                assert(t.drop_last() =~= bytes@.take(i as int));
                assert(t.last() == b);
                assert(s@ =~= mid + byte_hex(b));
                if i == 0 {
                    assert(t.len() == 1);
                    assert(t[0] == b);
                    assert(bytes@.take(0) =~= Seq::<u8>::empty());
                    assert(s@ =~= head + bytes_hex(t));
                } else {
                    assert(mid =~= before + seq![' ']);
                    assert(bytes_hex(t) == bytes_hex(t.drop_last()) + seq![' '] + byte_hex(t.last()));
                    assert(s@ =~= head + bytes_hex(t));
                }
            }
            i = i + 1;
        }
        assert(bytes@.take(bytes@.len() as int) == bytes@);
        s
    }
}

impl Clone for CanFrame {
    /// A frame with the same identifier, bytes and timestamp.
    fn clone(&self) -> (c: Self)
        ensures
            c.id == self.id,
            c.bytes() == self.bytes(),
            c.timestamp_us == self.timestamp_us,
    {
        let bytes = self.payload();
        assert(bytes@.len() <= 8);
        let c = CanFrame::new(self.id, bytes, self.timestamp_us);
        assert(bytes@.take(bytes@.len() as int) == bytes@);
        assert(bytes@.len() == 8 ==> bytes@.take(8) == bytes@);
        c
    }
}

} // verus!
