use vstd::prelude::*;
use vstd::utf8::encode_utf8;

use crate::dtc::Dtc;

verus! {

/// Whether a code with these characters is among `dtcs`.
pub open spec fn has_code(dtcs: Seq<Dtc>, code: Seq<char>) -> bool {
    exists|i: int| 0 <= i < dtcs.len() && (#[trigger] dtcs[i]).code@ == code
}

/// The codes of `incoming` that are not active, in order: what an update adds
/// to the history.
pub open spec fn newly_set(active: Seq<Dtc>, incoming: Seq<Dtc>) -> Seq<Dtc>
    decreases incoming.len(),
{
    if incoming.len() == 0 {
        Seq::empty()
    } else {
        let rest = newly_set(active, incoming.drop_last());
        if has_code(active, incoming.last().code@) {
            rest
        } else {
            rest.push(incoming.last())
        }
    }
}

/// The codes of `dtcs` other than `code`, in order.
pub open spec fn without_code(dtcs: Seq<Dtc>, code: Seq<char>) -> Seq<Dtc>
    decreases dtcs.len(),
{
    if dtcs.len() == 0 {
        Seq::empty()
    } else {
        let rest = without_code(dtcs.drop_last(), code);
        if dtcs.last().code@ == code {
            rest
        } else {
            rest.push(dtcs.last())
        }
    }
}

/// The value of a hex digit, either case; any other character counts as 0.
pub open spec fn hex_digit_value(c: char) -> u16 {
    if '0' <= c && c <= '9' {
        (c as u32 - '0' as u32) as u16
    } else if 'a' <= c && c <= 'f' {
        (c as u32 - 'a' as u32 + 10) as u16
    } else if 'A' <= c && c <= 'F' {
        (c as u32 - 'A' as u32 + 10) as u16
    } else {
        0
    }
}

/// The two category bits of a code's letter: P, C, B, U; any other letter as P.
pub open spec fn category_bits(c: char) -> u16 {
    if c == 'C' {
        1
    } else if c == 'B' {
        2
    } else if c == 'U' {
        3
    } else {
        0
    }
}

/// A code can be encoded when it is shorter than 5 bytes or has at least 5
/// characters (and, as any string does, its bytes fit in memory).
pub open spec fn code_encodable(code: Seq<char>) -> bool {
    &&& encode_utf8(code).len() <= usize::MAX
    &&& encode_utf8(code).len() >= 5 ==> code.len() >= 5
}

/// The OBD-II two-byte form of a code such as `P0A80`: category in the top
/// two bits, then the four hex digits; codes shorter than 5 bytes give 0.
pub open spec fn dtc_code_value(code: Seq<char>) -> u16 {
    if encode_utf8(code).len() < 5 {
        0
    } else {
        (category_bits(code[0]) << 14u16) | (hex_digit_value(code[1]) << 12u16) | (
        hex_digit_value(code[2]) << 8u16) | (hex_digit_value(code[3]) << 4u16) | hex_digit_value(
            code[4],
        )
    }
}

fn hex_digit(c: char) -> (v: u16)
    ensures
        v == hex_digit_value(c),
        v < 16,
{
    if '0' <= c && c <= '9' {
        (c as u32 - '0' as u32) as u16
    } else if 'a' <= c && c <= 'f' {
        (c as u32 - 'a' as u32 + 10) as u16
    } else if 'A' <= c && c <= 'F' {
        (c as u32 - 'A' as u32 + 10) as u16
    } else {
        0
    }
}

/// Encode a DTC string (e.g., "P0A80") into 2 bytes per OBD-II standard.
pub fn encode_dtc_code(code: &str) -> (v: u16)
    requires
        code_encodable(code@),
    ensures
        v == dtc_code_value(code@),
{
    if code.len() < 5 {
        return 0;
    }
    let c0 = code.get_char(0);
    let prefix: u16 = if c0 == 'C' {
        1
    } else if c0 == 'B' {
        2
    } else if c0 == 'U' {
        3
    } else {
        0
    };
    let d1 = hex_digit(code.get_char(1));
    let d2 = hex_digit(code.get_char(2));
    let d3 = hex_digit(code.get_char(3));
    let d4 = hex_digit(code.get_char(4));
    (prefix << 14u16) | (d1 << 12u16) | (d2 << 8u16) | (d3 << 4u16) | d4
}

/// The Mode 03 payload for active codes: their count (modulo 256), then two
/// bytes per code, high byte first.
pub open spec fn obd_dtc_bytes(dtcs: Seq<Dtc>) -> Seq<u8>
    decreases dtcs.len(),
{
    if dtcs.len() == 0 {
        seq![0u8]
    } else {
        let v = dtc_code_value(dtcs.last().code@);
        obd_dtc_bytes(dtcs.drop_last()).update(0, (dtcs.len() % 256) as u8) + seq![
            (v / 256) as u8,
            (v % 256) as u8,
        ]
    }
}

/// Central DTC aggregation and management. `F` is the snapshot type kept as
/// freeze frames.
pub struct DtcManager<F> {
    active_dtcs: Vec<Dtc>,
    history: Vec<Dtc>,
    freeze_frames: Vec<F>,
}

impl<F> DtcManager<F> {
    pub closed spec fn active_view(&self) -> Seq<Dtc> {
        self.active_dtcs@
    }

    pub closed spec fn history_view(&self) -> Seq<Dtc> {
        self.history@
    }

    pub closed spec fn frames_view(&self) -> Seq<F> {
        self.freeze_frames@
    }

    pub fn new() -> (m: Self)
        ensures
            m.active_view() == Seq::<Dtc>::empty(),
            m.history_view() == Seq::<Dtc>::empty(),
            m.frames_view() == Seq::<F>::empty(),
    {
        DtcManager { active_dtcs: Vec::new(), history: Vec::new(), freeze_frames: Vec::new() }
    }

    fn is_active(&self, code: &String) -> (r: bool)
        ensures
            r == has_code(self.active_view(), code@),
    {
        let mut i: usize = 0;
        while i < self.active_dtcs.len()
            invariant
                i <= self.active_dtcs@.len(),
                forall|j: int| 0 <= j < i ==> (#[trigger] self.active_dtcs@[j]).code@ != code@,
            decreases self.active_dtcs@.len() - i,
        {
            if self.active_dtcs[i].code == *code {
                return true;
            }
            i = i + 1;
        }
        false
    }

    /// Update active DTCs from all subsystems: codes that were not active are
    /// added to the history, and the given codes become the active set.
    pub fn update(&mut self, dtcs: Vec<Dtc>)
        ensures
            final(self).active_view() == dtcs@,
            final(self).history_view() == old(self).history_view() + newly_set(
                old(self).active_view(),
                dtcs@,
            ),
            final(self).frames_view() == old(self).frames_view(),
    {
        let ghost old_history = self.history@;
        let mut i: usize = 0;
        while i < dtcs.len()
            invariant
                i <= dtcs@.len(),
                self.active_dtcs@ == old(self).active_dtcs@,
                self.freeze_frames@ == old(self).freeze_frames@,
                self.history@ == old_history + newly_set(self.active_dtcs@, dtcs@.take(i as int)),
            decreases dtcs@.len() - i,
        {
            let ghost before = self.history@;
            assert(dtcs@.take(i + 1).drop_last() == dtcs@.take(i as int));
            assert(dtcs@.take(i + 1).last() == dtcs@[i as int]);
            if !self.is_active(&dtcs[i].code) {
                self.history.push(dtcs[i].clone());
                assert(self.history@ == before.push(dtcs@[i as int]));
            }
            i = i + 1;
        }
        assert(dtcs@.take(dtcs@.len() as int) == dtcs@);
        self.active_dtcs = dtcs;
    }

    /// Add a freeze frame snapshot.
    pub fn add_freeze_frame(&mut self, frame: F)
        ensures
            final(self).frames_view() == old(self).frames_view().push(frame),
            final(self).active_view() == old(self).active_view(),
            final(self).history_view() == old(self).history_view(),
    {
        self.freeze_frames.push(frame);
    }

    /// Get all active DTCs.
    pub fn active(&self) -> (s: &[Dtc])
        ensures
            s@ == self.active_view(),
    {
        self.active_dtcs.as_slice()
    }

    /// Get DTC history.
    pub fn history(&self) -> (s: &[Dtc])
        ensures
            s@ == self.history_view(),
    {
        self.history.as_slice()
    }

    /// Get freeze frames.
    pub fn freeze_frames(&self) -> (s: &[F])
        ensures
            s@ == self.frames_view(),
    {
        self.freeze_frames.as_slice()
    }

    /// Clear a specific DTC by code.
    pub fn clear(&mut self, code: &str)
        ensures
            final(self).active_view() == without_code(old(self).active_view(), code@),
            final(self).history_view() == old(self).history_view(),
            final(self).frames_view() == old(self).frames_view(),
    {
        let target = String::from_str(code);
        let mut kept: Vec<Dtc> = Vec::new();
        let mut i: usize = 0;
        while i < self.active_dtcs.len()
            invariant
                i <= self.active_dtcs@.len(),
                target@ == code@,
                kept@ == without_code(self.active_dtcs@.take(i as int), code@),
            decreases self.active_dtcs@.len() - i,
        {
            assert(self.active_dtcs@.take(i + 1).drop_last() == self.active_dtcs@.take(i as int));
            let d = &self.active_dtcs[i];
            assert(self.active_dtcs@.take(i + 1).last() == self.active_dtcs@[i as int]);
            if !(d.code == target) {
                kept.push(d.clone());
            }
            i = i + 1;
        }
        assert(self.active_dtcs@.take(self.active_dtcs@.len() as int) == self.active_dtcs@);
        self.active_dtcs = kept;
    }

    /// Clear all active DTCs and freeze frames; the history is kept.
    pub fn clear_all(&mut self)
        ensures
            final(self).active_view() == Seq::<Dtc>::empty(),
            final(self).frames_view() == Seq::<F>::empty(),
            final(self).history_view() == old(self).history_view(),
    {
        self.active_dtcs = Vec::new();
        self.freeze_frames = Vec::new();
    }

    /// Total number of active DTCs.
    pub fn count(&self) -> (n: usize)
        ensures
            n == self.active_view().len(),
    {
        self.active_dtcs.len()
    }

    /// Encode active DTCs as OBD-II Mode 03 response bytes.
    /// Each DTC is encoded as 2 bytes.
    pub fn encode_dtcs_for_obd(&self) -> (bytes: Vec<u8>)
        requires
            forall|i: int|
                0 <= i < self.active_view().len() ==> code_encodable(
                    (#[trigger] self.active_view()[i]).code@,
                ),
        ensures
            bytes@ == obd_dtc_bytes(self.active_view()),
            bytes@.len() == 1 + 2 * self.active_view().len(),
    {
        let n = self.active_dtcs.len();
        let mut bytes: Vec<u8> = Vec::new();
        bytes.push((n % 256) as u8);
        let mut i: usize = 0;
        while i < n
            invariant
                n == self.active_dtcs@.len(),
                i <= n,
                forall|k: int|
                    0 <= k < n ==> code_encodable((#[trigger] self.active_view()[k]).code@),
                bytes@ == obd_dtc_bytes(self.active_dtcs@.take(i as int)).update(
                    0,
                    (n % 256) as u8,
                ),
                bytes@.len() == 1 + 2 * i,
            decreases n - i,
        {
            assert(code_encodable(self.active_view()[i as int].code@));
            let encoded = encode_dtc_code(self.active_dtcs[i].code.as_str());
            let ghost prev = bytes@;
            bytes.push((encoded / 256) as u8);
            bytes.push((encoded % 256) as u8);
            proof {
                let t = self.active_dtcs@.take(i + 1);
                assert(t.drop_last() == self.active_dtcs@.take(i as int));
                assert(t.last() == self.active_dtcs@[i as int]);
                assert(obd_dtc_bytes(t.drop_last()).len() == 1 + 2 * i) by {
                    lemma_obd_dtc_bytes_len(t.drop_last());
                }
                assert(bytes@ =~= obd_dtc_bytes(t).update(0, (n % 256) as u8));
            }
            i = i + 1;
        }
        proof {
            assert(self.active_dtcs@.take(n as int) == self.active_dtcs@);
            lemma_obd_dtc_bytes_len(self.active_dtcs@);
            lemma_obd_dtc_bytes_count(self.active_dtcs@);
            assert(bytes@ =~= obd_dtc_bytes(self.active_dtcs@));
        }
        bytes
    }
}

proof fn lemma_push_contains(s: Seq<Dtc>, x: Dtc, y: Dtc)
    ensures
        s.push(x).contains(y) <==> (s.contains(y) || x == y),
{
    if s.contains(y) {
        let k = choose|k: int| 0 <= k < s.len() && s[k] == y;
        assert(s.push(x)[k] == y);
    }
    if x == y {
        assert(s.push(x)[s.len() as int] == y);
    }
    if s.push(x).contains(y) && x != y {
        let k = choose|k: int| 0 <= k < s.len() + 1 && s.push(x)[k] == y;
        assert(s[k] == y);
    }
}

proof fn lemma_obd_dtc_bytes_len(dtcs: Seq<Dtc>)
    ensures
        obd_dtc_bytes(dtcs).len() == 1 + 2 * dtcs.len(),
    decreases dtcs.len(),
{
    if dtcs.len() > 0 {
        lemma_obd_dtc_bytes_len(dtcs.drop_last());
    }
}

proof fn lemma_obd_dtc_bytes_count(dtcs: Seq<Dtc>)
    ensures
        obd_dtc_bytes(dtcs)[0] == (dtcs.len() % 256) as u8,
    decreases dtcs.len(),
{
    if dtcs.len() > 0 {
        lemma_obd_dtc_bytes_len(dtcs.drop_last());
    }
}

/// An update records in the history exactly the codes that were not active
/// before it, and the history only ever grows; clearing a code keeps the
/// history.
pub proof fn law_history_records_new_codes(active: Seq<Dtc>, incoming: Seq<Dtc>, d: Dtc)
    ensures
        newly_set(active, incoming).contains(d) <==> (incoming.contains(d) && !has_code(
            active,
            d.code@,
        )),
    decreases incoming.len(),
{
    if incoming.len() > 0 {
        law_history_records_new_codes(active, incoming.drop_last(), d);
        let last = incoming.last();
        assert(incoming == incoming.drop_last().push(last));
        lemma_push_contains(incoming.drop_last(), last, d);
        lemma_push_contains(newly_set(active, incoming.drop_last()), last, d);
    }
}

/// Clearing a code removes exactly the codes with those characters.
pub proof fn law_clear_removes_only_that_code(dtcs: Seq<Dtc>, code: Seq<char>, d: Dtc)
    ensures
        without_code(dtcs, code).contains(d) <==> (dtcs.contains(d) && d.code@ != code),
    decreases dtcs.len(),
{
    if dtcs.len() > 0 {
        law_clear_removes_only_that_code(dtcs.drop_last(), code, d);
        let last = dtcs.last();
        assert(dtcs == dtcs.drop_last().push(last));
        lemma_push_contains(dtcs.drop_last(), last, d);
        lemma_push_contains(without_code(dtcs.drop_last(), code), last, d);
    }
}


proof fn lemma_code_bits(p: u16, d1: u16, d2: u16, d3: u16, d4: u16)
    by (bit_vector)
    requires
        p < 4,
        d1 < 16,
        d2 < 16,
        d3 < 16,
        d4 < 16,
    ensures
        ({
            let v = (p << 14u16) | (d1 << 12u16) | (d2 << 8u16) | (d3 << 4u16) | d4;
            &&& v % 16 == d4
            &&& (v / 16) % 16 == d3
            &&& (v / 256) % 16 == d2
            &&& d1 < 4 ==> v / 4096 == p * 4 + d1
        }),
{
}

/// The two-byte form of a code of at least five characters: the letter picks
/// the top two bits (P 0, C 1, B 2, U 3), and the next four characters are
/// hex digits from the most to the least significant nibble; a digit below 4
/// in the first position leaves the letter's bits alone. Hex digits read in
/// either case, decimal digits as themselves; other characters count as 0.
pub proof fn law_dtc_code_layout(code: Seq<char>)
    requires
        encode_utf8(code).len() >= 5,
        code.len() >= 5,
    ensures
        ({
            let v = dtc_code_value(code);
            &&& v % 16 == hex_digit_value(code[4])
            &&& (v / 16) % 16 == hex_digit_value(code[3])
            &&& (v / 256) % 16 == hex_digit_value(code[2])
            &&& hex_digit_value(code[1]) < 4 ==> v / 4096 == category_bits(code[0]) * 4
                + hex_digit_value(code[1])
            &&& code[0] == 'P' ==> category_bits(code[0]) == 0
            &&& code[0] == 'C' ==> category_bits(code[0]) == 1
            &&& code[0] == 'B' ==> category_bits(code[0]) == 2
            &&& code[0] == 'U' ==> category_bits(code[0]) == 3
        }),
        forall|c: char|
            #![trigger hex_digit_value(c)]
            {
                &&& '0' <= c <= '9' ==> hex_digit_value(c) == c as int - '0' as int
                &&& 'A' <= c <= 'F' ==> hex_digit_value(c) == c as int - 'A' as int + 10
                &&& 'a' <= c <= 'f' ==> hex_digit_value(c) == c as int - 'a' as int + 10
                &&& !('0' <= c <= '9' || 'A' <= c <= 'F' || 'a' <= c <= 'f') ==> hex_digit_value(
                    c,
                ) == 0
                &&& hex_digit_value(c) < 16
            },
{
    lemma_code_bits(
        category_bits(code[0]),
        hex_digit_value(code[1]),
        hex_digit_value(code[2]),
        hex_digit_value(code[3]),
        hex_digit_value(code[4]),
    );
}

} // verus!
