use vstd::prelude::*;

use crate::bytes::{le16, le16_at, le32, le32_at};
use crate::crc::{crc16, crc16_update, lemma_crc_detects_byte_change};

verus! {

/// First synchronisation byte of a telemetry frame.
pub const CHSYNC1: u8 = 0x5A;

/// Second synchronisation byte of a telemetry frame.
pub const CHSYNC2: u8 = 0xA5;

/// Header size: two sync bytes, little-endian payload length, little-endian CRC.
pub const CH_HDR_SIZE: usize = 6;

/// Largest frame the decoder accepts, header included.
pub const HIPNUC_MAX_RAW_SIZE: usize = 512;

/// Tag byte that opens an HI91 record.
pub const FRAME_TAG_HI91: u8 = 0x91;

/// Wire size of an HI91 record, tag included.
pub const HI91_SIZE: usize = 76;

/// A byte read as a two's-complement signed value.
pub open spec fn signed_byte(b: u8) -> int {
    if b < 128 {
        b as int
    } else {
        b as int - 256
    }
}

/// One HI91 record. Every floating-point quantity is kept as the IEEE-754 single-precision
/// bit pattern read from the wire; accelerations are in units of standard gravity, angular
/// rates in deg/s, the magnetic field in uT, angles in degrees, pressure in Pa.
#[derive(Clone, Copy, Debug, PartialEq)]
pub struct Hi91Data {
    pub main_status: u16,
    /// Temperature in degrees Celsius.
    pub temperature: i8,
    pub air_pressure: u32,
    /// System time in milliseconds.
    pub system_time: u32,
    pub acc: [u32; 3],
    pub gyr: [u32; 3],
    pub mag: [u32; 3],
    pub roll: u32,
    pub pitch: u32,
    pub yaw: u32,
    /// Quaternion in the order w, x, y, z.
    pub quat: [u32; 4],
}

/// `d` holds exactly the fields of the HI91 record laid out at the start of `p`.
pub open spec fn hi91_matches(d: Hi91Data, p: Seq<u8>) -> bool {
    &&& d.main_status as int == le16_at(p, 1)
    &&& d.temperature as int == signed_byte(p[3])
    &&& d.air_pressure as int == le32_at(p, 4)
    &&& d.system_time as int == le32_at(p, 8)
    &&& forall|k: int| 0 <= k < 3 ==> #[trigger] d.acc[k] as int == le32_at(p, 12 + 4 * k)
    &&& forall|k: int| 0 <= k < 3 ==> #[trigger] d.gyr[k] as int == le32_at(p, 24 + 4 * k)
    &&& forall|k: int| 0 <= k < 3 ==> #[trigger] d.mag[k] as int == le32_at(p, 36 + 4 * k)
    &&& d.roll as int == le32_at(p, 48)
    &&& d.pitch as int == le32_at(p, 52)
    &&& d.yaw as int == le32_at(p, 56)
    &&& forall|k: int| 0 <= k < 4 ==> #[trigger] d.quat[k] as int == le32_at(p, 60 + 4 * k)
}

/// `p` opens with a complete HI91 record.
pub open spec fn is_hi91(p: Seq<u8>) -> bool {
    p.len() >= HI91_SIZE && p[0] == FRAME_TAG_HI91
}

fn to_signed(b: u8) -> (r: i8)
    ensures
        r as int == signed_byte(b),
{
    if b < 128 {
        b as i8
    } else {
        (b as i16 - 256) as i8
    }
}

/// Reads the HI91 record at the start of `data`, if `data` holds one.
fn parse_hi91(data: &[u8]) -> (r: Option<Hi91Data>)
    ensures
        r.is_some() == is_hi91(data@),
        r.is_some() ==> hi91_matches(r.unwrap(), data@),
{
    if data.len() < HI91_SIZE {
        return None;
    }
    if data[0] != FRAME_TAG_HI91 {
        return None;
    }
    let d = Hi91Data {
        main_status: le16(data, 1),
        temperature: to_signed(data[3]),
        air_pressure: le32(data, 4),
        system_time: le32(data, 8),
        acc: [le32(data, 12), le32(data, 16), le32(data, 20)],
        gyr: [le32(data, 24), le32(data, 28), le32(data, 32)],
        mag: [le32(data, 36), le32(data, 40), le32(data, 44)],
        roll: le32(data, 48),
        pitch: le32(data, 52),
        yaw: le32(data, 56),
        quat: [le32(data, 60), le32(data, 64), le32(data, 68), le32(data, 72)],
    };
    Some(d)
}

/// Phase of the telemetry frame decoder.
#[derive(Clone, Copy, Debug, PartialEq, Eq)]
pub enum DecoderState {
    WaitSync1,
    WaitSync2,
    ReadHeader,
    ReadPayload,
}

/// What the decoder has taken in so far: its phase and the bytes of the frame in progress.
pub type DecoderView = (DecoderState, Seq<u8>);

/// Payload length announced by the header in `bytes`.
pub open spec fn declared_len(bytes: Seq<u8>) -> int {
    le16_at(bytes, 2)
}

/// The state of a fresh decoder, and the one it returns to after each frame.
pub open spec fn idle() -> DecoderView {
    (DecoderState::WaitSync1, Seq::empty())
}

/// The views a decoder can be in between two bytes.
pub open spec fn valid_view(s: DecoderView) -> bool {
    let b = s.1;
    match s.0 {
        DecoderState::WaitSync1 => b.len() == 0,
        DecoderState::WaitSync2 => b == seq![CHSYNC1],
        DecoderState::ReadHeader => 2 <= b.len() < CH_HDR_SIZE && b[0] == CHSYNC1 && b[1]
            == CHSYNC2,
        DecoderState::ReadPayload => {
            &&& CH_HDR_SIZE <= b.len() < CH_HDR_SIZE + declared_len(b)
            &&& 1 <= declared_len(b)
            &&& CH_HDR_SIZE + declared_len(b) <= HIPNUC_MAX_RAW_SIZE
            &&& b[0] == CHSYNC1
            &&& b[1] == CHSYNC2
        },
    }
}

/// One byte of input: the next view, and the complete frame when this byte ends one.
///
/// A byte that fails as the second sync byte is not tried again as a first one; a header
/// that announces an empty payload or a frame over the size bound is dropped.
pub open spec fn step(s: DecoderView, b: u8) -> (DecoderView, Option<Seq<u8>>) {
    let n = s.1.push(b);
    match s.0 {
        DecoderState::WaitSync1 => if b == CHSYNC1 {
            ((DecoderState::WaitSync2, seq![b]), None)
        } else {
            (idle(), None)
        },
        DecoderState::WaitSync2 => if b == CHSYNC2 {
            ((DecoderState::ReadHeader, n), None)
        } else {
            (idle(), None)
        },
        DecoderState::ReadHeader => if n.len() < CH_HDR_SIZE {
            ((DecoderState::ReadHeader, n), None)
        } else if declared_len(n) == 0 || CH_HDR_SIZE + declared_len(n) > HIPNUC_MAX_RAW_SIZE {
            (idle(), None)
        } else {
            ((DecoderState::ReadPayload, n), None)
        },
        DecoderState::ReadPayload => if n.len() >= CH_HDR_SIZE + declared_len(n) {
            (idle(), Some(n))
        } else {
            ((DecoderState::ReadPayload, n), None)
        },
    }
}

/// The bytes the checksum covers: the header without its CRC field, then the payload.
pub open spec fn crc_input(frame: Seq<u8>) -> Seq<u8> {
    frame.subrange(0, 4) + frame.subrange(CH_HDR_SIZE as int, frame.len() as int)
}

/// The payload of a complete frame.
pub open spec fn frame_payload(frame: Seq<u8>) -> Seq<u8> {
    frame.subrange(CH_HDR_SIZE as int, frame.len() as int)
}

/// The CRC stored in the header matches the one computed over the frame.
pub open spec fn crc_ok(frame: Seq<u8>) -> bool {
    crc16(0, crc_input(frame)) as int == le16_at(frame, 4)
}

/// The payload of a complete frame when it yields a record: a matching CRC and an HI91 tag
/// with a full record behind it.
pub open spec fn accepted(frame: Seq<u8>) -> Option<Seq<u8>> {
    if crc_ok(frame) && is_hi91(frame_payload(frame)) {
        Some(frame_payload(frame))
    } else {
        None
    }
}

/// The payload whose record the decoder hands out on byte `b` in view `s`, if any.
pub open spec fn emitted(s: DecoderView, b: u8) -> Option<Seq<u8>> {
    match step(s, b).1 {
        Some(f) => accepted(f),
        None => None,
    }
}

/// Feeding `bytes` one by one from `s`: the final view and the payloads of the records
/// produced, in order.
pub open spec fn run(s: DecoderView, bytes: Seq<u8>) -> (DecoderView, Seq<Seq<u8>>)
    decreases bytes.len(),
{
    if bytes.len() == 0 {
        (s, Seq::empty())
    } else {
        let prev = run(s, bytes.drop_last());
        let out = match emitted(prev.0, bytes.last()) {
            Some(p) => prev.1.push(p),
            None => prev.1,
        };
        (step(prev.0, bytes.last()).0, out)
    }
}

/// Byte `b` in view `s` completes a frame whose CRC does not match.
pub open spec fn crc_rejected(s: DecoderView, b: u8) -> bool {
    match step(s, b).1 {
        Some(f) => !crc_ok(f),
        None => false,
    }
}

/// How many frames fail the CRC check while `bytes` are fed one by one from `s`.
pub open spec fn run_rejections(s: DecoderView, bytes: Seq<u8>) -> nat
    decreases bytes.len(),
{
    if bytes.len() == 0 {
        0
    } else {
        let prev = run(s, bytes.drop_last()).0;
        run_rejections(s, bytes.drop_last()) + if crc_rejected(prev, bytes.last()) {
            1nat
        } else {
            0nat
        }
    }
}

/// `n`, saturated at the largest `u64`.
pub open spec fn saturated(n: int) -> int {
    if n < u64::MAX {
        n
    } else {
        u64::MAX as int
    }
}

/// `f` is exactly one frame: sync bytes, a header whose length field counts the rest, and a
/// size within the bound. Its CRC and payload may be anything.
pub open spec fn framed(f: Seq<u8>) -> bool {
    &&& CH_HDR_SIZE < f.len() <= HIPNUC_MAX_RAW_SIZE
    &&& f[0] == CHSYNC1
    &&& f[1] == CHSYNC2
    &&& declared_len(f) == f.len() - CH_HDR_SIZE
}

/// `f` is one frame that decodes to a record.
pub open spec fn valid_frame(f: Seq<u8>) -> bool {
    framed(f) && accepted(f).is_some()
}

/// The phase the decoder is in after the first `k` bytes of a frame.
pub open spec fn phase_after(k: int) -> DecoderState {
    if k == 1 {
        DecoderState::WaitSync2
    } else if k < CH_HDR_SIZE {
        DecoderState::ReadHeader
    } else {
        DecoderState::ReadPayload
    }
}

proof fn lemma_run_frame_prefix(f: Seq<u8>, k: int)
    requires
        framed(f),
        1 <= k < f.len(),
    ensures
        run(idle(), f.subrange(0, k)) == ((phase_after(k), f.subrange(0, k)), Seq::<Seq<u8>>::empty()),
        run_rejections(idle(), f.subrange(0, k)) == 0,
    decreases k,
{
    let pre = f.subrange(0, k);
    let prev = f.subrange(0, k - 1);
    assert(pre.drop_last() =~= prev);
    assert(pre.last() == f[k - 1]);
    if k == 1 {
        assert(prev =~= Seq::<u8>::empty());
        assert(run(idle(), prev) == (idle(), Seq::<Seq<u8>>::empty()));
        assert(run_rejections(idle(), prev) == 0);
        assert(pre =~= seq![f[0]]);
    } else {
        lemma_run_frame_prefix(f, k - 1);
        assert(prev.push(f[k - 1]) =~= pre);
        if k >= 4 {
            assert(declared_len(pre) == declared_len(f));
        }
        if k >= 5 {
            assert(declared_len(prev) == declared_len(f));
        }
    }
}

/// Fed from the idle state, one frame brings the decoder back to idle, yields a record
/// exactly when the frame is accepted, and counts one CRC rejection exactly when its CRC
/// does not match.
pub proof fn lemma_run_frame(f: Seq<u8>)
    requires
        framed(f),
    ensures
        run(idle(), f).0 == idle(),
        run(idle(), f).1 == (match accepted(f) {
            Some(p) => seq![p],
            None => Seq::<Seq<u8>>::empty(),
        }),
        run_rejections(idle(), f) == if crc_ok(f) {
            0int
        } else {
            1int
        },
{
    let k = f.len() - 1;
    lemma_run_frame_prefix(f, k);
    assert(f.drop_last() =~= f.subrange(0, k));
    assert(f.subrange(0, k).push(f[k]) =~= f);
    assert(declared_len(f.subrange(0, k)) == declared_len(f));
    assert(Seq::<Seq<u8>>::empty().push(f.subrange(CH_HDR_SIZE as int, f.len() as int)) =~= seq![
        f.subrange(CH_HDR_SIZE as int, f.len() as int),
    ]);
}

/// Feeding `a` then `b` is feeding `a`, then feeding `b` from where `a` left the decoder.
pub proof fn lemma_run_append(s: DecoderView, a: Seq<u8>, b: Seq<u8>)
    ensures
        run(s, a + b).0 == run(run(s, a).0, b).0,
        run(s, a + b).1 == run(s, a).1 + run(run(s, a).0, b).1,
    decreases b.len(),
{
    if b.len() == 0 {
        assert(a + b =~= a);
        assert(run(s, a).1 + Seq::<Seq<u8>>::empty() =~= run(s, a).1);
    } else {
        lemma_run_append(s, a, b.drop_last());
        assert((a + b).drop_last() =~= a + b.drop_last());
        assert((a + b).last() == b.last());
        let mid = run(s, a);
        let r1 = run(mid.0, b.drop_last());
        match emitted(r1.0, b.last()) {
            Some(p) => {
                assert((mid.1 + r1.1).push(p) =~= mid.1 + r1.1.push(p));
            },
            None => {},
        }
    }
}

/// Whatever came before, once the decoder is back to waiting for a first sync byte a valid
/// frame yields exactly its one record, after the records of what came before.
pub proof fn lemma_resync_after_garbage(garbage: Seq<u8>, frame: Seq<u8>)
    requires
        valid_frame(frame),
        run(idle(), garbage).0 == idle(),
    ensures
        run(idle(), garbage + frame).1 == run(idle(), garbage).1.push(frame_payload(frame)),
        run(idle(), garbage).1.len() == 0 ==> run(idle(), garbage + frame).1 == seq![
            frame_payload(frame),
        ],
{
    lemma_run_append(idle(), garbage, frame);
    lemma_run_frame(frame);
    assert(run(idle(), garbage).1 + seq![frame_payload(frame)] =~= run(idle(), garbage).1.push(
        frame_payload(frame),
    ));
    if run(idle(), garbage).1.len() == 0 {
        assert(run(idle(), garbage).1.push(frame_payload(frame)) =~= seq![frame_payload(frame)]);
    }
}

/// Changing any single payload byte of a frame whose CRC matched makes the decoder drop it:
/// no record comes out, and the frame counts as one CRC rejection.
pub proof fn lemma_corrupt_payload_rejected(frame: Seq<u8>, i: int, b: u8)
    requires
        framed(frame),
        crc_ok(frame),
        CH_HDR_SIZE <= i < frame.len(),
        b != frame[i],
    ensures
        run(idle(), frame.update(i, b)).1.len() == 0,
        run_rejections(idle(), frame.update(i, b)) == 1,
{
    let bad = frame.update(i, b);
    assert(framed(bad));
    lemma_run_frame(bad);
    assert(crc_input(bad) =~= crc_input(frame).update(i - 2, b));
    lemma_crc_detects_byte_change(0, crc_input(frame), i - 2, b);
    assert(le16_at(bad, 4) == le16_at(frame, 4));
    assert(!crc_ok(bad));
}

/// Byte-at-a-time decoder of telemetry frames. It keeps the frame in progress in a fixed
/// buffer and hands out an HI91 record for each complete frame whose CRC matches.
pub struct HipnucDecoder {
    state: DecoderState,
    buf: [u8; HIPNUC_MAX_RAW_SIZE],
    nbyte: usize,
    payload_len: usize,
    crc_errors: u64,
}

impl View for HipnucDecoder {
    type V = DecoderView;

    closed spec fn view(&self) -> DecoderView {
        (self.state, self.buf@.subrange(0, self.nbyte as int))
    }
}

impl HipnucDecoder {
    /// The decoder's internal bookkeeping agrees with its view.
    pub closed spec fn wf(&self) -> bool {
        &&& self.nbyte <= HIPNUC_MAX_RAW_SIZE
        &&& valid_view(self@)
        &&& self.state == DecoderState::ReadPayload ==> self.payload_len == declared_len(self@.1)
    }

    /// How many complete frames this decoder has dropped for a CRC mismatch (saturating).
    pub closed spec fn rejected(&self) -> int {
        self.crc_errors as int
    }

    /// The number of complete frames dropped so far for a CRC mismatch, saturating at the
    /// largest `u64`.
    pub fn crc_error_count(&self) -> (r: u64)
        ensures
            r as int == self.rejected(),
    {
        self.crc_errors
    }

    /// A decoder waiting for the first sync byte.
    pub fn new() -> (r: Self)
        ensures
            r.wf(),
            r@ == idle(),
            r.rejected() == 0,
    {
        let r = HipnucDecoder {
            state: DecoderState::WaitSync1,
            buf: [0u8; HIPNUC_MAX_RAW_SIZE],
            nbyte: 0,
            payload_len: 0,
            crc_errors: 0,
        };
        assert(r@.1 =~= Seq::<u8>::empty());
        r
    }

    /// Feeds one byte. Returns the record of the frame this byte completes, when that frame
    /// passes the CRC check and holds an HI91 record; the decoder moves as `step` says.
    pub fn input(&mut self, byte: u8) -> (r: Option<Hi91Data>)
        requires
            old(self).wf(),
        ensures
            final(self).wf(),
            final(self)@ == step(old(self)@, byte).0,
            r.is_some() == emitted(old(self)@, byte).is_some(),
            r.is_some() ==> hi91_matches(r.unwrap(), emitted(old(self)@, byte).unwrap()),
            final(self).rejected() == if crc_rejected(old(self)@, byte) {
                saturated(old(self).rejected() + 1)
            } else {
                old(self).rejected()
            },
    {
        let ghost s0 = self@;
        match self.state {
            DecoderState::WaitSync1 => {
                if byte == CHSYNC1 {
                    self.buf[0] = byte;
                    self.nbyte = 1;
                    self.state = DecoderState::WaitSync2;
                    assert(self@.1 =~= seq![byte]);
                } else {
                    assert(self@.1 =~= Seq::<u8>::empty());
                }
                None
            },
            DecoderState::WaitSync2 => {
                if byte == CHSYNC2 {
                    self.buf[1] = byte;
                    self.nbyte = 2;
                    self.state = DecoderState::ReadHeader;
                    assert(self@.1 =~= s0.1.push(byte));
                } else {
                    self.state = DecoderState::WaitSync1;
                    self.nbyte = 0;
                    assert(self@.1 =~= Seq::<u8>::empty());
                }
                None
            },
            DecoderState::ReadHeader => {
                let n = self.nbyte;
                self.buf[n] = byte;
                self.nbyte = n + 1;
                assert(self@.1 =~= s0.1.push(byte));
                if self.nbyte >= CH_HDR_SIZE {
                    let len_lo = self.buf[2] as usize;
                    let len_hi = self.buf[3] as usize;
                    self.payload_len = len_lo + len_hi * 256;
                    if self.payload_len == 0 || CH_HDR_SIZE + self.payload_len > HIPNUC_MAX_RAW_SIZE {
                        self.reset();
                        assert(self@.1 =~= Seq::<u8>::empty());
                        return None;
                    }
                    self.state = DecoderState::ReadPayload;
                }
                None
            },
            DecoderState::ReadPayload => {
                let n = self.nbyte;
                self.buf[n] = byte;
                self.nbyte = n + 1;
                assert(self@.1 =~= s0.1.push(byte));
                if self.nbyte >= CH_HDR_SIZE + self.payload_len {
                    let (crc_matched, result) = self.validate_and_parse();
                    if !crc_matched && self.crc_errors < u64::MAX {
                        self.crc_errors = self.crc_errors + 1;
                    }
                    self.reset();
                    assert(self@.1 =~= Seq::<u8>::empty());
                    result
                } else {
                    None
                }
            },
        }
    }

    /// Feeds every byte of `data` in order and collects the records produced, in the order
    /// they were completed.
    pub fn input_bytes(&mut self, data: &[u8]) -> (r: Vec<Hi91Data>)
        requires
            old(self).wf(),
        ensures
            final(self).wf(),
            final(self)@ == run(old(self)@, data@).0,
            r@.len() == run(old(self)@, data@).1.len(),
            forall|k: int|
                0 <= k < r@.len() ==> hi91_matches(#[trigger] r@[k], run(old(self)@, data@).1[k]),
            final(self).rejected() == saturated(
                old(self).rejected() + run_rejections(old(self)@, data@),
            ),
    {
        let ghost c0 = self.rejected();
        let ghost s0 = self@;
        let mut results: Vec<Hi91Data> = Vec::new();
        let mut i: usize = 0;
        while i < data.len()
            invariant
                i <= data@.len(),
                self.wf(),
                self@ == run(s0, data@.subrange(0, i as int)).0,
                results@.len() == run(s0, data@.subrange(0, i as int)).1.len(),
                forall|k: int|
                    0 <= k < results@.len() ==> hi91_matches(
                        #[trigger] results@[k],
                        run(s0, data@.subrange(0, i as int)).1[k],
                    ),
                self.rejected() == saturated(c0 + run_rejections(s0, data@.subrange(0, i as int))),
                0 <= c0 <= u64::MAX,
            decreases data@.len() - i,
        {
            let byte = data[i];
            let got = self.input(byte);
            proof {
                let next = data@.subrange(0, i + 1);
                assert(next.drop_last() =~= data@.subrange(0, i as int));
                assert(next.last() == byte);
            }
            match got {
                Some(packet) => {
                    results.push(packet);
                },
                None => {},
            }
            i = i + 1;
        }
        assert(data@.subrange(0, data@.len() as int) =~= data@);
        results
    }

    fn reset(&mut self)
        ensures
            final(self).state == DecoderState::WaitSync1,
            final(self).nbyte == 0,
            final(self).payload_len == 0,
            final(self).buf == old(self).buf,
            final(self).crc_errors == old(self).crc_errors,
    {
        self.state = DecoderState::WaitSync1;
        self.nbyte = 0;
        self.payload_len = 0;
    }

    /// Checks the CRC of the complete frame in the buffer and reads its record.
    fn validate_and_parse(&self) -> (r: (bool, Option<Hi91Data>))
        requires
            self.payload_len >= 1,
            self.nbyte == CH_HDR_SIZE + self.payload_len,
            self.nbyte <= HIPNUC_MAX_RAW_SIZE,
        ensures
            r.0 == crc_ok(self.buf@.subrange(0, self.nbyte as int)),
            r.1.is_some() == accepted(self.buf@.subrange(0, self.nbyte as int)).is_some(),
            r.1.is_some() ==> hi91_matches(
                r.1.unwrap(),
                accepted(self.buf@.subrange(0, self.nbyte as int)).unwrap(),
            ),
    {
        let ghost frame = self.buf@.subrange(0, self.nbyte as int);
        let total_len = self.nbyte;
        let mut crc_data: Vec<u8> = Vec::new();
        let mut i: usize = 0;
        while i < 4
            invariant
                i <= 4,
                total_len == self.nbyte,
                frame == self.buf@.subrange(0, self.nbyte as int),
                CH_HDR_SIZE < self.nbyte <= HIPNUC_MAX_RAW_SIZE,
                crc_data@ == frame.subrange(0, i as int),
            decreases 4 - i,
        {
            crc_data.push(self.buf[i]);
            assert(frame.subrange(0, i + 1) =~= frame.subrange(0, i as int).push(frame[i as int]));
            i = i + 1;
        }
        let mut payload: Vec<u8> = Vec::new();
        let mut j: usize = CH_HDR_SIZE;
        while j < total_len
            invariant
                CH_HDR_SIZE <= j <= total_len,
                total_len == self.nbyte,
                total_len <= HIPNUC_MAX_RAW_SIZE,
                frame == self.buf@.subrange(0, self.nbyte as int),
                crc_data@ == frame.subrange(0, 4) + frame.subrange(CH_HDR_SIZE as int, j as int),
                payload@ == frame.subrange(CH_HDR_SIZE as int, j as int),
            decreases total_len - j,
        {
            crc_data.push(self.buf[j]);
            payload.push(self.buf[j]);
            proof {
                assert(frame.subrange(CH_HDR_SIZE as int, j + 1) =~= frame.subrange(
                    CH_HDR_SIZE as int,
                    j as int,
                ).push(frame[j as int]));
                assert(frame.subrange(0, 4) + frame.subrange(CH_HDR_SIZE as int, j + 1) =~= (
                frame.subrange(0, 4) + frame.subrange(CH_HDR_SIZE as int, j as int)).push(
                    frame[j as int],
                ));
            }
            j = j + 1;
        }
        assert(crc_data@ =~= crc_input(frame));
        assert(payload@ =~= frame_payload(frame));
        let crc_calculated = crc16_update(0, crc_data.as_slice());
        let crc_received = le16(&self.buf, 4);
        assert(le16_at(self.buf@, 4) == le16_at(frame, 4));
        if crc_calculated != crc_received {
            return (false, None);
        }
        (true, Self::parse_payload(payload.as_slice()))
    }

    /// Reads the record that opens `payload`; only the HI91 tag is recognised.
    fn parse_payload(payload: &[u8]) -> (r: Option<Hi91Data>)
        ensures
            r.is_some() == is_hi91(payload@),
            r.is_some() ==> hi91_matches(r.unwrap(), payload@),
    {
        if payload.len() == 0 {
            return None;
        }
        if payload[0] == FRAME_TAG_HI91 {
            if HI91_SIZE <= payload.len() {
                parse_hi91(payload)
            } else {
                None
            }
        } else {
            None
        }
    }
}

} // verus!
