use vstd::prelude::*;
use crate::checksum::{lemma_xor_all_concat, xor_all, Checksum};
use crate::errors::{operation_fail, protocol_error, Result, RposError};
use crate::message::{frame_of, Message, ProtocolDecoder, ProtocolEncoder};
use crate::wire::{le_u32, read_le_u32};

verus! {

pub const RPLIDAR_CMD_SYNC_BYTE: u8 = 0xA5;

pub const RPLIDAR_CMDFLAG_HAS_PAYLOAD: u8 = 0x80;

pub const RPLIDAR_ANS_SYNC_BYTE_FIRST: u8 = 0xA5;

pub const RPLIDAR_ANS_SYNC_BYTE_SECOND: u8 = 0x5A;

pub const RPLIDAR_ANS_PKTFLAG_LOOP: u8 = 0x1;

pub const RPLIDAR_ANS_HEADER_SIZE_MASK: u32 = 0x3FFFFFFF;

pub const RPLIDAR_ANS_HEADER_SUBTYPE_SHIFT: u32 = 30;

/// The size of an answer header, not counting the two sync bytes.
pub const RPLIDAR_ANS_HEADER_SIZE: usize = 5;

/// Where the answer decoder stands.
#[derive(Debug, Clone, Copy, PartialEq, Eq, Structural)]
pub enum DecodeStatus {
    /// Waiting for the sync byte with this index.
    WaitSyncByte(usize),
    /// Collecting the answer header.
    WaitAnsHeader,
    /// Collecting the payload.
    ReceiveResponse,
}

/// Abstract state of the answer decoder.
pub struct DecoderView {
    pub status: DecodeStatus,
    /// Header bytes collected so far.
    pub header: Seq<u8>,
    /// The two flag bits of the current header.
    pub flag: u8,
    /// Declared payload size of the current header.
    pub size: nat,
    /// Command of the answer being decoded.
    pub cmd: u8,
    /// Payload bytes collected so far.
    pub data: Seq<u8>,
}

/// Outcome of feeding bytes to the answer decoder.
pub struct DecodeResult {
    /// False when the input broke the protocol.
    pub ok: bool,
    /// How many bytes were consumed.
    pub consumed: nat,
    /// The answer completed by these bytes, if any.
    pub frame: Option<(u8, Seq<u8>)>,
    /// The decoder state afterwards.
    pub state: DecoderView,
}

/// The answer sync byte expected at position `i`.
pub open spec fn ans_sync_byte(i: nat) -> u8 {
    if i == 0 {
        RPLIDAR_ANS_SYNC_BYTE_FIRST
    } else {
        RPLIDAR_ANS_SYNC_BYTE_SECOND
    }
}

/// Payload size declared by a complete header: the low 30 bits of its first word.
pub open spec fn header_size(h: Seq<u8>) -> nat {
    (le_u32(h) % 0x40000000) as nat
}

/// Flags declared by a complete header: the top 2 bits of its first word.
pub open spec fn header_flag(h: Seq<u8>) -> u8 {
    (le_u32(h) / 0x40000000) as u8
}

/// Whether the flags announce a looping answer (one header, many payloads).
pub open spec fn is_loop(flag: u8) -> bool {
    flag % 2 == 1
}

pub open spec fn min_nat(a: nat, b: nat) -> nat {
    if a < b {
        a
    } else {
        b
    }
}

impl DecoderView {
    /// Invariant of the decoder state.
    pub open spec fn wf(self) -> bool {
        match self.status {
            DecodeStatus::WaitSyncByte(i) => i < 2 && self.header.len() == 0,
            DecodeStatus::WaitAnsHeader => self.header.len() < 5 || (self.header.len() == 5
                && header_size(self.header) == 0 && is_loop(header_flag(self.header))),
            DecodeStatus::ReceiveResponse => 0 < self.size < 0x40000000 && self.data.len()
                < self.size,
        }
    }

    /// Waiting for sync byte `i`, with the header state cleared.
    pub open spec fn restart(self, i: nat) -> DecoderView {
        DecoderView {
            status: DecodeStatus::WaitSyncByte(i as usize),
            header: Seq::empty(),
            flag: 0,
            size: 0,
            cmd: self.cmd,
            data: self.data,
        }
    }

    /// Waiting for the first sync byte with nothing pending.
    pub open spec fn is_idle(self) -> bool {
        &&& self.status == DecodeStatus::WaitSyncByte(0)
        &&& self.header.len() == 0
        &&& self.flag == 0
        &&& self.size == 0
    }
}

/// One decoding step on a non-empty input: what the decoder does with the
/// leading bytes of `buf` in state `s`.
pub open spec fn step(s: DecoderView, buf: Seq<u8>) -> DecodeResult {
    match s.status {
        DecodeStatus::WaitSyncByte(i) => {
            let next = if buf[0] != ans_sync_byte(i as nat) {
                s.restart(0)
            } else if i == 1 {
                DecoderView { status: DecodeStatus::WaitAnsHeader, ..s.restart(0) }
            } else {
                s.restart((i + 1) as nat)
            };
            DecodeResult { ok: true, consumed: 1, frame: None, state: next }
        },
        DecodeStatus::WaitAnsHeader => {
            let k = min_nat((5 - s.header.len()) as nat, buf.len());
            let h = s.header + buf.take(k as int);
            if h.len() == 5 {
                let size = header_size(h);
                let flag = header_flag(h);
                let cmd = h[4];
                let st = DecoderView {
                    status: if size == 0 {
                        DecodeStatus::WaitAnsHeader
                    } else {
                        DecodeStatus::ReceiveResponse
                    },
                    header: h,
                    flag: flag,
                    size: size,
                    cmd: cmd,
                    data: Seq::empty(),
                };
                if size == 0 && is_loop(flag) {
                    DecodeResult { ok: false, consumed: k, frame: None, state: st }
                } else if size == 0 {
                    DecodeResult {
                        ok: true,
                        consumed: k,
                        frame: Some((cmd, Seq::empty())),
                        state: st.restart(0),
                    }
                } else {
                    DecodeResult { ok: true, consumed: k, frame: None, state: st }
                }
            } else {
                DecodeResult { ok: true, consumed: k, frame: None, state: DecoderView { header: h, ..s } }
            }
        },
        DecodeStatus::ReceiveResponse => {
            let k = min_nat((s.size - s.data.len()) as nat, buf.len());
            let d = s.data + buf.take(k as int);
            if d.len() == s.size {
                let next = if is_loop(s.flag) {
                    DecoderView { data: Seq::empty(), ..s }
                } else {
                    DecoderView { data: d, ..s }.restart(0)
                };
                DecodeResult { ok: true, consumed: k, frame: Some((s.cmd, d)), state: next }
            } else {
                DecodeResult { ok: true, consumed: k, frame: None, state: DecoderView { data: d, ..s } }
            }
        },
    }
}

/// Feeding `buf` to the decoder in state `s`: steps are taken until the
/// input runs out, an answer completes, or the protocol is broken.
pub open spec fn decode_spec(s: DecoderView, buf: Seq<u8>) -> DecodeResult
    decreases buf.len(),
{
    if buf.len() == 0 {
        DecodeResult { ok: true, consumed: 0, frame: None, state: s }
    } else {
        let r = step(s, buf);
        if !r.ok || r.frame is Some || r.consumed == 0 || r.consumed > buf.len() {
            r
        } else {
            let rest = decode_spec(r.state, buf.skip(r.consumed as int));
            DecodeResult { consumed: rest.consumed + r.consumed, ..rest }
        }
    }
}

/// The bytes of a request frame: the sync byte and the command, then, when
/// there is a payload, its length, the payload and the XOR of all that precedes.
pub open spec fn request_bytes(cmd: u8, payload: Seq<u8>) -> Seq<u8> {
    if payload.len() == 0 {
        seq![RPLIDAR_CMD_SYNC_BYTE, cmd]
    } else {
        let head = seq![
            RPLIDAR_CMD_SYNC_BYTE,
            cmd | RPLIDAR_CMDFLAG_HAS_PAYLOAD,
            payload.len() as u8,
        ];
        head + payload + seq![xor_all(head + payload)]
    }
}

/// Facts on one decoding step from a well-formed state.
pub proof fn lemma_step_wf(s: DecoderView, buf: Seq<u8>)
    requires
        s.wf(),
        buf.len() > 0,
    ensures
        step(s, buf).state.wf(),
        step(s, buf).consumed <= buf.len(),
        step(s, buf).ok ==> step(s, buf).consumed > 0,
{
    let r = step(s, buf);
    match s.status {
        DecodeStatus::WaitAnsHeader => {
            if s.header.len() < 5 {
                let k = min_nat((5 - s.header.len()) as nat, buf.len());
                assert((s.header + buf.take(k as int)).len() == s.header.len() + k);
            }
        },
        DecodeStatus::ReceiveResponse => {
            let k = min_nat((s.size - s.data.len()) as nat, buf.len());
            assert((s.data + buf.take(k as int)).len() == s.data.len() + k);
        },
        _ => {},
    }
}

/// A decoding run that neither fails nor completes an answer consumes its
/// whole input, and never more than its input.
pub proof fn lemma_decode_consumes_all(s: DecoderView, buf: Seq<u8>)
    requires
        s.wf(),
    ensures
        decode_spec(s, buf).consumed <= buf.len(),
        decode_spec(s, buf).state.wf(),
        decode_spec(s, buf).ok && decode_spec(s, buf).frame is None ==> decode_spec(s, buf).consumed
            == buf.len(),
    decreases buf.len(),
{
    if buf.len() > 0 {
        lemma_step_wf(s, buf);
        let r = step(s, buf);
        if r.ok && r.frame is None && r.consumed > 0 && r.consumed <= buf.len() {
            lemma_decode_consumes_all(r.state, buf.skip(r.consumed as int));
        }
    }
}

/// The bytes of an answer frame that carries `payload` once, without flags:
/// the two sync bytes, the payload size as a little-endian word, the command,
/// then the payload.
pub open spec fn answer_bytes(cmd: u8, payload: Seq<u8>) -> Seq<u8> {
    let n = payload.len();
    seq![
        RPLIDAR_ANS_SYNC_BYTE_FIRST,
        RPLIDAR_ANS_SYNC_BYTE_SECOND,
        (n % 256) as u8,
        ((n / 256) % 256) as u8,
        ((n / 65536) % 256) as u8,
        ((n / 16777216) % 256) as u8,
        cmd,
    ] + payload
}

/// Decoding undoes the answer framing: an idle decoder fed the bytes of one
/// answer frame consumes all of them, yields that frame, and is idle again.
pub proof fn lemma_decode_answer_round_trip(s: DecoderView, cmd: u8, payload: Seq<u8>)
    requires
        s.is_idle(),
        payload.len() < 0x40000000,
    ensures
        decode_spec(s, answer_bytes(cmd, payload)).ok,
        decode_spec(s, answer_bytes(cmd, payload)).consumed == answer_bytes(cmd, payload).len(),
        decode_spec(s, answer_bytes(cmd, payload)).frame == Some((cmd, payload)),
        decode_spec(s, answer_bytes(cmd, payload)).state.is_idle(),
{
    let b = answer_bytes(cmd, payload);
    let n = payload.len();
    let h = b.skip(2).take(5);
    assert(h =~= b.subrange(2, 7));
    assert(le_u32(h) == n) by {
        assert(n == 256 * (n / 256) + n % 256);
        assert(n / 256 == 256 * (n / 65536) + (n / 256) % 256);
        assert(n / 65536 == 256 * (n / 16777216) + (n / 65536) % 256);
        assert(n / 16777216 < 256);
    }
    let s1 = s.restart(1);
    assert(step(s, b).state == s1);
    assert(b.skip(1)[0] == RPLIDAR_ANS_SYNC_BYTE_SECOND);
    let s2 = DecoderView { status: DecodeStatus::WaitAnsHeader, ..s1.restart(0) };
    assert(step(s1, b.skip(1)).state == s2);
    assert(b.skip(1).skip(1) =~= b.skip(2));
    let r3 = step(s2, b.skip(2));
    assert(s2.header + b.skip(2).take(5) =~= h);
    assert(r3.consumed == 5);
    if n == 0 {
        assert(r3.frame == Some((cmd, Seq::<u8>::empty())));
        assert(payload =~= Seq::<u8>::empty());
        assert(decode_spec(s2, b.skip(2)) == r3);
        assert(decode_spec(s1, b.skip(1)).consumed == 6);
    } else {
        let s3 = r3.state;
        assert(b.skip(2).skip(5) =~= payload);
        let r4 = step(s3, payload);
        assert(Seq::<u8>::empty() + payload.take(n as int) =~= payload);
        assert(r4.frame == Some((cmd, payload)));
        assert(decode_spec(s3, payload) == r4);
        assert(decode_spec(s2, b.skip(2)).consumed == 5 + n);
        assert(decode_spec(s1, b.skip(1)).consumed == 6 + n);
    }
}

/// The RPLIDAR host protocol: encodes requests and decodes answers.
#[derive(Debug, Clone, PartialEq)]
pub struct RplidarHostProtocol {
    status: DecodeStatus,
    ans_header: Vec<u8>,
    ans_flag: u8,
    response_size: usize,
    decoding_msg: Message,
}

impl View for RplidarHostProtocol {
    type V = DecoderView;

    closed spec fn view(&self) -> DecoderView {
        DecoderView {
            status: self.status,
            header: self.ans_header@,
            flag: self.ans_flag,
            size: self.response_size as nat,
            cmd: self.decoding_msg.cmd,
            data: self.decoding_msg.data@,
        }
    }
}

proof fn lemma_header_word(w: u32)
    ensures
        (w >> 30u32) as u8 as int == w as int / 0x40000000,
        (w & 0x3FFFFFFFu32) as int == w as int % 0x40000000,
{
    assert((w >> 30u32) == w / 0x40000000u32) by (bit_vector);
    assert((w >> 30u32) < 4) by (bit_vector);
    assert((w & 0x3FFFFFFFu32) == w % 0x40000000u32) by (bit_vector);
}

proof fn lemma_loop_bit(f: u8)
    ensures
        (f & RPLIDAR_ANS_PKTFLAG_LOOP == RPLIDAR_ANS_PKTFLAG_LOOP) == is_loop(f),
{
    assert((f & 1u8 == 1u8) == (f % 2 == 1)) by (bit_vector);
}

impl RplidarHostProtocol {
    /// A protocol waiting for the first sync byte of an answer.
    pub fn new() -> (r: RplidarHostProtocol)
        ensures
            r@.is_idle(),
            r@.wf(),
    {
        RplidarHostProtocol {
            status: DecodeStatus::WaitSyncByte(0),
            ans_header: Vec::new(),
            ans_flag: 0,
            response_size: 0,
            decoding_msg: Message::new(0),
        }
    }

    fn start_wait_sync_bytes(&mut self, sync_byte_index: usize)
        requires
            sync_byte_index < 2,
        ensures
            final(self)@ == old(self)@.restart(sync_byte_index as nat),
    {
        self.status = DecodeStatus::WaitSyncByte(sync_byte_index);
        self.ans_header.clear();
        self.ans_flag = 0;
        self.response_size = 0;
    }

    fn start_wait_ans_header(&mut self)
        ensures
            final(self)@ == (DecoderView {
                status: DecodeStatus::WaitAnsHeader,
                ..old(self)@.restart(0)
            }),
    {
        self.status = DecodeStatus::WaitAnsHeader;
        self.ans_header.clear();
        self.ans_flag = 0;
        self.response_size = 0;
    }

    fn start_receive_response(&mut self)
        ensures
            final(self)@ == (DecoderView {
                status: DecodeStatus::ReceiveResponse,
                data: Seq::empty(),
                ..old(self)@
            }),
    {
        self.status = DecodeStatus::ReceiveResponse;
        self.decoding_msg.data.clear();
    }

    fn decode_sync_bytes(&mut self, buf: &[u8]) -> (r: usize)
        requires
            old(self)@.wf(),
            old(self)@.status is WaitSyncByte,
            buf@.len() > 0,
        ensures
            step(old(self)@, buf@).ok,
            step(old(self)@, buf@).frame is None,
            r == step(old(self)@, buf@).consumed,
            final(self)@ == step(old(self)@, buf@).state,
    {
        let i = match self.status {
            DecodeStatus::WaitSyncByte(i) => i,
            _ => 0,
        };
        let expected = if i == 0 {
            RPLIDAR_ANS_SYNC_BYTE_FIRST
        } else {
            RPLIDAR_ANS_SYNC_BYTE_SECOND
        };
        if buf[0] != expected {
            self.start_wait_sync_bytes(0);
        } else if i == 1 {
            self.start_wait_ans_header();
        } else {
            self.start_wait_sync_bytes(i + 1);
        }
        1
    }

    /// Once the five header bytes are in: read the command, the flags and the
    /// payload size from them.
    fn decode_ans_header_metadata(&mut self)
        requires
            old(self).ans_header@.len() == 5,
        ensures
            final(self).status == old(self).status,
            final(self).ans_header == old(self).ans_header,
            final(self)@.cmd == old(self).ans_header@[4],
            final(self)@.data == Seq::<u8>::empty(),
            final(self)@.flag == header_flag(old(self).ans_header@),
            final(self)@.size == header_size(old(self).ans_header@),
    {
        self.decoding_msg = Message::new(self.ans_header[4]);
        let word = read_le_u32(self.ans_header.as_slice());
        proof {
            lemma_header_word(word);
        }
        self.ans_flag = (word >> RPLIDAR_ANS_HEADER_SUBTYPE_SHIFT) as u8;
        self.response_size = (word & RPLIDAR_ANS_HEADER_SIZE_MASK) as usize;
    }

    fn decode_ans_header(&mut self, buf: &[u8]) -> (r: Result<(usize, Option<Message>)>)
        requires
            old(self)@.wf(),
            old(self)@.status is WaitAnsHeader,
            buf@.len() > 0,
        ensures
            ({
                let s = step(old(self)@, buf@);
                &&& final(self)@ == s.state
                &&& (r is Ok <==> s.ok)
                &&& (r is Err ==> r->Err_0 is ProtocolError)
                &&& (r is Ok ==> r->Ok_0.0 == s.consumed && frame_of(r->Ok_0.1) == s.frame)
            }),
    {
        let bytes_to_read = RPLIDAR_ANS_HEADER_SIZE - self.ans_header.len();
        let bytes_actual_read = if bytes_to_read < buf.len() {
            bytes_to_read
        } else {
            buf.len()
        };
        self.ans_header.extend_from_slice(&buf[0..bytes_actual_read]);
        assert(self.ans_header@ =~= old(self).ans_header@ + buf@.take(bytes_actual_read as int));
        if bytes_to_read == bytes_actual_read {
            self.decode_ans_header_metadata();
            proof {
                lemma_loop_bit(self.ans_flag);
            }
            if self.response_size == 0 {
                if (self.ans_flag & RPLIDAR_ANS_PKTFLAG_LOOP) == RPLIDAR_ANS_PKTFLAG_LOOP {
                    Err(protocol_error("received loop answer with no response size"))
                } else {
                    let answer = self.decoding_msg.duplicate();
                    self.start_wait_sync_bytes(0);
                    Ok((bytes_actual_read, Some(answer)))
                }
            } else {
                self.start_receive_response();
                Ok((bytes_actual_read, None))
            }
        } else {
            Ok((bytes_actual_read, None))
        }
    }

    /// Decodes answer bytes: returns how many bytes of `buf` were consumed
    /// and the answer they completed, if any. At most one answer per call.
    pub fn decode(&mut self, buf: &[u8]) -> (r: Result<(usize, Option<Message>)>)
        requires
            old(self)@.wf(),
        ensures
            final(self)@.wf(),
            ({
                let d = decode_spec(old(self)@, buf@);
                &&& final(self)@ == d.state
                &&& (r is Ok <==> d.ok)
                &&& (r is Err ==> r->Err_0 is ProtocolError)
                &&& (r is Ok ==> r->Ok_0.0 == d.consumed && frame_of(r->Ok_0.1) == d.frame)
            }),
    {
        let mut i: usize = 0;
        assert(buf@.skip(0) =~= buf@);
        while i < buf.len()
            invariant
                i <= buf@.len(),
                self@.wf(),
                decode_spec(old(self)@, buf@) == (DecodeResult {
                    consumed: decode_spec(self@, buf@.skip(i as int)).consumed + i as nat,
                    ..decode_spec(self@, buf@.skip(i as int))
                }),
            decreases buf@.len() - i,
        {
            let rest = &buf[i..buf.len()];
            assert(rest@ =~= buf@.skip(i as int));
            proof {
                lemma_step_wf(self@, rest@);
            }
            match self.status {
                DecodeStatus::WaitSyncByte(_) => {
                    let read = self.decode_sync_bytes(rest);
                    assert(buf@.skip(i as int + read) =~= rest@.skip(read as int));
                    i = i + read;
                },
                DecodeStatus::WaitAnsHeader => {
                    let (read, msg) = self.decode_ans_header(rest)?;
                    if msg.is_some() {
                        return Ok((i + read, msg));
                    }
                    assert(buf@.skip(i as int + read) =~= rest@.skip(read as int));
                    i = i + read;
                },
                DecodeStatus::ReceiveResponse => {
                    let (read, msg) = self.decode_response(rest);
                    if msg.is_some() {
                        return Ok((i + read, msg));
                    }
                    assert(buf@.skip(i as int + read) =~= rest@.skip(read as int));
                    i = i + read;
                },
            }
        }
        assert(buf@.skip(i as int) =~= Seq::<u8>::empty());
        Ok((i, None))
    }

    /// Drops any partly decoded answer and waits for a new one.
    pub fn reset_decoder(&mut self)
        ensures
            final(self)@ == old(self)@.restart(0),
            final(self)@.wf(),
            final(self)@.is_idle(),
    {
        self.start_wait_sync_bytes(0);
    }

    /// The encoder keeps no state: nothing to reset.
    pub fn reset_encoder(&mut self)
        ensures
            *final(self) == *old(self),
    {
    }

    /// The size of the request frame for `msg`.
    pub fn estimate_encoded_size(&mut self, msg: &Message) -> (r: Result<usize>)
        ensures
            *final(self) == *old(self),
            msg.data@.len() > 255 ==> r is Err && r->Err_0 is OperationFail,
            msg.data@.len() <= 255 ==> r == Ok::<usize, RposError>(
                request_bytes(msg.cmd, msg.data@).len() as usize,
            ),
    {
        if msg.data.len() > 255 {
            return Err(operation_fail("payload too big"));
        }
        if msg.data.len() > 0 {
            Ok(4 + msg.data.len())
        } else {
            Ok(2)
        }
    }

    /// Writes the request frame for `msg` at the start of `bytes` and
    /// returns its length; the rest of `bytes` is left as it was.
    pub fn encode(&mut self, msg: &Message, bytes: &mut [u8]) -> (r: Result<usize>)
        ensures
            *final(self) == *old(self),
            msg.data@.len() > 255 ==> r is Err && r->Err_0 is OperationFail && final(bytes)@
                == old(bytes)@,
            msg.data@.len() <= 255 && request_bytes(msg.cmd, msg.data@).len() > old(bytes)@.len()
                ==> r is Err && r->Err_0 is BufferTooSmall && final(bytes)@ == old(bytes)@,
            msg.data@.len() <= 255 && request_bytes(msg.cmd, msg.data@).len() <= old(bytes)@.len()
                ==> r == Ok::<usize, RposError>(request_bytes(msg.cmd, msg.data@).len() as usize)
                && final(bytes)@ == request_bytes(msg.cmd, msg.data@) + old(bytes)@.skip(
                request_bytes(msg.cmd, msg.data@).len() as int,
            ),
    {
        let estimated_encoded_size = self.estimate_encoded_size(msg)?;
        if estimated_encoded_size > bytes.len() {
            return Err(RposError::BufferTooSmall);
        }
        let len = msg.data.len();
        if len == 0 {
            bytes[0] = RPLIDAR_CMD_SYNC_BYTE;
            bytes[1] = msg.cmd;
            assert(bytes@ =~= request_bytes(msg.cmd, msg.data@) + old(bytes)@.skip(2));
            return Ok(2);
        }
        let cmd = msg.cmd | RPLIDAR_CMDFLAG_HAS_PAYLOAD;
        let ghost head = seq![RPLIDAR_CMD_SYNC_BYTE, cmd, len as u8];
        let mut checksum = Checksum::new();
        checksum.push(RPLIDAR_CMD_SYNC_BYTE);
        checksum.push(cmd);
        checksum.push(len as u8);
        checksum.push_slice(msg.data.as_slice());
        proof {
            assert(head.drop_last().drop_last().drop_last() =~= Seq::<u8>::empty());
            assert(head.drop_last().drop_last() =~= seq![RPLIDAR_CMD_SYNC_BYTE]);
            assert(head.drop_last() =~= seq![RPLIDAR_CMD_SYNC_BYTE, cmd]);
            reveal_with_fuel(xor_all, 4);
            assert(xor_all(head) == ((0u8 ^ RPLIDAR_CMD_SYNC_BYTE) ^ cmd) ^ (len as u8));
            lemma_xor_all_concat(head, msg.data@);
        }
        bytes[0] = RPLIDAR_CMD_SYNC_BYTE;
        bytes[1] = cmd;
        bytes[2] = len as u8;
        let mut j: usize = 0;
        while j < len
            invariant
                j <= len,
                len == msg.data@.len(),
                1 <= len <= 255,
                bytes@.len() == old(bytes)@.len(),
                4 + len <= bytes@.len(),
                bytes@.take(3) == head,
                forall|t: int| 0 <= t < j ==> bytes@[3 + t] == msg.data@[t],
                forall|t: int| 3 + len <= t < bytes@.len() ==> bytes@[t] == old(bytes)@[t],
            decreases len - j,
        {
            bytes[3 + j] = msg.data[j];
            assert(bytes@.take(3) =~= head);
            j = j + 1;
        }
        assert(checksum.value() == xor_all(head + msg.data@));
        bytes[3 + len] = checksum.checksum();
        let ghost expect = request_bytes(msg.cmd, msg.data@) + old(bytes)@.skip(4 + len);
        assert(expect.len() == bytes@.len());
        assert forall|t: int| 0 <= t < bytes@.len() implies bytes@[t] == expect[t] by {
            if t < 3 {
                assert(bytes@[t] == bytes@.take(3)[t]);
            }
        }
        assert(bytes@ =~= request_bytes(msg.cmd, msg.data@) + old(bytes)@.skip(4 + len));
        Ok(4 + len)
    }

    /// The request frame for `msg` as a fresh byte vector.
    pub fn encode_to_vec(&mut self, msg: &Message) -> (r: Result<Vec<u8>>)
        ensures
            *final(self) == *old(self),
            msg.data@.len() > 255 ==> r is Err && r->Err_0 is OperationFail,
            msg.data@.len() <= 255 ==> r is Ok && r->Ok_0@ == request_bytes(msg.cmd, msg.data@),
    {
        let size = self.estimate_encoded_size(msg)?;
        let mut buf: Vec<u8> = vec![0u8; size];
        self.encode(msg, buf.as_mut_slice())?;
        assert(buf@ =~= request_bytes(msg.cmd, msg.data@));
        Ok(buf)
    }

    fn decode_response(&mut self, buf: &[u8]) -> (r: (usize, Option<Message>))
        requires
            old(self)@.wf(),
            old(self)@.status is ReceiveResponse,
            buf@.len() > 0,
        ensures
            ({
                let s = step(old(self)@, buf@);
                &&& s.ok
                &&& final(self)@ == s.state
                &&& r.0 == s.consumed
                &&& frame_of(r.1) == s.frame
            }),
    {
        let bytes_to_read = self.response_size - self.decoding_msg.data.len();
        let bytes_actual_read = if bytes_to_read < buf.len() {
            bytes_to_read
        } else {
            buf.len()
        };
        self.decoding_msg.data.extend_from_slice(&buf[0..bytes_actual_read]);
        assert(self.decoding_msg.data@ =~= old(self).decoding_msg.data@ + buf@.take(
            bytes_actual_read as int,
        ));
        if self.decoding_msg.data.len() == self.response_size {
            let answer = self.decoding_msg.duplicate();
            proof {
                lemma_loop_bit(self.ans_flag);
            }
            if self.ans_flag & RPLIDAR_ANS_PKTFLAG_LOOP == RPLIDAR_ANS_PKTFLAG_LOOP {
                self.start_receive_response();
            } else {
                self.start_wait_sync_bytes(0);
            }
            (bytes_actual_read, Some(answer))
        } else {
            (bytes_actual_read, None)
        }
    }
}

impl ProtocolDecoder for RplidarHostProtocol {
    open spec fn decoder_wf(&self) -> bool {
        self@.wf()
    }

    fn decode(&mut self, buf: &[u8]) -> (r: Result<(usize, Option<Message>)>) {
        RplidarHostProtocol::decode(self, buf)
    }

    fn reset_decoder(&mut self) {
        RplidarHostProtocol::reset_decoder(self)
    }
}

impl ProtocolEncoder for RplidarHostProtocol {
    fn encode(&mut self, msg: &Message, bytes: &mut [u8]) -> Result<usize> {
        RplidarHostProtocol::encode(self, msg, bytes)
    }

    fn estimate_encoded_size(&mut self, msg: &Message) -> Result<usize> {
        RplidarHostProtocol::estimate_encoded_size(self, msg)
    }

    fn encode_to_vec(&mut self, msg: &Message) -> Result<Vec<u8>> {
        RplidarHostProtocol::encode_to_vec(self, msg)
    }

    fn reset_encoder(&mut self) {
        RplidarHostProtocol::reset_encoder(self)
    }
}

} // verus!
