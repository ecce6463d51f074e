use vstd::prelude::*;
use crate::errors::Result;
use crate::message::{frame_of, Message};
use crate::protocol::{decode_spec, lemma_decode_consumes_all, request_bytes, DecoderView, RplidarHostProtocol};
use crate::ring_byte_buffer::{advance, RingByteBuffer};

verus! {

/// Default capacity of the staging buffer.
pub const DEFAULT_CHANNEL_READ_BUFFER_SIZE: usize = 1024;

/// Abstract state of a channel.
pub struct ChannelView {
    /// The answer decoder.
    pub decoder: DecoderView,
    /// Bytes received and not yet decoded, oldest first.
    pub buffered: Seq<u8>,
    /// Storage index of the oldest of them.
    pub read_pos: nat,
    /// Capacity of the staging buffer.
    pub capacity: nat,
}

impl ChannelView {
    /// How many staged bytes lie next to each other, up to the end of the
    /// staging storage.
    pub open spec fn contiguous(self) -> nat {
        if self.buffered.len() + self.read_pos <= self.capacity {
            self.buffered.len()
        } else {
            (self.capacity - self.read_pos) as nat
        }
    }
}

/// Outcome of reading from the staged bytes.
pub struct ReadOutcome {
    pub ok: bool,
    /// Bytes consumed from the staging buffer.
    pub consumed: nat,
    /// The answer completed, if any.
    pub frame: Option<(u8, Seq<u8>)>,
    /// The decoder state afterwards.
    pub decoder: DecoderView,
}

/// What reading does on a channel in state `v`: decode the contiguous
/// staged bytes; if they complete no answer and all were consumed, decode
/// the rest, which is contiguous by then.
pub open spec fn channel_read(v: ChannelView) -> ReadOutcome {
    let r1 = decode_spec(v.decoder, v.buffered.take(v.contiguous() as int));
    if !r1.ok || r1.consumed == 0 || r1.frame is Some {
        ReadOutcome { ok: r1.ok, consumed: if r1.ok { r1.consumed } else { 0 }, frame: r1.frame, decoder: r1.state }
    } else {
        let r2 = decode_spec(r1.state, v.buffered.skip(r1.consumed as int));
        ReadOutcome {
            ok: r2.ok,
            consumed: if r2.ok { r1.consumed + r2.consumed } else { r1.consumed },
            frame: r2.frame,
            decoder: r2.state,
        }
    }
}

/// Frames messages over a byte transport: encodes requests, and stages
/// received bytes and decodes answers from them.
pub struct Channel {
    protocol: RplidarHostProtocol,
    read_buffer: RingByteBuffer,
}

impl View for Channel {
    type V = ChannelView;

    closed spec fn view(&self) -> ChannelView {
        ChannelView {
            decoder: self.protocol@,
            buffered: self.read_buffer@,
            read_pos: self.read_buffer.read_pos(),
            capacity: self.read_buffer.spec_capacity(),
        }
    }
}

impl Channel {
    /// Invariant of a channel.
    pub closed spec fn wf(&self) -> bool {
        self.protocol@.wf() && self.read_buffer.wf()
    }

    /// A channel with the default staging capacity.
    pub fn new(protocol: RplidarHostProtocol) -> (r: Channel)
        ensures
            r.wf(),
            r@.decoder.is_idle(),
            r@.buffered == Seq::<u8>::empty(),
            r@.read_pos == 0,
            r@.capacity == DEFAULT_CHANNEL_READ_BUFFER_SIZE,
    {
        Channel::with_read_buffer_size(protocol, DEFAULT_CHANNEL_READ_BUFFER_SIZE)
    }

    /// A channel whose staging buffer holds `read_buffer_size` bytes.
    pub fn with_read_buffer_size(protocol: RplidarHostProtocol, read_buffer_size: usize) -> (r: Channel)
        ensures
            r.wf(),
            r@.decoder.is_idle(),
            r@.buffered == Seq::<u8>::empty(),
            r@.read_pos == 0,
            r@.capacity == read_buffer_size,
    {
        let mut chn = Channel {
            protocol: protocol,
            read_buffer: RingByteBuffer::with_capacity(read_buffer_size),
        };
        chn.reset_codec();
        chn
    }

    fn reset_codec(&mut self)
        requires
            old(self).read_buffer.wf(),
        ensures
            final(self).wf(),
            final(self)@ == (ChannelView { decoder: old(self)@.decoder.restart(0), ..old(self)@ }),
    {
        self.protocol.reset_encoder();
        self.protocol.reset_decoder();
    }

    /// Resets the encoder and the decoder; staged bytes stay.
    pub fn reset(&mut self)
        requires
            old(self).wf(),
        ensures
            final(self).wf(),
            final(self)@ == (ChannelView { decoder: old(self)@.decoder.restart(0), ..old(self)@ }),
    {
        self.reset_codec();
    }

    /// Room left in the staging buffer.
    pub fn free_space(&self) -> (r: usize)
        requires
            self.wf(),
        ensures
            r == self@.capacity - self@.buffered.len(),
    {
        self.read_buffer.free_space()
    }

    /// Stages bytes received from the transport, as many as there is room
    /// for; returns how many were taken.
    pub fn feed(&mut self, bytes: &[u8]) -> (r: usize)
        requires
            old(self).wf(),
        ensures
            final(self).wf(),
            final(self)@.decoder == old(self)@.decoder,
            final(self)@.capacity == old(self)@.capacity,
            final(self)@.read_pos == old(self)@.read_pos,
            r == if bytes@.len() < old(self)@.capacity - old(self)@.buffered.len() {
                bytes@.len() as usize
            } else {
                (old(self)@.capacity - old(self)@.buffered.len()) as usize
            },
            final(self)@.buffered == old(self)@.buffered + bytes@.take(r as int),
    {
        self.read_buffer.write(bytes)
    }

    /// Decodes one answer from the staged bytes, if they hold one.
    pub fn read(&mut self) -> (r: Result<Option<Message>>)
        requires
            old(self).wf(),
        ensures
            final(self).wf(),
            final(self)@.capacity == old(self)@.capacity,
            ({
                let o = channel_read(old(self)@);
                &&& final(self)@.decoder == o.decoder
                &&& final(self)@.buffered == old(self)@.buffered.skip(o.consumed as int)
                &&& final(self)@.read_pos == advance(old(self)@.read_pos, o.consumed, old(self)@.capacity)
                &&& (r is Ok <==> o.ok)
                &&& (r is Err ==> r->Err_0 is ProtocolError)
                &&& (r is Ok ==> frame_of(r->Ok_0) == o.frame)
            }),
    {
        let ghost v = self@;
        proof {
            lemma_decode_consumes_all(v.decoder, v.buffered.take(v.contiguous() as int));
        }
        let (decoded, msg) = self.protocol.decode(self.read_buffer.current_read_slice())?;
        self.read_buffer.skip_bytes(decoded);
        if decoded == 0 {
            return Ok(None);
        }
        if msg.is_some() {
            return Ok(msg);
        }
        let ghost v1 = self@;
        assert(v1.buffered == v.buffered.skip(decoded as int));
        proof {
            lemma_decode_consumes_all(v1.decoder, v1.buffered);
        }
        assert(v1.buffered.take(v1.contiguous() as int) =~= v1.buffered);
        let (decoded2, msg2) = match self.protocol.decode(self.read_buffer.current_read_slice()) {
            Ok(x) => x,
            Err(e) => {
                return Err(e);
            },
        };
        self.read_buffer.skip_bytes(decoded2);
        assert(v.buffered.skip(decoded as int).skip(decoded2 as int) =~= v.buffered.skip(
            decoded + decoded2,
        ));
        Ok(msg2)
    }

    /// The bytes to send to the transport for `msg`.
    pub fn write(&mut self, msg: &Message) -> (r: Result<Vec<u8>>)
        requires
            old(self).wf(),
        ensures
            final(self).wf(),
            final(self)@ == old(self)@,
            msg.data@.len() > 255 ==> r is Err && r->Err_0 is OperationFail,
            msg.data@.len() <= 255 ==> r is Ok && r->Ok_0@ == request_bytes(msg.cmd, msg.data@),
    {
        self.protocol.encode_to_vec(msg)
    }
}

} // verus!
