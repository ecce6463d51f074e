use vstd::prelude::*;
use crate::errors::Result;

verus! {

/// A frame sent over a channel: a command byte and its payload.
#[derive(Debug, Clone, PartialEq)]
pub struct Message {
    /// The command.
    pub cmd: u8,
    /// Payload data.
    pub data: Vec<u8>,
}

impl View for Message {
    type V = (u8, Seq<u8>);

    open spec fn view(&self) -> (u8, Seq<u8>) {
        (self.cmd, self.data@)
    }
}

/// The abstract frame held by an optional message.
pub open spec fn frame_of(m: Option<Message>) -> Option<(u8, Seq<u8>)> {
    match m {
        Some(m) => Some(m@),
        None => None,
    }
}

impl Message {
    /// A message without payload.
    pub fn new(cmd: u8) -> (r: Message)
        ensures
            r@ == (cmd, Seq::<u8>::empty()),
    {
        Message { cmd: cmd, data: Vec::new() }
    }

    /// A message carrying a copy of `data`.
    pub fn with_data(cmd: u8, data: &[u8]) -> (r: Message)
        ensures
            r@ == (cmd, data@),
    {
        let mut msg = Message { cmd: cmd, data: Vec::with_capacity(data.len()) };
        msg.data.extend_from_slice(data);
        assert(msg.data@ =~= data@);
        msg
    }

    /// A message with the same command and payload.
    pub fn duplicate(&self) -> (r: Message)
        ensures
            r@ == self@,
    {
        Message::with_data(self.cmd, self.data.as_slice())
    }
}

/// Decodes messages from received bytes.
pub trait ProtocolDecoder {
    /// The decoder state is consistent.
    spec fn decoder_wf(&self) -> bool;

    /// Decodes bytes; returns how many were consumed and the message they
    /// completed, if any.
    fn decode(&mut self, buf: &[u8]) -> (r: Result<(usize, Option<Message>)>)
        requires
            old(self).decoder_wf(),
        ensures
            final(self).decoder_wf(),
    ;

    /// Drops any partly decoded message.
    fn reset_decoder(&mut self)
        ensures
            final(self).decoder_wf(),
    ;
}

/// Encodes messages into bytes.
pub trait ProtocolEncoder {
    /// Encodes a message at the start of `bytes`; returns its length.
    fn encode(&mut self, msg: &Message, bytes: &mut [u8]) -> Result<usize>;

    /// An upper bound of the encoded size of a message.
    fn estimate_encoded_size(&mut self, msg: &Message) -> Result<usize>;

    /// The encoded bytes of a message.
    fn encode_to_vec(&mut self, msg: &Message) -> Result<Vec<u8>>;

    /// Resets the encoder.
    fn reset_encoder(&mut self);
}

} // verus!
