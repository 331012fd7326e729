use vstd::prelude::*;

verus! {

/// Longest message that a two-byte length prefix can announce.
pub const MAX_MESSAGE_LEN: usize = 65535;

/// A message on a stream: its length as two bytes, high byte first, then the message.
pub open spec fn framed(payload: Seq<u8>) -> Seq<u8>
    recommends
        payload.len() <= MAX_MESSAGE_LEN,
{
    seq![(payload.len() / 256) as u8, (payload.len() % 256) as u8] + payload
}

/// The length that the first two bytes of a stream announce.
pub open spec fn announced_len(stream: Seq<u8>) -> int
    recommends
        stream.len() >= 2,
{
    stream[0] as int * 256 + stream[1] as int
}

/// Whether the stream holds its first message in full.
pub open spec fn has_message(stream: Seq<u8>) -> bool {
    stream.len() >= 2 && stream.len() >= 2 + announced_len(stream)
}

/// The first message of a stream that holds one in full.
pub open spec fn first_message(stream: Seq<u8>) -> Seq<u8>
    recommends
        has_message(stream),
{
    stream.subrange(2, 2 + announced_len(stream))
}

/// What follows the first message of a stream that holds one in full.
pub open spec fn after_first_message(stream: Seq<u8>) -> Seq<u8>
    recommends
        has_message(stream),
{
    stream.subrange(2 + announced_len(stream), stream.len() as int)
}

/// Puts the length prefix before a message. A message too long for the
/// prefix is refused.
pub fn frame(payload: &[u8]) -> (out: Option<Vec<u8>>)
    ensures
        payload@.len() <= MAX_MESSAGE_LEN ==> out.is_some() && out.unwrap()@ == framed(payload@),
        payload@.len() > MAX_MESSAGE_LEN ==> out.is_none(),
{
    let n: usize = payload.len();
    if n > MAX_MESSAGE_LEN {
        return None;
    }
    let mut out: Vec<u8> = Vec::new();
    out.push((n / 256) as u8);
    out.push((n % 256) as u8);
    out.extend_from_slice(payload);
    assert(out@ =~= framed(payload@));
    Some(out)
}

/// Collects the bytes of a stream until a whole message has arrived.
pub struct Reassembler {
    buffer: Vec<u8>,
}

impl View for Reassembler {
    type V = Seq<u8>;

    /// The bytes received and not yet handed out.
    closed spec fn view(&self) -> Seq<u8> {
        self.buffer@
    }
}

impl Reassembler {
    /// A reassembler that has received nothing.
    pub fn new() -> (r: Reassembler)
        ensures
            r@ == Seq::<u8>::empty(),
    {
        Reassembler { buffer: Vec::new() }
    }

    /// Takes in what one read delivered, however the stream was cut.
    pub fn feed(&mut self, chunk: &[u8])
        ensures
            final(self)@ == old(self)@ + chunk@,
    {
        self.buffer.extend_from_slice(chunk);
    }

    /// How many bytes are still missing before the first message is whole:
    /// the rest of the prefix first, then the rest of the announced message.
    pub fn missing(&self) -> (n: usize)
        ensures
            self@.len() < 2 ==> n == 2 - self@.len(),
            self@.len() >= 2 && !has_message(self@) ==> n == 2 + announced_len(self@) - self@.len(),
            has_message(self@) <==> n == 0,
    {
        let have: usize = self.buffer.len();
        if have < 2 {
            return 2 - have;
        }
        let announced: usize = (self.buffer[0] as usize) * 256 + (self.buffer[1] as usize);
        if have - 2 >= announced {
            0
        } else {
            announced - (have - 2)
        }
    }

    /// Hands out the first message once it is whole and keeps what follows it;
    /// until then nothing is handed out and nothing changes.
    pub fn take_message(&mut self) -> (out: Option<Vec<u8>>)
        ensures
            has_message(old(self)@) ==> out.is_some() && out.unwrap()@ == first_message(old(self)@)
                && final(self)@ == after_first_message(old(self)@),
            !has_message(old(self)@) ==> out.is_none() && final(self)@ == old(self)@,
    {
        let have: usize = self.buffer.len();
        if have < 2 {
            return None;
        }
        let announced: usize = (self.buffer[0] as usize) * 256 + (self.buffer[1] as usize);
        if have - 2 < announced {
            return None;
        }
        let mut message: Vec<u8> = self.buffer.split_off(2);
        let rest: Vec<u8> = message.split_off(announced);
        self.buffer = rest;
        assert(message@ =~= first_message(old(self)@));
        assert(self.buffer@ =~= after_first_message(old(self)@));
        Some(message)
    }
}

/// A framed message is read back whole: the stream that holds exactly one
/// frame holds that message and nothing after it.
pub proof fn lemma_frame_roundtrip(payload: Seq<u8>)
    requires
        payload.len() <= MAX_MESSAGE_LEN,
    ensures
        has_message(framed(payload)),
        first_message(framed(payload)) == payload,
        after_first_message(framed(payload)) == Seq::<u8>::empty(),
{
    let n = payload.len() as int;
    let stream = framed(payload);
    assert(stream[0] as int == n / 256 && stream[1] as int == n % 256);
    assert(announced_len(stream) == n);
    assert(first_message(stream) =~= payload);
    assert(after_first_message(stream) =~= Seq::<u8>::empty());
}

/// A frame cut anywhere and delivered in two reads is reassembled to the
/// message that was framed, with nothing left over; and before the second
/// read arrives no message is handed out.
pub proof fn lemma_split_delivery(payload: Seq<u8>, cut: int)
    requires
        payload.len() <= MAX_MESSAGE_LEN,
        0 <= cut <= framed(payload).len(),
    ensures
        ({
            let stream = framed(payload);
            let first = stream.subrange(0, cut);
            let second = stream.subrange(cut, stream.len() as int);
            &&& has_message(first + second)
            &&& first_message(first + second) == payload
            &&& after_first_message(first + second) == Seq::<u8>::empty()
            &&& cut < stream.len() ==> !has_message(first)
        }),
{
    let stream = framed(payload);
    let first = stream.subrange(0, cut);
    let second = stream.subrange(cut, stream.len() as int);
    assert(first + second =~= stream);
    lemma_frame_roundtrip(payload);
    if cut < stream.len() && cut >= 2 {
        assert(first[0] == stream[0] && first[1] == stream[1]);
        assert(announced_len(first) == announced_len(stream));
    }
}

} // verus!
