use vstd::prelude::*;

verus! {

/// On the socket each message is preceded by its size on eight bytes, most
/// significant byte first. Size 0 ends the connection; sizes from this
/// bound on carry no data and only show that the peer is alive.
pub const MAX_MESSAGE_SIZE: u64 = 20000000;

/// The size sent alone, once a second, to show that the peer is alive.
pub const LIFE_PACKET_SIZE: u64 = 0xffff_ffff_ffff_ffff;

/// The size sent alone to end the connection.
pub const END_PACKET_SIZE: u64 = 0;

/// A peer that has sent nothing for longer than this (in nanoseconds) is
/// gone.
pub const RECEIVE_TIMEOUT_NANOS: u128 = 5_000_000_000;

/// The client sends a life packet when it has sent nothing for longer than
/// this (in nanoseconds).
pub const LIFE_PACKET_INTERVAL_NANOS: u128 = 1_000_000_000;

/// The eight bytes of a size, most significant first.
pub open spec fn be_bytes(v: u64) -> Seq<u8> {
    seq![
        ((v >> 56u64) & 0xffu64) as u8,
        ((v >> 48u64) & 0xffu64) as u8,
        ((v >> 40u64) & 0xffu64) as u8,
        ((v >> 32u64) & 0xffu64) as u8,
        ((v >> 24u64) & 0xffu64) as u8,
        ((v >> 16u64) & 0xffu64) as u8,
        ((v >> 8u64) & 0xffu64) as u8,
        (v & 0xffu64) as u8,
    ]
}

pub open spec fn be_value8(b0: u8, b1: u8, b2: u8, b3: u8, b4: u8, b5: u8, b6: u8, b7: u8) -> u64 {
    ((b0 as u64) << 56u64) | ((b1 as u64) << 48u64) | ((b2 as u64) << 40u64) | ((b3 as u64)
        << 32u64) | ((b4 as u64) << 24u64) | ((b5 as u64) << 16u64) | ((b6 as u64) << 8u64) | (
    b7 as u64)
}

/// The size that eight bytes hold, most significant first.
pub open spec fn be_value(b: Seq<u8>) -> u64 {
    be_value8(b[0], b[1], b[2], b[3], b[4], b[5], b[6], b[7])
}

/// The header of a message of `size` bytes.
pub fn header_bytes(size: u64) -> (res: [u8; 8])
    ensures
        res@ == be_bytes(size),
{
    let res: [u8; 8] = [
        ((size >> 56) & 0xff) as u8,
        ((size >> 48) & 0xff) as u8,
        ((size >> 40) & 0xff) as u8,
        ((size >> 32) & 0xff) as u8,
        ((size >> 24) & 0xff) as u8,
        ((size >> 16) & 0xff) as u8,
        ((size >> 8) & 0xff) as u8,
        (size & 0xff) as u8,
    ];
    assert(res@ =~= be_bytes(size));
    res
}

/// The size that a header holds.
pub fn size_from_header(header: &[u8; 8]) -> (res: u64)
    ensures
        res == be_value(header@),
{
    ((header[0] as u64) << 56) | ((header[1] as u64) << 48) | ((header[2] as u64) << 40) | ((
    header[3] as u64) << 32) | ((header[4] as u64) << 24) | ((header[5] as u64) << 16) | ((
    header[6] as u64) << 8) | (header[7] as u64)
}

proof fn lemma_be_round_trip(v: u64)
    by (bit_vector)
    ensures
        be_value8(
            ((v >> 56u64) & 0xffu64) as u8,
            ((v >> 48u64) & 0xffu64) as u8,
            ((v >> 40u64) & 0xffu64) as u8,
            ((v >> 32u64) & 0xffu64) as u8,
            ((v >> 24u64) & 0xffu64) as u8,
            ((v >> 16u64) & 0xffu64) as u8,
            ((v >> 8u64) & 0xffu64) as u8,
            (v & 0xffu64) as u8,
        ) == v,
{
}

/// Law: the receiver reads back the size that the sender wrote.
pub proof fn lemma_header_round_trip(size: u64)
    ensures
        be_value(be_bytes(size)) == size,
{
    lemma_be_round_trip(size);
}

/// What a size read from the socket announces.
#[derive(Clone, Copy, Debug, PartialEq, Eq)]
pub enum Frame {
    /// The peer ends the connection.
    End,
    /// The peer is alive; no data follows.
    LifePacket,
    /// A message of that many bytes follows.
    Message(u64),
}

pub open spec fn frame_of(size: u64) -> Frame {
    if size == END_PACKET_SIZE {
        Frame::End
    } else if size < MAX_MESSAGE_SIZE {
        Frame::Message(size)
    } else {
        Frame::LifePacket
    }
}

/// What a size read from the socket announces: 0 ends the connection, a
/// size under the bound is followed by that many bytes of message, any
/// other size is a life packet.
pub fn classify_size(size: u64) -> (res: Frame)
    ensures
        res == frame_of(size),
{
    if size == END_PACKET_SIZE {
        Frame::End
    } else if size < MAX_MESSAGE_SIZE {
        Frame::Message(size)
    } else {
        Frame::LifePacket
    }
}

/// The bytes that send a message: its size, then the message.
pub fn encode_message(data: &Vec<u8>) -> (res: Vec<u8>)
    ensures
        res@ == be_bytes(data@.len() as u64) + data@,
{
    let header = header_bytes(data.len() as u64);
    let mut res: Vec<u8> = Vec::new();
    let mut i: usize = 0;
    while i < 8
        invariant
            i <= 8,
            header@ == be_bytes(data@.len() as u64),
            res@ == header@.subrange(0, i as int),
        decreases 8 - i,
    {
        res.push(header[i]);
        i = i + 1;
    }
    let mut j: usize = 0;
    while j < data.len()
        invariant
            j <= data@.len(),
            res@ == header@ + data@.subrange(0, j as int),
        decreases data.len() - j,
    {
        res.push(data[j]);
        j = j + 1;
    }
    assert(header@ =~= be_bytes(data@.len() as u64));
    assert(data@.subrange(0, data@.len() as int) =~= data@);
    res
}

/// The header that ends the connection.
pub fn end_packet() -> (res: [u8; 8])
    ensures
        res@ == be_bytes(END_PACKET_SIZE),
        frame_of(be_value(res@)) == Frame::End,
{
    proof {
        lemma_header_round_trip(END_PACKET_SIZE);
    }
    header_bytes(END_PACKET_SIZE)
}

/// The header that shows that the sender is alive.
pub fn life_packet() -> (res: [u8; 8])
    ensures
        res@ == be_bytes(LIFE_PACKET_SIZE),
        frame_of(be_value(res@)) == Frame::LifePacket,
{
    proof {
        lemma_header_round_trip(LIFE_PACKET_SIZE);
    }
    header_bytes(LIFE_PACKET_SIZE)
}

/// Law: a message under the size bound is read back as a message of its
/// size; an empty message cannot be told from the end of the connection.
pub proof fn lemma_message_frame(len: u64)
    ensures
        0 < len < MAX_MESSAGE_SIZE ==> frame_of(be_value(be_bytes(len))) == Frame::Message(len),
        len == 0 ==> frame_of(be_value(be_bytes(len))) == Frame::End,
{
    lemma_header_round_trip(len);
}

/// Whether a peer that has sent nothing for `elapsed_nanos` is gone.
pub fn receive_timed_out(elapsed_nanos: u128) -> (res: bool)
    ensures
        res == (elapsed_nanos > RECEIVE_TIMEOUT_NANOS),
{
    elapsed_nanos > RECEIVE_TIMEOUT_NANOS
}

/// Whether the client, having sent nothing for `elapsed_nanos`, sends a
/// life packet.
pub fn life_packet_due(elapsed_nanos: u128) -> (res: bool)
    ensures
        res == (elapsed_nanos > LIFE_PACKET_INTERVAL_NANOS),
{
    elapsed_nanos > LIFE_PACKET_INTERVAL_NANOS
}

} // verus!
