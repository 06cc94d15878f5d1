use vstd::prelude::*;

verus! {

/// Number of bytes in one encoded frame: one for the player id, two for each coordinate.
pub const FRAME_LEN: usize = 7;

/// Position of a block in the world.
#[derive(Clone, Copy, Debug, PartialEq, Eq, Structural)]
pub struct BlockPos {
    pub x: i32,
    pub y: i32,
    pub z: i32,
}

/// A block hit made by one player.
#[derive(Clone, Copy, Debug, PartialEq, Eq, Structural)]
pub struct Packet {
    pub player_id: u8,
    pub block_pos: BlockPos,
}

/// Why a frame could not be read.
#[derive(Clone, Copy, Debug, PartialEq, Eq, Structural)]
pub enum DecodeError {
    /// Fewer than `FRAME_LEN` bytes were available.
    TruncatedInput,
}

/// The value of two bytes read as a big-endian unsigned 16-bit integer.
pub open spec fn be_u16(hi: u8, lo: u8) -> int {
    hi as int * 256 + lo as int
}

/// The two big-endian bytes of `n`.
pub open spec fn be_bytes(n: int) -> Seq<u8> {
    seq![(n / 256) as u8, (n % 256) as u8]
}

/// A coordinate fits the frame's 16-bit field.
pub open spec fn fits_u16(v: i32) -> bool {
    0 <= v <= 0xffff
}

/// Every coordinate of the packet fits the frame.
pub open spec fn in_wire_range(p: Packet) -> bool {
    fits_u16(p.block_pos.x) && fits_u16(p.block_pos.y) && fits_u16(p.block_pos.z)
}

/// The frame of a packet: the player id, then x, y and z as big-endian 16-bit integers.
pub open spec fn frame_of(p: Packet) -> Seq<u8> {
    seq![p.player_id] + be_bytes(p.block_pos.x as int) + be_bytes(p.block_pos.y as int) + be_bytes(
        p.block_pos.z as int,
    )
}

/// The packet that the first `FRAME_LEN` bytes of `b` describe.
pub open spec fn packet_from(b: Seq<u8>) -> Packet
    recommends
        b.len() >= FRAME_LEN,
{
    Packet {
        player_id: b[0],
        block_pos: BlockPos {
            x: be_u16(b[1], b[2]) as i32,
            y: be_u16(b[3], b[4]) as i32,
            z: be_u16(b[5], b[6]) as i32,
        },
    }
}

/// Relies on byteorder's `NetworkEndian::read_u16`: the two bytes at `at`, big-endian.
#[verifier::external_body]
fn read_be_u16(buf: &[u8], at: usize) -> (r: u16)
    requires
        at + 2 <= buf@.len(),
    ensures
        r as int == be_u16(buf@[at as int], buf@[at + 1]),
{
    <byteorder::NetworkEndian as byteorder::ByteOrder>::read_u16(&buf[at..])
}

/// Relies on byteorder's `NetworkEndian::write_u16`: writes `n` big-endian at `at`.
#[verifier::external_body]
fn write_be_u16(buf: &mut Vec<u8>, at: usize, n: u16)
    requires
        at + 2 <= old(buf)@.len(),
    ensures
        final(buf)@ == old(buf)@.update(at as int, (n / 256) as u8).update(at + 1, (n % 256) as u8),
{
    <byteorder::NetworkEndian as byteorder::ByteOrder>::write_u16(&mut buf[at..], n)
}

impl Packet {
    /// Reads a packet from the start of `data`; bytes after the frame are ignored.
    pub fn decode(data: &[u8]) -> (r: Result<Packet, DecodeError>)
        ensures
            data@.len() < FRAME_LEN ==> r == Err::<Packet, DecodeError>(DecodeError::TruncatedInput),
            data@.len() >= FRAME_LEN ==> r == Ok::<Packet, DecodeError>(packet_from(data@)),
    {
        if data.len() < FRAME_LEN {
            return Err(DecodeError::TruncatedInput);
        }
        let player_id = data[0];
        let x = read_be_u16(data, 1);
        let y = read_be_u16(data, 3);
        let z = read_be_u16(data, 5);
        Ok(Packet { player_id, block_pos: BlockPos { x: x as i32, y: y as i32, z: z as i32 } })
    }

    /// Whether every coordinate fits the frame, so that `encode` may be called.
    pub fn fits_wire(&self) -> (r: bool)
        ensures
            r == in_wire_range(*self),
    {
        0 <= self.block_pos.x && self.block_pos.x <= 0xffff && 0 <= self.block_pos.y
            && self.block_pos.y <= 0xffff && 0 <= self.block_pos.z && self.block_pos.z <= 0xffff
    }

    /// The frame of this packet, exactly `FRAME_LEN` bytes.
    pub fn encode(&self) -> (r: Vec<u8>)
        requires
            in_wire_range(*self),
        ensures
            r@ == frame_of(*self),
    {
        let mut buf: Vec<u8> = Vec::new();
        let mut i: usize = 0;
        while i < FRAME_LEN
            invariant
                i <= FRAME_LEN,
                buf@.len() == i,
            decreases FRAME_LEN - i,
        {
            buf.push(0);
            i = i + 1;
        }
        buf.set(0, self.player_id);
        write_be_u16(&mut buf, 1, self.block_pos.x as u16);
        write_be_u16(&mut buf, 3, self.block_pos.y as u16);
        write_be_u16(&mut buf, 5, self.block_pos.z as u16);
        assert(buf@ =~= frame_of(*self));
        buf
    }

    /// A transport message carrying this packet: its frame, then zero bytes up to
    /// `PLUGIN_MESSAGE_LENGTH`.
    pub fn to_message(&self) -> (r: Vec<u8>)
        requires
            in_wire_range(*self),
        ensures
            r@ == message_of(frame_of(*self)),
    {
        let frame = self.encode();
        pad_message(&frame)
    }
}

/// Size of every message on the plugin channel.
pub const PLUGIN_MESSAGE_LENGTH: usize = 64;

/// `payload` followed by zero bytes up to `PLUGIN_MESSAGE_LENGTH`.
pub open spec fn message_of(payload: Seq<u8>) -> Seq<u8> {
    payload + Seq::new((PLUGIN_MESSAGE_LENGTH - payload.len()) as nat, |i: int| 0u8)
}

/// Pads `payload` with zero bytes to a full message.
pub fn pad_message(payload: &Vec<u8>) -> (r: Vec<u8>)
    requires
        payload@.len() <= PLUGIN_MESSAGE_LENGTH,
    ensures
        r@ == message_of(payload@),
        r@.len() == PLUGIN_MESSAGE_LENGTH,
{
    let mut buf: Vec<u8> = Vec::new();
    let mut i: usize = 0;
    while i < PLUGIN_MESSAGE_LENGTH
        invariant
            i <= PLUGIN_MESSAGE_LENGTH,
            buf@.len() == i,
            forall|j: int| 0 <= j < i ==> #[trigger] buf@[j] == message_of(payload@)[j],
        decreases PLUGIN_MESSAGE_LENGTH - i,
    {
        if i < payload.len() {
            buf.push(payload[i]);
        } else {
            buf.push(0);
        }
        i = i + 1;
    }
    assert(buf@ =~= message_of(payload@));
    buf
}

/// Decoding the frame of a packet whose coordinates fit gives the packet back.
pub proof fn lemma_decode_encode(p: Packet)
    requires
        in_wire_range(p),
    ensures
        frame_of(p).len() == FRAME_LEN,
        packet_from(frame_of(p)) == p,
{
    let f = frame_of(p);
    assert(f.len() == FRAME_LEN);
    assert(be_u16(f[1], f[2]) == p.block_pos.x as int);
    assert(be_u16(f[3], f[4]) == p.block_pos.y as int);
    assert(be_u16(f[5], f[6]) == p.block_pos.z as int);
}

/// Encoding what was decoded from at least `FRAME_LEN` bytes gives back those
/// first `FRAME_LEN` bytes.
pub proof fn lemma_encode_decode(b: Seq<u8>)
    requires
        b.len() >= FRAME_LEN,
    ensures
        in_wire_range(packet_from(b)),
        frame_of(packet_from(b)) == b.take(FRAME_LEN as int),
{
    let p = packet_from(b);
    assert(frame_of(p) =~= b.take(FRAME_LEN as int));
}

} // verus!
