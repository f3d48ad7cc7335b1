//! The two outside codecs that the save format is built on: LZ4 block
//! compression and the postcard wire format.
//!
//! Nothing in this module is proved. Each function hands its arguments to
//! one function of an outside crate, and its contract says what is taken on
//! trust about that function. The records are decoded as plain tuples, field
//! by field in the order of the record: an enumeration travels as the number
//! of its variant, and a single-precision number as its four bytes, read
//! here as the little-endian `u32` of its bit pattern.

use vstd::prelude::*;

verus! {

/// The fields of a stored player, as they travel: position and rotation as
/// bit patterns, each slot as item number, amount and creative flag, and the
/// inventory's change flag.
pub struct PlayerRecord {
    pub pos: (u32, u32, u32),
    pub rotation: (u32, u32),
    pub slots: Vec<(u32, u8, bool)>,
    pub modified: bool,
}

impl PlayerRecord {
    pub open spec fn view(&self) -> ((u32, u32, u32), (u32, u32), Seq<(u32, u8, bool)>, bool) {
        (self.pos, self.rotation, self.slots@, self.modified)
    }
}

/// The tuple that postcard reads and writes for a player.
pub type PlayerWire = (([u8; 4], [u8; 4], [u8; 4]), ([u8; 4], [u8; 4]), (Vec<(u32, u8, bool)>, bool));

/// What `lz4_flex::block::decompress` makes of `input` when it is given room
/// for `room` bytes: the unpacked bytes, or nothing where it reports an
/// error.
pub uninterp spec fn lz4_unpacked(input: Seq<u8>, room: nat) -> Option<Seq<u8>>;

/// What `postcard::from_bytes` reads from `bytes` as a text and an `i32`, on
/// a machine whose `usize` has `word_bits` bits; nothing where it reports an
/// error.
pub uninterp spec fn postcard_info_v1(bytes: Seq<u8>, word_bits: nat) -> Option<(Seq<char>, i32)>;

/// What `postcard::from_bytes` reads from `bytes` as a text, an `i32` and a
/// `u32`, on a machine whose `usize` has `word_bits` bits; nothing where it
/// reports an error.
pub uninterp spec fn postcard_info_v2(bytes: Seq<u8>, word_bits: nat) -> Option<
    (Seq<char>, i32, u32),
>;

/// What `postcard::from_bytes` reads from `bytes` as a `u16`, a text, an
/// `i32` and a `u32`, on a machine whose `usize` has `word_bits` bits;
/// nothing where it reports an error.
pub uninterp spec fn postcard_info_v3(bytes: Seq<u8>, word_bits: nat) -> Option<
    (u16, Seq<char>, i32, u32),
>;

/// What `postcard::from_bytes` reads from `bytes` as a player, on a machine
/// whose `usize` has `word_bits` bits; nothing where it reports an error.
pub uninterp spec fn postcard_player(bytes: Seq<u8>, word_bits: nat) -> Option<
    ((u32, u32, u32), (u32, u32), Seq<(u32, u8, bool)>, bool),
>;

/// The bytes that `postcard::to_allocvec` writes for a `u16`, a text, an
/// `i32` and a `u32`.
pub uninterp spec fn postcard_info_v3_bytes(version: u16, name: Seq<char>, seed: i32, mode: u32) -> Seq<
    u8,
>;

/// The bytes that `postcard::to_allocvec` writes for a player.
pub uninterp spec fn postcard_player_bytes(
    pos: (u32, u32, u32),
    rotation: (u32, u32),
    slots: Seq<(u32, u8, bool)>,
    modified: bool,
) -> Seq<u8>;

/// The number that four bytes spell, least significant byte first.
pub open spec fn le32(b0: u8, b1: u8, b2: u8, b3: u8) -> nat {
    (b0 as nat) + (b1 as nat) * 0x100 + (b2 as nat) * 0x1_0000 + (b3 as nat) * 0x100_0000
}

/// Unpacking a block that carries the unpacked size in front, as four bytes,
/// least significant first.
pub open spec fn lz4_unpacked_prepended(input: Seq<u8>) -> Option<Seq<u8>> {
    if input.len() < 4 {
        None
    } else {
        lz4_unpacked(input.skip(4), le32(input[0], input[1], input[2], input[3]))
    }
}

/// Calls `lz4_flex::block::decompress`, which unpacks a whole LZ4 block
/// into a buffer of `room` bytes and cuts the buffer to what was written.
/// Taken on trust: its result is the one named by [`lz4_unpacked`]. With the
/// checked decoder it reports every malformed or oversized block as an
/// error.
#[verifier::external_body]
pub(crate) fn unpack_block(input: &[u8], room: usize) -> (unpacked: Option<Vec<u8>>)
    ensures
        match unpacked {
            Some(bytes) => lz4_unpacked(input@, room as nat) == Some(bytes@),
            None => lz4_unpacked(input@, room as nat) is None,
        },
{
    lz4_flex::block::decompress(input, room).ok()
}

/// Calls `lz4_flex::block::decompress_size_prepended`, which reads the
/// first four bytes as the unpacked size and unpacks the rest into a buffer
/// of that size. Taken on trust: exactly that.
#[verifier::external_body]
pub(crate) fn unpack_prepended(input: &[u8]) -> (unpacked: Option<Vec<u8>>)
    ensures
        match unpacked {
            Some(bytes) => lz4_unpacked_prepended(input@) == Some(bytes@),
            None => lz4_unpacked_prepended(input@) is None,
        },
{
    lz4_flex::block::decompress_size_prepended(input).ok()
}

/// Calls `lz4_flex::block::compress`. Taken on trust: unpacking the block
/// with room for exactly the input gives the input back. Which bytes the
/// block holds is left open.
#[verifier::external_body]
pub(crate) fn pack_block(input: &[u8]) -> (packed: Vec<u8>)
    ensures
        lz4_unpacked(packed@, input@.len()) == Some(input@),
{
    lz4_flex::block::compress(input)
}

/// Calls `lz4_flex::block::compress_prepend_size`, which writes the input's
/// length in front of the block as a `u32`. Taken on trust: while the length
/// fits in a `u32`, unpacking gives the input back.
#[verifier::external_body]
pub(crate) fn pack_prepended(input: &[u8]) -> (packed: Vec<u8>)
    ensures
        input@.len() <= u32::MAX ==> lz4_unpacked_prepended(packed@) == Some(input@),
{
    lz4_flex::block::compress_prepend_size(input)
}

/// Calls `postcard::from_bytes` for a text and an `i32`. Taken on trust: its
/// result is the one named by [`postcard_info_v1`].
#[verifier::external_body]
pub(crate) fn decode_info_v1(bytes: &[u8]) -> (record: Option<(String, i32)>)
    ensures
        match record {
            Some(r) => postcard_info_v1(bytes@, usize::BITS as nat) == Some((r.0@, r.1)),
            None => postcard_info_v1(bytes@, usize::BITS as nat) is None,
        },
{
    postcard::from_bytes::<(String, i32)>(bytes).ok()
}

/// Calls `postcard::from_bytes` for a text, an `i32` and a `u32`. Taken on
/// trust: its result is the one named by [`postcard_info_v2`].
#[verifier::external_body]
pub(crate) fn decode_info_v2(bytes: &[u8]) -> (record: Option<(String, i32, u32)>)
    ensures
        match record {
            Some(r) => postcard_info_v2(bytes@, usize::BITS as nat) == Some((r.0@, r.1, r.2)),
            None => postcard_info_v2(bytes@, usize::BITS as nat) is None,
        },
{
    postcard::from_bytes::<(String, i32, u32)>(bytes).ok()
}

/// Calls `postcard::from_bytes` for a `u16`, a text, an `i32` and a `u32`.
/// Taken on trust: its result is the one named by [`postcard_info_v3`].
#[verifier::external_body]
pub(crate) fn decode_info_v3(bytes: &[u8]) -> (record: Option<(u16, String, i32, u32)>)
    ensures
        match record {
            Some(r) => postcard_info_v3(bytes@, usize::BITS as nat) == Some((r.0, r.1@, r.2, r.3)),
            None => postcard_info_v3(bytes@, usize::BITS as nat) is None,
        },
{
    postcard::from_bytes::<(u16, String, i32, u32)>(bytes).ok()
}

/// Calls `postcard::from_bytes` for a player. Taken on trust: its result is
/// the one named by [`postcard_player`].
#[verifier::external_body]
pub(crate) fn decode_player(bytes: &[u8]) -> (record: Option<PlayerRecord>)
    ensures
        match record {
            Some(r) => postcard_player(bytes@, usize::BITS as nat) == Some(r@),
            None => postcard_player(bytes@, usize::BITS as nat) is None,
        },
{
    match postcard::from_bytes::<PlayerWire>(bytes) {
        Ok((p, r, (slots, modified))) => Some(
            PlayerRecord {
                pos: (u32::from_le_bytes(p.0), u32::from_le_bytes(p.1), u32::from_le_bytes(p.2)),
                rotation: (u32::from_le_bytes(r.0), u32::from_le_bytes(r.1)),
                slots,
                modified,
            },
        ),
        Err(_) => None,
    }
}

/// Calls `postcard::to_allocvec` for a `u16`, a text, an `i32` and a `u32`,
/// which cannot fail when writing such a record into a growing buffer. Taken
/// on trust: the bytes are the ones named by [`postcard_info_v3_bytes`], and
/// reading them gives the record back.
#[verifier::external_body]
pub(crate) fn encode_info_v3(version: u16, name: &String, seed: i32, mode: u32) -> (bytes: Vec<u8>)
    ensures
        bytes@ == postcard_info_v3_bytes(version, name@, seed, mode),
        postcard_info_v3(bytes@, usize::BITS as nat) == Some((version, name@, seed, mode)),
{
    match postcard::to_allocvec(&(version, name, seed, mode)) {
        Ok(bytes) => bytes,
        Err(_) => Vec::new(),
    }
}

/// Calls `postcard::to_allocvec` for a player, which cannot fail when
/// writing such a record into a growing buffer. Taken on trust: the bytes
/// are the ones named by [`postcard_player_bytes`], and reading them gives
/// the record back.
#[verifier::external_body]
pub(crate) fn encode_player(record: &PlayerRecord) -> (bytes: Vec<u8>)
    ensures
        bytes@ == postcard_player_bytes(record.pos, record.rotation, record.slots@, record.modified),
        postcard_player(bytes@, usize::BITS as nat) == Some(record@),
{
    let p = record.pos;
    let r = record.rotation;
    let pos = (p.0.to_le_bytes(), p.1.to_le_bytes(), p.2.to_le_bytes());
    let rotation = (r.0.to_le_bytes(), r.1.to_le_bytes());
    match postcard::to_allocvec(&(pos, rotation, (&record.slots, record.modified))) {
        Ok(bytes) => bytes,
        Err(_) => Vec::new(),
    }
}

} // verus!
