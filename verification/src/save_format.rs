//! The byte layout that every version of the save file shares.
//!
//! A save file is a length-prefixed header record followed by the packed
//! body. The unpacked body holds a table of 64 chunk sizes, the 64 chunk
//! blobs in the order of the table, and the length-prefixed player record.
//! Every length is two bytes, most significant first.

use vstd::prelude::*;
use vstd::slice::slice_subrange;
use vstd::slice::slice_to_vec;
use crate::world_converter::vector::Vector3;

verus! {

/// Number of chunks along each axis of the world.
pub const WORLD_SIZE: isize = 4;

/// Number of chunks in a world.
pub const CHUNK_COUNT: usize = 64;

/// Number of bytes the chunk size table takes.
pub const TABLE_SIZE: usize = 128;

/// The number that two bytes spell, most significant byte first.
pub open spec fn be16(hi: u8, lo: u8) -> nat {
    (hi as nat) * 256 + (lo as nat)
}

/// The two bytes that spell the lower sixteen bits of `n`, most significant
/// byte first.
pub open spec fn be16_bytes(n: nat) -> Seq<u8> {
    seq![((n / 256) % 256) as u8, (n % 256) as u8]
}

/// Writing a length and reading it back gives its lower sixteen bits.
pub proof fn lemma_be16_round_trip(n: nat)
    ensures
        be16_bytes(n).len() == 2,
        be16(be16_bytes(n)[0], be16_bytes(n)[1]) == n % 0x1_0000,
{
}

/// The length-prefixed block that starts at `at`: its payload, and the
/// position after it. Nothing if the prefix or the payload runs past the
/// end of `data`.
pub open spec fn length_prefixed(data: Seq<u8>, at: int) -> Option<(Seq<u8>, int)> {
    if at < 0 || at + 2 > data.len() {
        None
    } else {
        let size = be16(data[at], data[at + 1]);
        if at + 2 + size > data.len() {
            None
        } else {
            Some((data.subrange(at + 2, at + 2 + size), at + 2 + size))
        }
    }
}

/// Reads the two-byte length at `at`, if both bytes are there.
pub fn read_be16(data: &[u8], at: usize) -> (length: Option<usize>)
    ensures
        length is Some <==> at + 2 <= data@.len(),
        length matches Some(n) ==> n == be16(data@[at as int], data@[at + 1]) && n <= 0xFFFF,
{
    if data.len() < 2 || at > data.len() - 2 {
        None
    } else {
        Some((data[at] as usize) * 256 + (data[at + 1] as usize))
    }
}

/// Appends the lower sixteen bits of `n` as a two-byte length.
pub fn push_be16(out: &mut Vec<u8>, n: usize)
    ensures
        final(out)@ == old(out)@ + be16_bytes(n as nat),
{
    out.push(((n / 256) % 256) as u8);
    out.push((n % 256) as u8);
    assert(out@ =~= old(out)@ + be16_bytes(n as nat));
}

/// Finds the length-prefixed block that starts at `at`: where its payload
/// starts and where it ends.
pub fn take_length_prefixed(data: &[u8], at: usize) -> (found: Option<(usize, usize)>)
    ensures
        match found {
            Some((start, end)) => start == at + 2 && start <= end <= data@.len() && length_prefixed(
                data@,
                at as int,
            ) == Some((data@.subrange(start as int, end as int), end as int)),
            None => length_prefixed(data@, at as int) is None,
        },
{
    let size = match read_be16(data, at) {
        Some(size) => size,
        None => {
            return None;
        },
    };
    if size > data.len() - 2 - at {
        return None;
    }
    Some((at + 2, at + 2 + size))
}

/// Whether (`x`, `y`, `z`) is the position of a chunk of the world.
pub open spec fn in_world(x: int, y: int, z: int) -> bool {
    0 <= x < 4 && 0 <= y < 4 && 0 <= z < 4
}

/// Where the chunk at (`x`, `y`, `z`) stands in the save file's list of
/// chunks.
pub open spec fn chunk_index(x: int, y: int, z: int) -> int {
    x + y * 4 + z * 16
}

/// In the world every chunk position has an index below 64, from which the
/// position is read back: no two positions share an index.
pub proof fn lemma_chunk_index_unique(x: int, y: int, z: int)
    requires
        in_world(x, y, z),
    ensures
        0 <= chunk_index(x, y, z) < 64,
        chunk_index(x, y, z) % 4 == x,
        (chunk_index(x, y, z) / 4) % 4 == y,
        chunk_index(x, y, z) / 16 == z,
{
    let i = x + y * 4 + z * 16;
    assert(i / 4 == y + z * 4);
}

/// Whether (`x`, `y`, `z`) is the position of a block inside its chunk.
pub open spec fn in_chunk(x: int, y: int, z: int) -> bool {
    0 <= x < 8 && 0 <= y < 8 && 0 <= z < 8
}

/// Where the block at (`x`, `y`, `z`) stands in a chunk's list of blocks.
pub open spec fn block_index(x: int, y: int, z: int) -> int {
    x + y * 8 + z * 64
}

/// In a chunk every block position has an index below 512, from which the
/// position is read back: no two positions share an index.
pub proof fn lemma_block_index_unique(x: int, y: int, z: int)
    requires
        in_chunk(x, y, z),
    ensures
        0 <= block_index(x, y, z) < 512,
        block_index(x, y, z) % 8 == x,
        (block_index(x, y, z) / 8) % 8 == y,
        block_index(x, y, z) / 64 == z,
{
    let i = x + y * 8 + z * 64;
    assert(i / 8 == y + z * 8);
}

/// The index of the chunk at `pos`, if `pos` is inside the world.
pub fn linear_index(pos: &Vector3<isize>) -> (index: Option<usize>)
    ensures
        index is Some <==> in_world(pos.x as int, pos.y as int, pos.z as int),
        index is Some ==> index->0 == chunk_index(pos.x as int, pos.y as int, pos.z as int),
{
    if pos.x < 0 || pos.x >= WORLD_SIZE || pos.y < 0 || pos.y >= WORLD_SIZE || pos.z < 0 || pos.z
        >= WORLD_SIZE {
        None
    } else {
        Some((pos.x + pos.y * 4 + pos.z * 16) as usize)
    }
}

/// The packed chunks of a world: always 64 blobs, reached by index.
pub struct ChunkStore {
    blobs: Vec<Vec<u8>>,
}

impl ChunkStore {
    #[verifier::type_invariant]
    spec fn holds_every_chunk(self) -> bool {
        self.blobs@.len() == 64
    }

    /// The blobs, in the order of the save file.
    pub closed spec fn view(&self) -> Seq<Seq<u8>> {
        self.blobs@.map_values(|blob: Vec<u8>| blob@)
    }

    /// 64 empty blobs.
    pub fn new() -> (store: Self)
        ensures
            store@.len() == 64,
            forall|i: int| 0 <= i < 64 ==> store@[i] == Seq::<u8>::empty(),
    {
        let mut blobs: Vec<Vec<u8>> = Vec::new();
        let mut i: usize = 0;
        while i < CHUNK_COUNT
            invariant
                i <= 64,
                blobs@.len() == i,
                forall|j: int| 0 <= j < i ==> blobs@[j]@ == Seq::<u8>::empty(),
            decreases 64 - i,
        {
            blobs.push(Vec::new());
            i += 1;
        }
        ChunkStore { blobs }
    }

    /// The number of blobs, which is always 64.
    pub fn len(&self) -> (n: usize)
        ensures
            n == 64,
            self@.len() == 64,
    {
        proof {
            use_type_invariant(self);
        }
        self.blobs.len()
    }

    /// The blob at `index`, if `index` is below 64.
    pub fn get(&self, index: usize) -> (blob: Option<&Vec<u8>>)
        ensures
            self@.len() == 64,
            blob is Some <==> index < 64,
            blob is Some ==> blob->0@ == self@[index as int],
    {
        proof {
            use_type_invariant(self);
        }
        if index < self.blobs.len() {
            Some(&self.blobs[index])
        } else {
            None
        }
    }

    /// Replaces the blob at `index`, if `index` is below 64.
    pub fn set(&mut self, index: usize, blob: Vec<u8>) -> (stored: bool)
        ensures
            stored == (index < 64),
            stored ==> final(self)@ == old(self)@.update(index as int, blob@),
            !stored ==> *final(self) == *old(self),
            old(self)@.len() == 64,
            final(self)@.len() == 64,
    {
        proof {
            use_type_invariant(&*self);
        }
        if index < self.blobs.len() {
            self.blobs[index] = blob;
            assert(self@ =~= old(self)@.update(index as int, blob@));
            true
        } else {
            false
        }
    }

    /// Empties every blob.
    pub fn clear(&mut self)
        ensures
            final(self)@.len() == 64,
            forall|i: int| 0 <= i < 64 ==> final(self)@[i] == Seq::<u8>::empty(),
    {
        proof {
            use_type_invariant(&*self);
        }
        let mut i: usize = 0;
        while i < self.blobs.len()
            invariant
                i <= 64,
                self.blobs@.len() == 64,
                forall|j: int| 0 <= j < i ==> self.blobs@[j]@ == Seq::<u8>::empty(),
            decreases 64 - i,
        {
            self.blobs[i] = Vec::new();
            i += 1;
        }
    }
}

/// The size that the table of `body` gives for chunk `i`.
pub open spec fn chunk_size(body: Seq<u8>, i: int) -> nat {
    be16(body[2 * i], body[2 * i + 1])
}

/// Where the blob of chunk `i` starts in `body`: behind the table and the
/// blobs of the chunks before it.
pub open spec fn chunk_start(body: Seq<u8>, i: nat) -> nat
    decreases i,
{
    if i == 0 {
        128
    } else {
        chunk_start(body, (i - 1) as nat) + chunk_size(body, i - 1)
    }
}

/// The 64 chunk blobs and the player record that an unpacked body holds.
/// Nothing if the table, a blob or the player record runs past the end.
pub open spec fn parse_body(body: Seq<u8>) -> Option<(Seq<Seq<u8>>, Seq<u8>)> {
    if body.len() < 128 || chunk_start(body, 64) > body.len() {
        None
    } else {
        match length_prefixed(body, chunk_start(body, 64) as int) {
            Some((player, _)) => Some(
                (
                    Seq::new(
                        64,
                        |i: int|
                            body.subrange(
                                chunk_start(body, i as nat) as int,
                                chunk_start(body, (i + 1) as nat) as int,
                            ),
                    ),
                    player,
                ),
            ),
            None => None,
        }
    }
}

/// The size table for the first `upto` blobs: two bytes for each, holding
/// the lower sixteen bits of its length.
pub open spec fn size_table(blobs: Seq<Seq<u8>>, upto: nat) -> Seq<u8>
    decreases upto,
{
    if upto == 0 {
        Seq::empty()
    } else {
        size_table(blobs, (upto - 1) as nat) + be16_bytes(blobs[upto - 1].len())
    }
}

/// The first `upto` blobs, one behind the other.
pub open spec fn joined(blobs: Seq<Seq<u8>>, upto: nat) -> Seq<u8>
    decreases upto,
{
    if upto == 0 {
        Seq::empty()
    } else {
        joined(blobs, (upto - 1) as nat) + blobs[upto - 1]
    }
}

/// The unpacked body for the given blobs and player record.
pub open spec fn body_bytes(blobs: Seq<Seq<u8>>, player: Seq<u8>) -> Seq<u8> {
    size_table(blobs, blobs.len()) + joined(blobs, blobs.len()) + be16_bytes(player.len()) + player
}

/// Whether there are 64 blobs, and the length of each fits the two bytes
/// that store it.
pub open spec fn blobs_fit(blobs: Seq<Seq<u8>>) -> bool {
    &&& blobs.len() == 64
    &&& forall|i: int| 0 <= i < 64 ==> (#[trigger] blobs[i]).len() <= 0xFFFF
}

/// Whether every length of the body fits the two bytes that store it.
pub open spec fn lengths_fit(blobs: Seq<Seq<u8>>, player: Seq<u8>) -> bool {
    &&& blobs_fit(blobs)
    &&& player.len() <= 0xFFFF
}

proof fn lemma_chunk_start_grows(body: Seq<u8>, i: nat, j: nat)
    requires
        i <= j,
    ensures
        chunk_start(body, i) <= chunk_start(body, j),
    decreases j,
{
    if i < j {
        lemma_chunk_start_grows(body, i, (j - 1) as nat);
    }
}

proof fn lemma_size_table(blobs: Seq<Seq<u8>>, upto: nat, i: int)
    requires
        0 <= i < upto <= blobs.len(),
    ensures
        size_table(blobs, upto).len() == 2 * upto,
        size_table(blobs, upto)[2 * i] == be16_bytes(blobs[i].len())[0],
        size_table(blobs, upto)[2 * i + 1] == be16_bytes(blobs[i].len())[1],
    decreases upto,
{
    lemma_size_table_len(blobs, upto);
    lemma_size_table_len(blobs, (upto - 1) as nat);
    if i < upto - 1 {
        lemma_size_table(blobs, (upto - 1) as nat, i);
    }
}

proof fn lemma_size_table_len(blobs: Seq<Seq<u8>>, upto: nat)
    ensures
        size_table(blobs, upto).len() == 2 * upto,
    decreases upto,
{
    if upto > 0 {
        lemma_size_table_len(blobs, (upto - 1) as nat);
    }
}

proof fn lemma_joined_grows(blobs: Seq<Seq<u8>>, i: nat, j: nat)
    requires
        i <= j,
    ensures
        joined(blobs, i).len() <= joined(blobs, j).len(),
    decreases j,
{
    if i < j {
        lemma_joined_grows(blobs, i, (j - 1) as nat);
    }
}

proof fn lemma_joined_holds_blob(blobs: Seq<Seq<u8>>, upto: nat, i: int)
    requires
        0 <= i < upto <= blobs.len(),
    ensures
        joined(blobs, (i + 1) as nat).len() == joined(blobs, i as nat).len() + blobs[i].len(),
        joined(blobs, (i + 1) as nat).len() <= joined(blobs, upto).len(),
        joined(blobs, upto).subrange(
            joined(blobs, i as nat).len() as int,
            joined(blobs, (i + 1) as nat).len() as int,
        ) == blobs[i],
    decreases upto,
{
    lemma_joined_grows(blobs, (i + 1) as nat, upto);
    let whole = joined(blobs, upto);
    let front = joined(blobs, (upto - 1) as nat);
    let from = joined(blobs, i as nat).len() as int;
    let to = joined(blobs, (i + 1) as nat).len() as int;
    if i == upto - 1 {
        assert(whole.subrange(from, to) =~= blobs[i]);
    } else {
        lemma_joined_holds_blob(blobs, (upto - 1) as nat, i);
        assert(whole.subrange(from, to) =~= front.subrange(from, to));
    }
}

proof fn lemma_built_chunk_start(blobs: Seq<Seq<u8>>, player: Seq<u8>, i: nat)
    requires
        lengths_fit(blobs, player),
        i <= 64,
    ensures
        chunk_start(body_bytes(blobs, player), i) == 128 + joined(blobs, i).len(),
        128 + joined(blobs, i).len() <= 128 + joined(blobs, 64).len(),
    decreases i,
{
    lemma_joined_grows(blobs, i, 64);
    if i > 0 {
        let body = body_bytes(blobs, player);
        lemma_built_chunk_start(blobs, player, (i - 1) as nat);
        lemma_size_table(blobs, 64, i - 1);
        lemma_be16_round_trip(blobs[i - 1].len());
        assert(body[2 * (i - 1)] == size_table(blobs, 64)[2 * (i - 1)]);
        assert(body[2 * (i - 1) + 1] == size_table(blobs, 64)[2 * (i - 1) + 1]);
        assert(chunk_size(body, i - 1) == blobs[i - 1].len());
    }
}

proof fn lemma_joined_bound(blobs: Seq<Seq<u8>>, upto: nat)
    requires
        upto <= blobs.len(),
        forall|i: int| 0 <= i < blobs.len() ==> (#[trigger] blobs[i]).len() <= 0xFFFF,
    ensures
        joined(blobs, upto).len() <= upto * 0xFFFF,
    decreases upto,
{
    if upto > 0 {
        lemma_joined_bound(blobs, (upto - 1) as nat);
    }
}

/// A body whose lengths fit is short enough for the packer to record its
/// size.
pub proof fn lemma_body_size(blobs: Seq<Seq<u8>>, player: Seq<u8>)
    requires
        lengths_fit(blobs, player),
    ensures
        body_bytes(blobs, player).len() <= u32::MAX,
{
    lemma_size_table_len(blobs, 64);
    lemma_joined_bound(blobs, 64);
}

/// A body that was built is parsed back into the blobs and the player
/// record it was built from, as long as every length fits its two bytes.
pub proof fn lemma_body_round_trip(blobs: Seq<Seq<u8>>, player: Seq<u8>)
    requires
        lengths_fit(blobs, player),
    ensures
        parse_body(body_bytes(blobs, player)) == Some((blobs, player)),
{
    let body = body_bytes(blobs, player);
    let table = size_table(blobs, 64);
    let all = joined(blobs, 64);
    lemma_size_table_len(blobs, 64);
    lemma_built_chunk_start(blobs, player, 64);
    let at: int = 128 + all.len() as int;
    lemma_be16_round_trip(player.len());
    assert(body.len() == at + 2 + player.len());
    assert(body[at] == be16_bytes(player.len())[0]);
    assert(body[at + 1] == be16_bytes(player.len())[1]);
    assert(body.subrange(at + 2, at + 2 + player.len()) =~= player);
    let parsed = Seq::new(
        64,
        |i: int|
            body.subrange(
                chunk_start(body, i as nat) as int,
                chunk_start(body, (i + 1) as nat) as int,
            ),
    );
    assert forall|i: int| 0 <= i < 64 implies parsed[i] == blobs[i] by {
        lemma_built_chunk_start(blobs, player, i as nat);
        lemma_built_chunk_start(blobs, player, (i + 1) as nat);
        lemma_joined_holds_blob(blobs, 64, i);
        let from = joined(blobs, i as nat).len() as int;
        let to = joined(blobs, (i + 1) as nat).len() as int;
        assert(body.subrange(128 + from, 128 + to) =~= all.subrange(from, to));
    }
    assert(parsed =~= blobs);
}

/// Whatever a body is parsed into can be written again: every length of
/// it fits its two bytes.
pub proof fn lemma_parsed_lengths_fit(body: Seq<u8>)
    ensures
        parse_body(body) matches Some((blobs, player)) ==> lengths_fit(blobs, player),
{
    if let Some((blobs, player)) = parse_body(body) {
        assert forall|i: int| 0 <= i < 64 implies (#[trigger] blobs[i]).len() <= 0xFFFF by {
            lemma_chunk_start_grows(body, (i + 1) as nat, 64);
        }
    }
}

/// Splits an unpacked body into the chunk blobs and the player record.
pub fn split_body(body: &[u8]) -> (parts: Option<(ChunkStore, Vec<u8>)>)
    ensures
        match parts {
            Some((store, player)) => parse_body(body@) == Some((store@, player@)),
            None => parse_body(body@) is None,
        },
{
    if body.len() < TABLE_SIZE {
        return None;
    }
    let mut blobs: Vec<Vec<u8>> = Vec::new();
    let mut current: usize = TABLE_SIZE;
    let mut i: usize = 0;
    while i < CHUNK_COUNT
        invariant
            i <= 64,
            128 <= current <= body@.len(),
            current == chunk_start(body@, i as nat),
            blobs@.len() == i,
            forall|j: int|
                0 <= j < i ==> (#[trigger] blobs@[j])@ == body@.subrange(
                    chunk_start(body@, j as nat) as int,
                    chunk_start(body@, (j + 1) as nat) as int,
                ),
        decreases 64 - i,
    {
        let size = match read_be16(body, 2 * i) {
            Some(size) => size,
            None => {
                return None;
            },
        };
        if size > body.len() - current {
            proof {
                lemma_chunk_start_grows(body@, (i + 1) as nat, 64);
            }
            return None;
        }
        let blob = slice_to_vec(slice_subrange(body, current, current + size));
        blobs.push(blob);
        current += size;
        i += 1;
    }
    match take_length_prefixed(body, current) {
        Some((start, end)) => {
            let player = slice_to_vec(slice_subrange(body, start, end));
            let store = ChunkStore { blobs };
            proof {
                let parsed = parse_body(body@).unwrap();
                assert(store@ =~= parsed.0);
            }
            Some((store, player))
        },
        None => None,
    }
}

/// Builds the unpacked body for the given chunk blobs and player record.
pub fn build_body(store: &ChunkStore, player: &Vec<u8>) -> (body: Vec<u8>)
    ensures
        body@ == body_bytes(store@, player@),
{
    proof {
        use_type_invariant(store);
    }
    let mut body: Vec<u8> = Vec::new();
    let mut i: usize = 0;
    while i < store.blobs.len()
        invariant
            i <= store.blobs@.len(),
            store@.len() == store.blobs@.len(),
            forall|j: int| 0 <= j < store.blobs@.len() ==> store@[j] == (#[trigger] store.blobs@[j])@,
            body@ == size_table(store@, i as nat),
        decreases store.blobs@.len() - i,
    {
        push_be16(&mut body, store.blobs[i].len());
        i += 1;
    }
    let mut k: usize = 0;
    while k < store.blobs.len()
        invariant
            k <= store.blobs@.len(),
            store@.len() == store.blobs@.len(),
            forall|j: int| 0 <= j < store.blobs@.len() ==> store@[j] == (#[trigger] store.blobs@[j])@,
            body@ == size_table(store@, store@.len()) + joined(store@, k as nat),
        decreases store.blobs@.len() - k,
    {
        let ghost before = body@;
        body.extend_from_slice(store.blobs[k].as_slice());
        assert(body@ =~= before + store@[k as int]);
        k += 1;
    }
    push_be16(&mut body, player.len());
    let ghost before = body@;
    body.extend_from_slice(player.as_slice());
    assert(body@ =~= before + player@);
    body
}

} // verus!
