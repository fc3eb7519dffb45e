//! Cross-dimension networking: byte codecs for player dimensions and ghost
//! positions, cross-dimension chat messages with distortion, and trades
//! through weak points.

use crate::dimension::{ChunkPos, Dimension};
use vstd::prelude::*;

verus! {

/// The byte that stands for a dimension on the wire.
pub open spec fn dimension_code(dim: Dimension) -> u8 {
    match dim {
        Dimension::Prime => 0,
        Dimension::Inverted => 1,
        Dimension::Void => 2,
        Dimension::Nexus => 3,
    }
}

/// The dimension that a byte stands for, if any.
pub open spec fn code_dimension(b: u8) -> Option<Dimension> {
    if b == 0 {
        Some(Dimension::Prime)
    } else if b == 1 {
        Some(Dimension::Inverted)
    } else if b == 2 {
        Some(Dimension::Void)
    } else if b == 3 {
        Some(Dimension::Nexus)
    } else {
        None
    }
}

/// Convert a Dimension to its u8 representation.
pub fn dimension_to_u8(dim: Dimension) -> (b: u8)
    ensures
        b == dimension_code(dim),
{
    match dim {
        Dimension::Prime => 0,
        Dimension::Inverted => 1,
        Dimension::Void => 2,
        Dimension::Nexus => 3,
    }
}

/// Convert a u8 to a Dimension, returning None for invalid values.
pub fn u8_to_dimension(value: u8) -> (d: Option<Dimension>)
    ensures
        d == code_dimension(value),
{
    match value {
        0 => Some(Dimension::Prime),
        1 => Some(Dimension::Inverted),
        2 => Some(Dimension::Void),
        3 => Some(Dimension::Nexus),
        _ => None,
    }
}

/// Every dimension survives the trip through its byte.
pub proof fn lemma_dimension_code_roundtrip(dim: Dimension)
    ensures
        code_dimension(dimension_code(dim)) == Some(dim),
{
}

/// The 8 big-endian bytes of a `u64`.
pub open spec fn u64_be(x: u64) -> Seq<u8> {
    seq![
        (x >> 56u64) as u8,
        (x >> 48u64) as u8,
        (x >> 40u64) as u8,
        (x >> 32u64) as u8,
        (x >> 24u64) as u8,
        (x >> 16u64) as u8,
        (x >> 8u64) as u8,
        x as u8,
    ]
}

/// The `u64` whose big-endian bytes are `b[0..8]`.
pub open spec fn be_u64(b: Seq<u8>) -> u64 {
    ((b[0] as u64) << 56u64) | ((b[1] as u64) << 48u64) | ((b[2] as u64) << 40u64) | ((b[3] as u64)
        << 32u64) | ((b[4] as u64) << 24u64) | ((b[5] as u64) << 16u64) | ((b[6] as u64) << 8u64) | (
    b[7] as u64)
}

/// The 4 big-endian bytes of an `i32` (two's complement).
pub open spec fn i32_be(v: i32) -> Seq<u8> {
    let x = v as u32;
    seq![(x >> 24u32) as u8, (x >> 16u32) as u8, (x >> 8u32) as u8, x as u8]
}

/// The `i32` whose big-endian bytes are `b[0..4]`.
pub open spec fn be_i32(b: Seq<u8>) -> i32 {
    (((b[0] as u32) << 24u32) | ((b[1] as u32) << 16u32) | ((b[2] as u32) << 8u32) | (b[3] as u32)) as i32
}

/// Reading back the big-endian bytes of a `u64` gives the number.
pub proof fn lemma_u64_be_roundtrip(x: u64)
    ensures
        be_u64(u64_be(x)) == x,
{
    assert(((((x >> 56u64) as u8) as u64) << 56u64) | ((((x >> 48u64) as u8) as u64) << 48u64) | ((((x
        >> 40u64) as u8) as u64) << 40u64) | ((((x >> 32u64) as u8) as u64) << 32u64) | ((((x >> 24u64)
        as u8) as u64) << 24u64) | ((((x >> 16u64) as u8) as u64) << 16u64) | ((((x >> 8u64) as u8)
        as u64) << 8u64) | ((x as u8) as u64) == x) by (bit_vector);
}

/// Reading back the big-endian bytes of an `i32` gives the number.
pub proof fn lemma_i32_be_roundtrip(v: i32)
    ensures
        be_i32(i32_be(v)) == v,
{
    assert((((((v as u32) >> 24u32) as u8) as u32) << 24u32 | ((((v as u32) >> 16u32) as u8) as u32)
        << 16u32 | ((((v as u32) >> 8u32) as u8) as u32) << 8u32 | (((v as u32) as u8) as u32)) as i32
        == v) by (bit_vector);
}

fn push_u64_be(data: &mut Vec<u8>, x: u64)
    ensures
        final(data)@ == old(data)@ + u64_be(x),
{
    data.push((x >> 56u64) as u8);
    data.push((x >> 48u64) as u8);
    data.push((x >> 40u64) as u8);
    data.push((x >> 32u64) as u8);
    data.push((x >> 24u64) as u8);
    data.push((x >> 16u64) as u8);
    data.push((x >> 8u64) as u8);
    data.push(x as u8);
    assert(data@ =~= old(data)@ + u64_be(x));
}

fn push_i32_be(data: &mut Vec<u8>, v: i32)
    ensures
        final(data)@ == old(data)@ + i32_be(v),
{
    let x = v as u32;
    data.push((x >> 24u32) as u8);
    data.push((x >> 16u32) as u8);
    data.push((x >> 8u32) as u8);
    data.push(x as u8);
    assert(data@ =~= old(data)@ + i32_be(v));
}

fn read_u64_be(data: &[u8], off: usize) -> (x: u64)
    requires
        off + 8 <= data@.len(),
    ensures
        x == be_u64(data@.subrange(off as int, off + 8)),
{
    ((data[off] as u64) << 56u64) | ((data[off + 1] as u64) << 48u64) | ((data[off + 2] as u64)
        << 40u64) | ((data[off + 3] as u64) << 32u64) | ((data[off + 4] as u64) << 24u64) | ((data[off
        + 5] as u64) << 16u64) | ((data[off + 6] as u64) << 8u64) | (data[off + 7] as u64)
}

fn read_i32_be(data: &[u8], off: usize) -> (v: i32)
    requires
        off + 4 <= data@.len(),
    ensures
        v == be_i32(data@.subrange(off as int, off + 4)),
{
    (((data[off] as u32) << 24u32) | ((data[off + 1] as u32) << 16u32) | ((data[off + 2] as u32)
        << 8u32) | (data[off + 3] as u32)) as i32
}

/// The 9-byte message of a player's dimension: the id as 8 big-endian bytes,
/// then the dimension's byte.
pub open spec fn player_dimension_bytes(player_id: u64, dim: Dimension) -> Seq<u8> {
    u64_be(player_id).push(dimension_code(dim))
}

/// What a player-dimension message decodes to: nothing when it is shorter
/// than 9 bytes or its 9th byte stands for no dimension, else the id of its
/// first 8 bytes and the dimension of its 9th. Bytes after the 9th are ignored.
pub open spec fn decode_player_dimension(data: Seq<u8>) -> Option<(u64, Dimension)> {
    if data.len() < 9 {
        None
    } else {
        match code_dimension(data[8]) {
            Some(d) => Some((be_u64(data.subrange(0, 8)), d)),
            None => None,
        }
    }
}

/// The bytes of one ghost entry: id (8 bytes), x, y, z (4 bytes each), dimension.
pub open spec fn ghost_entry_bytes(e: (u64, ChunkPos, Dimension)) -> Seq<u8> {
    u64_be(e.0) + i32_be(e.1.x) + i32_be(e.1.y) + i32_be(e.1.z) + seq![dimension_code(e.2)]
}

/// The entries' bytes, one after the other.
pub open spec fn ghost_entries_bytes(ps: Seq<(u64, ChunkPos, Dimension)>) -> Seq<u8>
    decreases ps.len(),
{
    if ps.len() == 0 {
        Seq::empty()
    } else {
        ghost_entries_bytes(ps.drop_last()) + ghost_entry_bytes(ps.last())
    }
}

/// How many entries a ghost-position message holds: at most 255.
pub open spec fn ghost_count(n: int) -> int {
    if n < 255 {
        n
    } else {
        255
    }
}

/// The ghost-position message: the count of entries as one byte, then the
/// entries of the first `count` players.
pub open spec fn ghost_positions_bytes(ps: Seq<(u64, ChunkPos, Dimension)>) -> Seq<u8> {
    seq![ghost_count(ps.len() as int) as u8] + ghost_entries_bytes(ps.take(ghost_count(ps.len() as int)))
}

/// The entry that the 21 bytes at `off` decode to, whatever their dimension byte.
pub open spec fn decode_ghost_entry_at(data: Seq<u8>, off: int) -> (u64, ChunkPos, Dimension) {
    (
        be_u64(data.subrange(off, off + 8)),
        ChunkPos {
            x: be_i32(data.subrange(off + 8, off + 12)),
            y: be_i32(data.subrange(off + 12, off + 16)),
            z: be_i32(data.subrange(off + 16, off + 20)),
        },
        code_dimension(data[off + 20]).unwrap(),
    )
}

/// The decoded entries among the first `n` entries of a ghost-position message,
/// in order; an entry whose dimension byte stands for no dimension is skipped.
pub open spec fn decode_ghost_entries(data: Seq<u8>, n: int) -> Seq<(u64, ChunkPos, Dimension)>
    decreases n,
{
    if n <= 0 {
        Seq::empty()
    } else {
        let off = 1 + 21 * (n - 1);
        let rest = decode_ghost_entries(data, n - 1);
        if code_dimension(data[off + 20]) is Some {
            rest.push(decode_ghost_entry_at(data, off))
        } else {
            rest
        }
    }
}

/// What a ghost-position message decodes to: nothing when it is empty or
/// shorter than its count byte says, else its decoded entries.
pub open spec fn decode_ghost_positions(data: Seq<u8>) -> Seq<(u64, ChunkPos, Dimension)> {
    if data.len() == 0 {
        Seq::empty()
    } else if data.len() < 1 + 21 * (data[0] as int) {
        Seq::empty()
    } else {
        decode_ghost_entries(data, data[0] as int)
    }
}

/// Decoding a player-dimension message gives back the id and dimension that
/// were encoded.
pub proof fn lemma_player_dimension_roundtrip(player_id: u64, dim: Dimension)
    ensures
        decode_player_dimension(player_dimension_bytes(player_id, dim)) == Some((player_id, dim)),
{
    let b = player_dimension_bytes(player_id, dim);
    assert(b.subrange(0, 8) =~= u64_be(player_id));
    lemma_u64_be_roundtrip(player_id);
}

proof fn lemma_ghost_entries_bytes(ps: Seq<(u64, ChunkPos, Dimension)>)
    ensures
        ghost_entries_bytes(ps).len() == 21 * ps.len(),
        forall|k: int| 0 <= k < ps.len() ==> #[trigger] ghost_entries_bytes(ps).subrange(21 * k, 21 * k + 21)
            == ghost_entry_bytes(ps[k]),
    decreases ps.len(),
{
    if ps.len() > 0 {
        let init = ps.drop_last();
        lemma_ghost_entries_bytes(init);
        let whole = ghost_entries_bytes(ps);
        let head = ghost_entries_bytes(init);
        assert(ghost_entry_bytes(ps.last()).len() == 21);
        assert forall|k: int| 0 <= k < ps.len() implies #[trigger] whole.subrange(21 * k, 21 * k + 21)
            == ghost_entry_bytes(ps[k]) by {
            if k < ps.len() - 1 {
                assert(whole.subrange(21 * k, 21 * k + 21) =~= head.subrange(21 * k, 21 * k + 21));
                assert(init[k] == ps[k]);
            } else {
                assert(whole.subrange(21 * k, 21 * k + 21) =~= ghost_entry_bytes(ps.last()));
            }
        }
    }
}

proof fn lemma_decode_entry(e: (u64, ChunkPos, Dimension), data: Seq<u8>, off: int)
    requires
        0 <= off,
        off + 21 <= data.len(),
        data.subrange(off, off + 21) == ghost_entry_bytes(e),
    ensures
        code_dimension(data[off + 20]) is Some,
        decode_ghost_entry_at(data, off) == e,
{
    let b = ghost_entry_bytes(e);
    assert(data[off + 20] == b[20]);
    assert(data.subrange(off, off + 8) =~= u64_be(e.0)) by {
        assert forall|j: int| 0 <= j < 8 implies data.subrange(off, off + 8)[j] == u64_be(e.0)[j] by {
            assert(data[off + j] == b[j]);
        }
    }
    assert(data.subrange(off + 8, off + 12) =~= i32_be(e.1.x)) by {
        assert forall|j: int| 0 <= j < 4 implies data.subrange(off + 8, off + 12)[j] == i32_be(e.1.x)[j] by {
            assert(data[off + 8 + j] == b[8 + j]);
        }
    }
    assert(data.subrange(off + 12, off + 16) =~= i32_be(e.1.y)) by {
        assert forall|j: int| 0 <= j < 4 implies data.subrange(off + 12, off + 16)[j] == i32_be(e.1.y)[j] by {
            assert(data[off + 12 + j] == b[12 + j]);
        }
    }
    assert(data.subrange(off + 16, off + 20) =~= i32_be(e.1.z)) by {
        assert forall|j: int| 0 <= j < 4 implies data.subrange(off + 16, off + 20)[j] == i32_be(e.1.z)[j] by {
            assert(data[off + 16 + j] == b[16 + j]);
        }
    }
    lemma_u64_be_roundtrip(e.0);
    lemma_i32_be_roundtrip(e.1.x);
    lemma_i32_be_roundtrip(e.1.y);
    lemma_i32_be_roundtrip(e.1.z);
    lemma_dimension_code_roundtrip(e.2);
}

/// Decoding a ghost-position message gives back the encoded players: all of
/// them when there are at most 255, else the first 255.
pub proof fn lemma_ghost_positions_roundtrip(ps: Seq<(u64, ChunkPos, Dimension)>)
    ensures
        decode_ghost_positions(ghost_positions_bytes(ps)) == ps.take(ghost_count(ps.len() as int)),
{
    let n = ghost_count(ps.len() as int);
    let qs = ps.take(n);
    let data = ghost_positions_bytes(ps);
    lemma_ghost_entries_bytes(qs);
    assert(data[0] as int == n);
    assert forall|k: int| 0 <= k <= n implies #[trigger] decode_ghost_entries(data, k) == qs.take(k) by {
        lemma_decode_prefix(data, qs, k);
    }
    assert(qs.take(n) =~= qs);
}

proof fn lemma_decode_prefix(data: Seq<u8>, qs: Seq<(u64, ChunkPos, Dimension)>, k: int)
    requires
        0 <= k <= qs.len(),
        data == seq![qs.len() as u8] + ghost_entries_bytes(qs),
        ghost_entries_bytes(qs).len() == 21 * qs.len(),
        forall|j: int| 0 <= j < qs.len() ==> #[trigger] ghost_entries_bytes(qs).subrange(21 * j, 21 * j + 21)
            == ghost_entry_bytes(qs[j]),
    ensures
        decode_ghost_entries(data, k) == qs.take(k),
    decreases k,
{
    if k > 0 {
        lemma_decode_prefix(data, qs, k - 1);
        let off = 1 + 21 * (k - 1);
        let body = ghost_entries_bytes(qs);
        assert(data.subrange(off, off + 21) =~= body.subrange(21 * (k - 1), 21 * (k - 1) + 21));
        lemma_decode_entry(qs[k - 1], data, off);
        assert(qs.take(k) =~= qs.take(k - 1).push(qs[k - 1]));
    } else {
        assert(qs.take(0) =~= Seq::<(u64, ChunkPos, Dimension)>::empty());
    }
}

/// Cross-dimension synchronization handler.
///
/// Provides serialization and deserialization for player dimension states
/// and ghost positions when players are in different dimensions.
#[derive(Clone, Copy, Debug, Default)]
pub struct CrossDimensionSync;

impl CrossDimensionSync {
    /// Create a new cross-dimension sync handler.
    pub fn new() -> (s: CrossDimensionSync)
        ensures
            s == CrossDimensionSync,
    {
        CrossDimensionSync
    }

    /// Serialize a player's dimension for network transmission.
    ///
    /// Format: [player_id as 8 bytes BE] [dim as u8]
    pub fn serialize_player_dimension(&self, player_id: u64, dim: Dimension) -> (data: Vec<u8>)
        ensures
            data@ == player_dimension_bytes(player_id, dim),
    {
        let mut data: Vec<u8> = Vec::new();
        push_u64_be(&mut data, player_id);
        data.push(dimension_to_u8(dim));
        assert(data@ =~= player_dimension_bytes(player_id, dim));
        data
    }

    /// Deserialize a player's dimension from network data.
    ///
    /// Returns None if data is too short or contains an invalid dimension.
    pub fn deserialize_player_dimension(&self, data: &[u8]) -> (r: Option<(u64, Dimension)>)
        ensures
            r == decode_player_dimension(data@),
    {
        if data.len() < 9 {
            return None;
        }
        let player_id = read_u64_be(data, 0);
        match u8_to_dimension(data[8]) {
            Some(dim) => Some((player_id, dim)),
            None => None,
        }
    }

    /// Serialize ghost positions for players in different dimensions.
    ///
    /// Format: [count as u8] [for each: player_id 8B, x 4B, y 4B, z 4B, dim 1B].
    /// At most 255 players are written; the rest are left out.
    pub fn serialize_ghost_positions(&self, players: &[(u64, ChunkPos, Dimension)]) -> (data: Vec<u8>)
        ensures
            data@ == ghost_positions_bytes(players@),
    {
        let count: usize = if players.len() < 255 { players.len() } else { 255 };
        let mut data: Vec<u8> = Vec::new();
        data.push(count as u8);
        let ghost ps = players@;
        let mut i: usize = 0;
        while i < count
            invariant
                0 <= i <= count,
                count == ghost_count(ps.len() as int),
                ps == players@,
                data@ == seq![count as u8] + ghost_entries_bytes(ps.take(i as int)),
            decreases count - i,
        {
            let (player_id, pos, dim) = players[i];
            push_u64_be(&mut data, player_id);
            push_i32_be(&mut data, pos.x);
            push_i32_be(&mut data, pos.y);
            push_i32_be(&mut data, pos.z);
            data.push(dimension_to_u8(dim));
            proof {
                assert(ps.take(i + 1).drop_last() =~= ps.take(i as int));
                assert(ps.take(i + 1).last() == ps[i as int]);
                assert(data@ =~= seq![count as u8] + ghost_entries_bytes(ps.take(i + 1)));
            }
            i += 1;
        }
        data
    }

    /// Deserialize ghost positions from network data.
    ///
    /// Returns an empty vector if the data is empty or shorter than its count
    /// byte announces; entries with an invalid dimension byte are skipped.
    pub fn deserialize_ghost_positions(&self, data: &[u8]) -> (r: Vec<(u64, ChunkPos, Dimension)>)
        ensures
            r@ == decode_ghost_positions(data@),
    {
        let mut result: Vec<(u64, ChunkPos, Dimension)> = Vec::new();
        if data.len() == 0 {
            return result;
        }
        let count = data[0] as usize;
        let entry_size: usize = 21;
        if data.len() < 1 + count * entry_size {
            return result;
        }
        let mut offset: usize = 1;
        let mut k: usize = 0;
        while k < count
            invariant
                0 <= k <= count,
                count == data@[0] as int,
                entry_size == 21,
                data@.len() >= 1 + 21 * count,
                offset == 1 + 21 * k,
                result@ == decode_ghost_entries(data@, k as int),
            decreases count - k,
        {
            let player_id = read_u64_be(data, offset);
            let x = read_i32_be(data, offset + 8);
            let y = read_i32_be(data, offset + 12);
            let z = read_i32_be(data, offset + 16);
            let dim_byte = data[offset + 20];
            if let Some(dim) = u8_to_dimension(dim_byte) {
                result.push((player_id, ChunkPos { x, y, z }, dim));
            }
            offset += entry_size;
            k += 1;
        }
        result
    }
}

/// Distortion level for cross-dimension messages.
#[derive(Clone, Copy, Debug, PartialEq, Eq, Structural)]
pub enum MessageDistortion {
    /// No distortion (same dimension).
    Undistorted,
    /// Slight distortion (adjacent dimension).
    Slight,
    /// Heavy distortion (opposite dimension).
    Heavy,
    /// Unintelligible (Void to non-Void or vice versa).
    Unintelligible,
}

/// The distortion of a message sent from a dimension.
pub open spec fn distortion_of(dim: Dimension) -> MessageDistortion {
    match dim {
        Dimension::Prime => MessageDistortion::Slight,
        Dimension::Inverted => MessageDistortion::Heavy,
        Dimension::Void => MessageDistortion::Unintelligible,
        Dimension::Nexus => MessageDistortion::Slight,
    }
}

/// Whether a character is a vowel (a, e, i, o, u in either case).
pub open spec fn is_vowel(c: char) -> bool {
    c == 'a' || c == 'e' || c == 'i' || c == 'o' || c == 'u' || c == 'A' || c == 'E' || c == 'I'
        || c == 'O' || c == 'U'
}

/// Slight distortion: when the text has more than two characters, the
/// characters at positions 1, 4, 7, ... are swapped with their successor
/// (where there is one).
pub open spec fn slight_scramble(s: Seq<char>) -> Seq<char> {
    if s.len() <= 2 {
        s
    } else {
        Seq::new(
            s.len(),
            |j: int|
                if j % 3 == 1 && j + 1 < s.len() {
                    s[j + 1]
                } else if j % 3 == 2 {
                    s[j - 1]
                } else {
                    s[j]
                },
        )
    }
}

/// The characters at positions 0, 2, 4, ... swapped with their successor
/// (where there is one).
pub open spec fn pair_swap(v: Seq<char>) -> Seq<char> {
    Seq::new(
        v.len(),
        |j: int|
            if j % 2 == 0 {
                if j + 1 < v.len() {
                    v[j + 1]
                } else {
                    v[j]
                }
            } else {
                v[j - 1]
            },
    )
}

/// The text without its vowels.
pub open spec fn consonants(s: Seq<char>) -> Seq<char> {
    s.filter(|c: char| !is_vowel(c))
}

/// Heavy distortion: the vowels are removed and the remaining characters
/// swapped in pairs; a text of vowels only becomes "...".
pub open spec fn heavy_scramble(s: Seq<char>) -> Seq<char> {
    if consonants(s).len() == 0 {
        seq!['.', '.', '.']
    } else {
        pair_swap(consonants(s))
    }
}

/// Unintelligible distortion: "..." repeated once per three bytes of the
/// UTF-8 text (counting at most 20 bytes), and at least once.
pub open spec fn unintelligible_text(s: Seq<char>) -> Seq<char> {
    let bytes = vstd::utf8::encode_utf8(s).len() as usize;
    let len = if bytes < 20 { bytes as int } else { 20 };
    let n = if len / 3 > 1 { len / 3 } else { 1 };
    Seq::new((3 * n) as nat, |i: int| '.')
}

/// The text a receiver sees of `content` under a distortion.
pub open spec fn distorted_text(d: MessageDistortion, content: Seq<char>) -> Seq<char> {
    match d {
        MessageDistortion::Undistorted => content,
        MessageDistortion::Slight => slight_scramble(content),
        MessageDistortion::Heavy => heavy_scramble(content),
        MessageDistortion::Unintelligible => unintelligible_text(content),
    }
}

/// Slight distortion swaps disjoint pairs of characters, so applying it twice
/// gives back the original text; it keeps the length.
pub proof fn law_slight_scramble_involution(s: Seq<char>)
    ensures
        slight_scramble(s).len() == s.len(),
        slight_scramble(slight_scramble(s)) == s,
{
    let t = slight_scramble(s);
    if s.len() > 2 {
        assert forall|j: int| 0 <= j < s.len() implies #[trigger] slight_scramble(t)[j] == s[j] by {
            if j % 3 == 1 && j + 1 < s.len() {
                assert((j + 1) % 3 == 2);
                assert(t[j + 1] == s[j]);
            } else if j % 3 == 2 {
                assert((j - 1) % 3 == 1);
                assert(t[j - 1] == s[j]);
            }
        }
        assert(slight_scramble(t) =~= s);
    }
}

/// Heavily distorted text holds no vowel, and is never empty.
pub proof fn law_heavy_scramble_has_no_vowels(s: Seq<char>)
    ensures
        forall|i: int| 0 <= i < heavy_scramble(s).len() ==> !is_vowel(#[trigger] heavy_scramble(s)[i]),
        heavy_scramble(s).len() > 0,
{
    broadcast use vstd::seq_lib::group_filter_ensures;
    let v = consonants(s);
    if v.len() > 0 {
        assert forall|i: int| 0 <= i < v.len() implies !is_vowel(#[trigger] v[i]) by {
            s.lemma_filter_pred(|c: char| !is_vowel(c), i);
        }
        assert forall|i: int| 0 <= i < heavy_scramble(s).len() implies !is_vowel(#[trigger] heavy_scramble(s)[i]) by {
            let p = pair_swap(v);
            if i % 2 == 0 {
                if i + 1 < v.len() {
                    assert(p[i] == v[i + 1]);
                } else {
                    assert(p[i] == v[i]);
                }
            } else {
                assert(p[i] == v[i - 1]);
            }
        }
    }
}

/// Unintelligible text is made of dots only: at least three of them, at most eighteen.
pub proof fn law_unintelligible_is_dots(s: Seq<char>)
    ensures
        forall|i: int| 0 <= i < unintelligible_text(s).len() ==> #[trigger] unintelligible_text(s)[i] == '.',
        3 <= unintelligible_text(s).len() <= 18,
        unintelligible_text(s).len() % 3 == 0,
{
}

/// Appends a character to a string.
///
/// Calls `String::push`, which appends the character at the end.
#[verifier::external_body]
fn push_char(s: &mut String, c: char)
    ensures
        final(s)@ == old(s)@.push(c),
{
    s.push(c);
}

/// The characters of a string, in order.
fn chars_of(s: &String) -> (v: Vec<char>)
    ensures
        v@ == s@,
{
    broadcast use vstd::string::group_string_axioms;
    let mut v: Vec<char> = Vec::new();
    let ghost t = s@;
    for c in it: s.as_str().chars()
        invariant
            it.seq() == t,
            v@ == t.take(it.index()),
    {
        assert(t.take(it.index() + 1) =~= t.take(it.index()).push(c));
        v.push(c);
    }
    assert(t.take(t.len() as int) =~= t);
    v
}

/// The string made of a sequence of characters.
fn string_of(v: &Vec<char>) -> (s: String)
    ensures
        s@ == v@,
{
    let mut s = String::new();
    let mut i: usize = 0;
    while i < v.len()
        invariant
            0 <= i <= v@.len(),
            s@ == v@.take(i as int),
        decreases v@.len() - i,
    {
        assert(v@.take(i + 1) =~= v@.take(i as int).push(v@[i as int]));
        push_char(&mut s, v[i]);
        i += 1;
    }
    assert(v@.take(v@.len() as int) =~= v@);
    s
}

fn is_vowel_exec(c: char) -> (b: bool)
    ensures
        b == is_vowel(c),
{
    c == 'a' || c == 'e' || c == 'i' || c == 'o' || c == 'u' || c == 'A' || c == 'E' || c == 'I'
        || c == 'O' || c == 'U'
}

/// A cross-dimension message.
#[derive(Clone, Debug)]
pub struct CrossDimensionMessage {
    /// Sender player ID.
    sender_id: u64,
    /// Sender's dimension.
    sender_dimension: Dimension,
    /// Receiver player ID.
    receiver_id: u64,
    /// Message content.
    content: String,
    /// Distortion level based on dimension distance.
    distortion: MessageDistortion,
}

impl CrossDimensionMessage {
    /// The sender's id.
    pub closed spec fn spec_sender_id(&self) -> u64 {
        self.sender_id
    }

    /// The sender's dimension.
    pub closed spec fn spec_sender_dimension(&self) -> Dimension {
        self.sender_dimension
    }

    /// The receiver's id.
    pub closed spec fn spec_receiver_id(&self) -> u64 {
        self.receiver_id
    }

    /// The undistorted text.
    pub closed spec fn spec_content(&self) -> Seq<char> {
        self.content@
    }

    /// The distortion the message suffers.
    pub closed spec fn spec_distortion(&self) -> MessageDistortion {
        self.distortion
    }

    /// Create a new cross-dimension message; its distortion follows from the
    /// sender's dimension.
    pub fn new(sender_id: u64, sender_dim: Dimension, receiver_id: u64, content: String) -> (m: CrossDimensionMessage)
        ensures
            m.spec_sender_id() == sender_id,
            m.spec_sender_dimension() == sender_dim,
            m.spec_receiver_id() == receiver_id,
            m.spec_content() == content@,
            m.spec_distortion() == distortion_of(sender_dim),
    {
        let distortion = Self::calculate_distortion(sender_dim);
        CrossDimensionMessage {
            sender_id,
            sender_dimension: sender_dim,
            receiver_id,
            content,
            distortion,
        }
    }

    /// Calculate message distortion based on sender's dimension.
    pub fn calculate_distortion(dim: Dimension) -> (d: MessageDistortion)
        ensures
            d == distortion_of(dim),
    {
        match dim {
            Dimension::Prime => MessageDistortion::Slight,
            Dimension::Inverted => MessageDistortion::Heavy,
            Dimension::Void => MessageDistortion::Unintelligible,
            Dimension::Nexus => MessageDistortion::Slight,
        }
    }

    /// Get the distortion level.
    pub fn distortion(&self) -> (d: MessageDistortion)
        ensures
            d == self.spec_distortion(),
    {
        self.distortion
    }

    /// Get the distorted message content.
    pub fn distorted_content(&self) -> (r: String)
        ensures
            r@ == distorted_text(self.spec_distortion(), self.spec_content()),
    {
        match self.distortion {
            MessageDistortion::Undistorted => {
                let r = self.content.clone();
                assert(r@ == self.content@);
                r
            },
            MessageDistortion::Slight => {
                let mut chars = chars_of(&self.content);
                let ghost s = chars@;
                let len = chars.len();
                if len > 2 {
                    let last = (len - 2) / 3;
                    let mut t: usize = 0;
                    while t <= last
                        invariant
                            len == s.len(),
                            len > 2,
                            last == (len - 2) / 3,
                            chars@.len() == len,
                            0 <= t <= last + 1,
                            forall|j: int| 0 <= j < 3 * t && j < len ==> #[trigger] chars@[j] == slight_scramble(s)[j],
                            forall|j: int| 3 * t <= j < len ==> #[trigger] chars@[j] == s[j],
                        decreases last + 1 - t,
                    {
                        let i = 3 * t + 1;
                        if i + 1 < len {
                            let a = chars[i];
                            let b = chars[i + 1];
                            chars[i] = b;
                            chars[i + 1] = a;
                        }
                        t += 1;
                    }
                    assert(chars@ =~= slight_scramble(s));
                }
                let r = string_of(&chars);
                assert(r@ == slight_scramble(self.content@));
                r
            },
            MessageDistortion::Heavy => {
                let chars = chars_of(&self.content);
                let ghost s = chars@;
                let ghost pred = |c: char| !is_vowel(c);
                let mut kept: Vec<char> = Vec::new();
                let mut i: usize = 0;
                while i < chars.len()
                    invariant
                        0 <= i <= s.len(),
                        chars@ == s,
                        pred == (|c: char| !is_vowel(c)),
                        kept@ == s.take(i as int).filter(pred),
                    decreases s.len() - i,
                {
                    let c = chars[i];
                    proof {
                        assert(s.take(i + 1) =~= s.take(i as int).push(c));
                        s.take(i as int).lemma_filter_push(c, pred);
                    }
                    if !is_vowel_exec(c) {
                        kept.push(c);
                    }
                    i += 1;
                }
                assert(s.take(s.len() as int) =~= s);
                if kept.len() == 0 {
                    let mut dots = String::new();
                    push_char(&mut dots, '.');
                    push_char(&mut dots, '.');
                    push_char(&mut dots, '.');
                    assert(dots@ =~= seq!['.', '.', '.']);
                    return dots;
                }
                let ghost v = kept@;
                let len = kept.len();
                let last = (len - 1) / 2;
                let mut t: usize = 0;
                while t <= last
                    invariant
                        len == v.len(),
                        len > 0,
                        last == (len - 1) / 2,
                        kept@.len() == len,
                        0 <= t <= last + 1,
                        forall|q: int| 0 <= q < 2 * t && q < len ==> #[trigger] kept@[q] == pair_swap(v)[q],
                        forall|q: int| 2 * t <= q < len ==> #[trigger] kept@[q] == v[q],
                    decreases last + 1 - t,
                {
                    let j = 2 * t;
                    if j + 1 < len {
                        let a = kept[j];
                        let b = kept[j + 1];
                        kept[j] = b;
                        kept[j + 1] = a;
                    }
                    t += 1;
                }
                assert(kept@ =~= pair_swap(v));
                let r = string_of(&kept);
                assert(r@ == heavy_scramble(self.content@));
                r
            },
            MessageDistortion::Unintelligible => {
                let text = self.content.as_str();
                let byte_len = text.len();
                let len = if byte_len < 20 { byte_len } else { 20 };
                let n = if len / 3 > 1 { len / 3 } else { 1 };
                let mut r = String::new();
                let mut k: usize = 0;
                while k < n
                    invariant
                        0 <= k <= n,
                        n <= 6,
                        r@ == Seq::new((3 * k) as nat, |i: int| '.'),
                    decreases n - k,
                {
                    push_char(&mut r, '.');
                    push_char(&mut r, '.');
                    push_char(&mut r, '.');
                    assert(r@ =~= Seq::new((3 * (k + 1)) as nat, |i: int| '.'));
                    k += 1;
                }
                assert(byte_len == vstd::utf8::encode_utf8(self.content@).len() as usize);
                r
            },
        }
    }

    /// Get the sender ID.
    pub fn sender_id(&self) -> (id: u64)
        ensures
            id == self.spec_sender_id(),
    {
        self.sender_id
    }

    /// Get the sender's dimension.
    pub fn sender_dimension(&self) -> (d: Dimension)
        ensures
            d == self.spec_sender_dimension(),
    {
        self.sender_dimension
    }

    /// Get the receiver ID.
    pub fn receiver_id(&self) -> (id: u64)
        ensures
            id == self.spec_receiver_id(),
    {
        self.receiver_id
    }
}

/// An item being offered in a weak point trade.
#[derive(Clone, Debug)]
pub struct TradeItem {
    /// Item type identifier.
    item_type: String,
    /// Quantity offered.
    quantity: u32,
}

impl TradeItem {
    /// The item type identifier.
    pub closed spec fn spec_item_type(&self) -> Seq<char> {
        self.item_type@
    }

    /// The quantity.
    pub closed spec fn spec_quantity(&self) -> u32 {
        self.quantity
    }

    /// Create a new trade item.
    pub fn new(item_type: String, quantity: u32) -> (t: TradeItem)
        ensures
            t.spec_item_type() == item_type@,
            t.spec_quantity() == quantity,
    {
        TradeItem { item_type, quantity }
    }

    /// Get the item type.
    pub fn item_type(&self) -> (s: &str)
        ensures
            s@ == self.spec_item_type(),
    {
        self.item_type.as_str()
    }

    /// Get the quantity.
    pub fn quantity(&self) -> (q: u32)
        ensures
            q == self.spec_quantity(),
    {
        self.quantity
    }
}

/// A trade proposal through a weak point.
#[derive(Clone, Debug)]
pub struct WeakPointTrade {
    /// Initiator player ID.
    initiator_id: u64,
    /// Initiator's dimension.
    initiator_dimension: Dimension,
    /// Responder player ID.
    responder_id: u64,
    /// Items offered by initiator.
    offered_items: Vec<TradeItem>,
    /// Items requested from responder.
    requested_items: Vec<TradeItem>,
    /// Weak point position where the trade occurs.
    weak_point_pos: ChunkPos,
    /// Whether the trade has been accepted.
    accepted: bool,
}

impl WeakPointTrade {
    /// The initiator's id.
    pub closed spec fn spec_initiator_id(&self) -> u64 {
        self.initiator_id
    }

    /// The initiator's dimension.
    pub closed spec fn spec_initiator_dimension(&self) -> Dimension {
        self.initiator_dimension
    }

    /// The responder's id.
    pub closed spec fn spec_responder_id(&self) -> u64 {
        self.responder_id
    }

    /// The items offered, in the order they were added.
    pub closed spec fn spec_offered(&self) -> Seq<TradeItem> {
        self.offered_items@
    }

    /// The items requested, in the order they were added.
    pub closed spec fn spec_requested(&self) -> Seq<TradeItem> {
        self.requested_items@
    }

    /// The weak point where the trade takes place.
    pub closed spec fn spec_weak_point_pos(&self) -> ChunkPos {
        self.weak_point_pos
    }

    /// Whether the trade has been accepted.
    pub closed spec fn spec_accepted(&self) -> bool {
        self.accepted
    }

    /// Create a new trade proposal, with nothing offered or requested yet.
    pub fn new(initiator_id: u64, initiator_dimension: Dimension, responder_id: u64, weak_point_pos: ChunkPos) -> (t: WeakPointTrade)
        ensures
            t.spec_initiator_id() == initiator_id,
            t.spec_initiator_dimension() == initiator_dimension,
            t.spec_responder_id() == responder_id,
            t.spec_offered() == Seq::<TradeItem>::empty(),
            t.spec_requested() == Seq::<TradeItem>::empty(),
            t.spec_weak_point_pos() == weak_point_pos,
            !t.spec_accepted(),
    {
        WeakPointTrade {
            initiator_id,
            initiator_dimension,
            responder_id,
            offered_items: Vec::new(),
            requested_items: Vec::new(),
            weak_point_pos,
            accepted: false,
        }
    }

    /// Add an item to the offer.
    pub fn offer_item(&mut self, item: TradeItem)
        ensures
            final(self).spec_offered() == old(self).spec_offered().push(item),
            final(self).spec_requested() == old(self).spec_requested(),
            final(self).spec_accepted() == old(self).spec_accepted(),
            final(self).spec_weak_point_pos() == old(self).spec_weak_point_pos(),
            final(self).spec_initiator_id() == old(self).spec_initiator_id(),
            final(self).spec_responder_id() == old(self).spec_responder_id(),
    {
        self.offered_items.push(item);
    }

    /// Add an item to the request.
    pub fn request_item(&mut self, item: TradeItem)
        ensures
            final(self).spec_requested() == old(self).spec_requested().push(item),
            final(self).spec_offered() == old(self).spec_offered(),
            final(self).spec_accepted() == old(self).spec_accepted(),
            final(self).spec_weak_point_pos() == old(self).spec_weak_point_pos(),
            final(self).spec_initiator_id() == old(self).spec_initiator_id(),
            final(self).spec_responder_id() == old(self).spec_responder_id(),
    {
        self.requested_items.push(item);
    }

    /// Accept the trade.
    pub fn accept(&mut self)
        ensures
            final(self).spec_accepted(),
            final(self).spec_offered() == old(self).spec_offered(),
            final(self).spec_requested() == old(self).spec_requested(),
            final(self).spec_weak_point_pos() == old(self).spec_weak_point_pos(),
            final(self).spec_initiator_id() == old(self).spec_initiator_id(),
            final(self).spec_responder_id() == old(self).spec_responder_id(),
    {
        self.accepted = true;
    }

    /// Check if the trade is accepted.
    pub fn is_accepted(&self) -> (b: bool)
        ensures
            b == self.spec_accepted(),
    {
        self.accepted
    }

    /// Get the weak point position.
    pub fn weak_point_pos(&self) -> (p: ChunkPos)
        ensures
            p == self.spec_weak_point_pos(),
    {
        self.weak_point_pos
    }

    /// Get the offered items.
    pub fn offered_items(&self) -> (items: &[TradeItem])
        ensures
            items@ == self.spec_offered(),
    {
        self.offered_items.as_slice()
    }

    /// Get the requested items.
    pub fn requested_items(&self) -> (items: &[TradeItem])
        ensures
            items@ == self.spec_requested(),
    {
        self.requested_items.as_slice()
    }

    /// Get the initiator ID.
    pub fn initiator_id(&self) -> (id: u64)
        ensures
            id == self.spec_initiator_id(),
    {
        self.initiator_id
    }

    /// Get the responder ID.
    pub fn responder_id(&self) -> (id: u64)
        ensures
            id == self.spec_responder_id(),
    {
        self.responder_id
    }
}

/// Heavily distorted text holds none of the letters a, e, i, o, u in either
/// case, and every other character of the original text appears in it.
pub proof fn law_heavy_scramble_drops_exactly_vowels(s: Seq<char>)
    ensures
        forall|i: int| 0 <= i < heavy_scramble(s).len() ==> {
            let c = #[trigger] heavy_scramble(s)[i];
            &&& c != 'a' && c != 'e' && c != 'i' && c != 'o' && c != 'u'
            &&& c != 'A' && c != 'E' && c != 'I' && c != 'O' && c != 'U'
        },
        forall|m: int| 0 <= m < s.len() && s[m] != 'a' && s[m] != 'e' && s[m] != 'i' && s[m] != 'o' && s[m] != 'u'
            && s[m] != 'A' && s[m] != 'E' && s[m] != 'I' && s[m] != 'O' && s[m] != 'U'
            ==> heavy_scramble(s).contains(#[trigger] s[m]),
{
    law_heavy_scramble_has_no_vowels(s);
    let pred = |c: char| !is_vowel(c);
    let v = consonants(s);
    assert forall|m: int| 0 <= m < s.len() && s[m] != 'a' && s[m] != 'e' && s[m] != 'i' && s[m] != 'o' && s[m] != 'u'
        && s[m] != 'A' && s[m] != 'E' && s[m] != 'I' && s[m] != 'O' && s[m] != 'U'
        implies heavy_scramble(s).contains(#[trigger] s[m]) by {
        assert(pred(s[m]));
        s.lemma_filter_contains(pred, m);
        assert(v.contains(s[m]));
        let q = choose|q: int| 0 <= q < v.len() && v[q] == s[m];
        let p = pair_swap(v);
        assert(v.len() > 0);
        if q % 2 == 0 {
            if q + 1 < v.len() {
                assert((q + 1) % 2 == 1);
                assert(p[q + 1] == v[q]);
            } else {
                assert(p[q] == v[q]);
            }
        } else {
            assert((q - 1) % 2 == 0);
            assert(p[q - 1] == v[q]);
        }
    }
}

} // verus!
