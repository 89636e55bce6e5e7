//! The two sample streams of a tile and what they decode to.
//!
//! An elevation stream holds one big-endian unsigned 16-bit value per sample.
//! A water stream holds one byte per sample, 0 for land and 255 for water.
//! Both run row by row from the northern edge, each row from west to east,
//! without header or footer.

use crate::lattice::SAMPLES;
use byteorder::BigEndian;
use byteorder::ByteOrder;
use vstd::prelude::*;

verus! {

/// The byte that marks a land sample in a water stream.
pub const LAND: u8 = 0;

/// The byte that marks a water sample in a water stream.
pub const WATER: u8 = 255;

/// Why a stream could not be decoded.
#[derive(Clone, Copy, Debug, PartialEq, Eq, Structural)]
pub enum LoadError {
    /// The stream ended before the last sample.
    Truncated,
    /// The byte at `index` of a water stream is neither `LAND` nor `WATER`.
    InvalidWater { index: usize, value: u8 },
}

/// The number that two bytes spell, most significant byte first.
pub open spec fn be_u16(hi: u8, lo: u8) -> u16 {
    (hi as int * 256 + lo as int) as u16
}

/// The elevation samples spelled by the first `2 * SAMPLES` bytes.
pub open spec fn elevation_grid(bytes: Seq<u8>) -> Seq<u16> {
    Seq::new(SAMPLES as nat, |i: int| be_u16(bytes[2 * i], bytes[2 * i + 1]))
}

/// What an elevation stream decodes to: it is only ever too short.
pub open spec fn parse_elevation(bytes: Seq<u8>) -> Result<Seq<u16>, LoadError> {
    if bytes.len() < 2 * SAMPLES {
        Err(LoadError::Truncated)
    } else {
        Ok(elevation_grid(bytes))
    }
}

/// Whether `b` is one of the two bytes a water stream may hold.
pub open spec fn is_sentinel(b: u8) -> bool {
    b == LAND || b == WATER
}

/// Whether the stream holds only sentinels before position `n`.
pub open spec fn sentinels_before(bytes: Seq<u8>, n: int) -> bool {
    forall|i: int| 0 <= i < n && i < bytes.len() ==> is_sentinel(#[trigger] bytes[i])
}

/// Whether `i` is the first position among the samples of the stream that
/// holds no sentinel.
pub open spec fn first_invalid(bytes: Seq<u8>, i: int) -> bool {
    &&& 0 <= i < bytes.len()
    &&& i < SAMPLES
    &&& !is_sentinel(bytes[i])
    &&& sentinels_before(bytes, i)
}

/// The water flags spelled by the first `SAMPLES` bytes.
pub open spec fn water_grid(bytes: Seq<u8>) -> Seq<bool> {
    Seq::new(SAMPLES as nat, |i: int| bytes[i] == WATER)
}

/// What a water stream decodes to. The stream is taken byte by byte, so a
/// byte that is no sentinel is reported even if the stream is also too short.
pub open spec fn parse_water(bytes: Seq<u8>) -> Result<Seq<bool>, LoadError> {
    if exists|i: int| first_invalid(bytes, i) {
        let i = choose|i: int| first_invalid(bytes, i);
        Err(LoadError::InvalidWater { index: i as usize, value: bytes[i] })
    } else if bytes.len() < SAMPLES {
        Err(LoadError::Truncated)
    } else {
        Ok(water_grid(bytes))
    }
}

/// When a water stream decodes and when it does not: it decodes when it holds
/// a sentinel for every sample; a first byte that is no sentinel is reported
/// with its place; and a stream of sentinels that ends early is truncated.
pub proof fn lemma_parse_water_outcome(bytes: Seq<u8>)
    ensures
        bytes.len() >= SAMPLES && sentinels_before(bytes, SAMPLES as int) <==> parse_water(bytes)
            == Ok::<Seq<bool>, LoadError>(water_grid(bytes)),
        bytes.len() < SAMPLES && sentinels_before(bytes, bytes.len() as int) <==> parse_water(bytes)
            == Err::<Seq<bool>, LoadError>(LoadError::Truncated),
        forall|i: int|
            first_invalid(bytes, i) <==> 0 <= i < SAMPLES && i < bytes.len() && parse_water(bytes)
                == Err::<Seq<bool>, LoadError>(
                LoadError::InvalidWater { index: i as usize, value: bytes[i] },
            ),
{
    if !sentinels_before(bytes, SAMPLES as int) {
        lemma_some_position_is_first_invalid(bytes, SAMPLES as int);
    }
}

/// Where not every byte before `n` is a sentinel, some position among the
/// samples is the first to hold none.
proof fn lemma_some_position_is_first_invalid(bytes: Seq<u8>, n: int)
    requires
        0 <= n <= SAMPLES,
        !sentinels_before(bytes, n),
    ensures
        exists|i: int| first_invalid(bytes, i),
    decreases n,
{
    if n > 0 {
        if sentinels_before(bytes, n - 1) {
            assert(first_invalid(bytes, n - 1));
        } else {
            lemma_some_position_is_first_invalid(bytes, n - 1);
        }
    }
}

/// Calls `byteorder::BigEndian::read_u16`, which reads the first two bytes of
/// `buf` as an unsigned number with the most significant byte first and
/// panics on a shorter slice. The contract is taken on trust from that
/// crate; nothing here proves it.
#[verifier::external_body]
pub(crate) fn read_u16_be(buf: &[u8]) -> (v: u16)
    requires
        buf@.len() >= 2,
    ensures
        v == be_u16(buf@[0], buf@[1]),
{
    BigEndian::read_u16(buf)
}

} // verus!
