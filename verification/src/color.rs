//! Packed color conversions and the cell encoding.
//!
//! A grid cell is one 32-bit word: the three high bytes carry an RGB color
//! tint and the low byte carries the matter id. `encode` and `decode` are the
//! canonical pair; `MatterWithColor` is the cell wrapper the engine stores.

use vstd::prelude::*;

verus! {

/// Packs four 8-bit channels into one word, `r` highest, `a` lowest.
pub fn u8_rgba_to_u32_rgba(r: u8, g: u8, b: u8, a: u8) -> (res: u32)
    ensures
        res == ((r as u32) << 24) | ((g as u32) << 16) | ((b as u32) << 8) | (a as u32),
{
    ((r as u32) << 24) | ((g as u32) << 16) | ((b as u32) << 8) | (a as u32)
}

/// Reverses the byte order of a packed color word.
pub fn u32_rgba_to_u32_abgr(num: u32) -> (res: u32)
    ensures
        res == (((num & 255) << 24) | (((num >> 8) & 255) << 16) | (((num >> 16) & 255) << 8)
            | ((num >> 24) & 255)),
{
    let r = num & 255;
    let g = (num >> 8) & 255;
    let b = (num >> 16) & 255;
    let a = (num >> 24) & 255;
    (r << 24) | (g << 16) | (b << 8) | a
}

/// Splits a packed word into its four bytes, highest byte last.
pub fn u32_rgba_to_u8_rgba(num: u32) -> (res: [u8; 4])
    ensures
        res[0] == ((num >> 24) & 255) as u8,
        res[1] == ((num >> 16) & 255) as u8,
        res[2] == ((num >> 8) & 255) as u8,
        res[3] == (num & 255) as u8,
{
    let r = num & 255;
    let g = (num >> 8) & 255;
    let b = (num >> 16) & 255;
    let a = (num >> 24) & 255;
    [a as u8, b as u8, g as u8, r as u8]
}

/// The packed cell word for matter id `id` tinted with `color`.
pub open spec fn spec_encode(id: u8, color: [u8; 3]) -> u32 {
    ((color[0] as u32) << 24) | ((color[1] as u32) << 16) | ((color[2] as u32) << 8) | (id as u32)
}

/// The matter id stored in a cell word: its low byte.
pub open spec fn spec_cell_matter(word: u32) -> u32 {
    word & 255
}

/// The color tint stored in a cell word: its three high bytes.
pub open spec fn spec_cell_color(word: u32) -> [u8; 3] {
    [((word >> 24) & 255) as u8, ((word >> 16) & 255) as u8, ((word >> 8) & 255) as u8]
}

/// Packs a matter id and an RGB tint into a single cell word.
pub fn encode(id: u8, color: [u8; 3]) -> (word: u32)
    ensures
        word == spec_encode(id, color),
{
    ((color[0] as u32) << 24) | ((color[1] as u32) << 16) | ((color[2] as u32) << 8) | (id as u32)
}

/// Unpacks a cell word into its matter id and RGB tint. Total: any word
/// decodes, since the matter id is simply masked out of the low byte.
pub fn decode(word: u32) -> (r: (u8, [u8; 3]))
    ensures
        r.0 as u32 == spec_cell_matter(word),
        r.1 == spec_cell_color(word),
{
    proof {
        lemma_cell_matter_fits(word);
    }
    ((word & 255) as u8, [
        ((word >> 24) & 255) as u8,
        ((word >> 16) & 255) as u8,
        ((word >> 8) & 255) as u8,
    ])
}

/// The matter id of a cell word is always a valid table index.
pub proof fn lemma_cell_matter_fits(word: u32)
    ensures
        spec_cell_matter(word) < 256,
{
    assert(word & 255 < 256) by (bit_vector);
}

/// Encoding then decoding a cell returns the id and color unchanged, for
/// every id and every color triple.
pub proof fn lemma_encode_decode_roundtrip(id: u8, color: [u8; 3])
    ensures
        spec_cell_matter(spec_encode(id, color)) == id as u32,
        spec_cell_color(spec_encode(id, color)) == color,
{
    let c0 = color[0];
    let c1 = color[1];
    let c2 = color[2];
    let word = ((c0 as u32) << 24) | ((c1 as u32) << 16) | ((c2 as u32) << 8) | (id as u32);
    assert((word & 255) == id as u32) by (bit_vector)
        requires
            word == ((c0 as u32) << 24) | ((c1 as u32) << 16) | ((c2 as u32) << 8) | (id as u32),
    ;
    assert(((word >> 24) & 255) as u8 == c0 && ((word >> 16) & 255) as u8 == c1 && ((word >> 8)
        & 255) as u8 == c2) by (bit_vector)
        requires
            word == ((c0 as u32) << 24) | ((c1 as u32) << 16) | ((c2 as u32) << 8) | (id as u32),
    ;
    assert(spec_cell_color(spec_encode(id, color)) =~= color);
}

/// A cell word: three color bytes over one matter-id byte.
#[derive(Default, Copy, Clone, Debug, PartialEq, Eq, Structural)]
pub struct MatterWithColor {
    pub value: u32,
}

impl MatterWithColor {
    /// Builds a cell for `matter_id` (truncated to its low byte) tinted with
    /// the first three channels of `color`.
    pub fn new(matter_id: u32, color: [u8; 4]) -> (r: MatterWithColor)
        ensures
            r.value == spec_encode(matter_id as u8, [color[0], color[1], color[2]]),
    {
        MatterWithColor { value: encode(matter_id as u8, [color[0], color[1], color[2]]) }
    }

    /// The matter id stored in this cell.
    pub fn matter_id(&self) -> (r: u32)
        ensures
            r == spec_cell_matter(self.value),
            r < 256,
    {
        proof {
            lemma_cell_matter_fits(self.value);
        }
        self.value & 255
    }
}

impl From<u32> for MatterWithColor {
    fn from(item: u32) -> (r: MatterWithColor) {
        MatterWithColor { value: item }
    }
}

impl vstd::std_specs::convert::FromSpecImpl<u32> for MatterWithColor {
    open spec fn obeys_from_spec() -> bool {
        true
    }

    open spec fn from_spec(item: u32) -> MatterWithColor {
        MatterWithColor { value: item }
    }
}

} // verus!
