//! Matter state classes, characteristic flags, and neighbor-direction masks.

use vstd::prelude::*;

verus! {

/// State class of a matter kind; it decides which movement passes act on a
/// cell of that matter.
#[derive(Debug, Copy, Clone, PartialEq, Eq, Structural)]
pub enum MatterState {
    Empty,
    Powder,
    Liquid,
    Solid,
    SolidGravity,
    Gas,
}

/// The numeric code of a state class, as stored in the per-matter state
/// table that the passes read.
pub open spec fn spec_state_code(s: MatterState) -> u32 {
    match s {
        MatterState::Empty => 0,
        MatterState::Powder => 1,
        MatterState::Liquid => 2,
        MatterState::Solid => 3,
        MatterState::SolidGravity => 4,
        MatterState::Gas => 5,
    }
}

impl MatterState {
    /// Numeric code of this state class.
    pub fn code(&self) -> (r: u32)
        ensures
            r == spec_state_code(*self),
    {
        match self {
            MatterState::Empty => 0,
            MatterState::Powder => 1,
            MatterState::Liquid => 2,
            MatterState::Solid => 3,
            MatterState::SolidGravity => 4,
            MatterState::Gas => 5,
        }
    }
}

/// State-table code for matter that no pass moves because there is nothing
/// there.
pub const STATE_EMPTY: u32 = 0;

/// State-table code for granular matter: falls, and slides diagonally when
/// blocked.
pub const STATE_POWDER: u32 = 1;

/// State-table code for liquids: fall and disperse laterally.
pub const STATE_LIQUID: u32 = 2;

/// State-table code for immovable matter.
pub const STATE_SOLID: u32 = 3;

/// State-table code for solid matter that falls and slides.
pub const STATE_SOLID_GRAVITY: u32 = 4;

/// State-table code for gases: rise and disperse laterally.
pub const STATE_GAS: u32 = 5;

/// Flag bit: the matter corrodes others.
pub const CHARACTERISTIC_CORROSIVE: u32 = 1;

/// Flag bit: the matter is corroded by corrosive matter.
pub const CHARACTERISTIC_CORRODES: u32 = 2;

/// Flag bit: the matter melts others.
pub const CHARACTERISTIC_MELTING: u32 = 4;

/// Flag bit: the matter is melted by melting matter.
pub const CHARACTERISTIC_MELTS: u32 = 8;

/// A set of characteristic flags: what a matter does to its neighbors, and
/// what its neighbors do to it.
#[derive(Debug, Copy, Clone, PartialEq, Eq, Structural)]
pub struct MatterCharacteristic {
    pub bits: u32,
}

impl MatterCharacteristic {
    /// The empty flag set.
    pub fn empty() -> (r: MatterCharacteristic)
        ensures
            r.bits == 0,
    {
        MatterCharacteristic { bits: 0 }
    }

    /// The set of all four characteristic flags.
    pub fn all() -> (r: MatterCharacteristic)
        ensures
            r.bits == (CHARACTERISTIC_CORROSIVE | CHARACTERISTIC_CORRODES | CHARACTERISTIC_MELTING
                | CHARACTERISTIC_MELTS),
    {
        MatterCharacteristic {
            bits: CHARACTERISTIC_CORROSIVE | CHARACTERISTIC_CORRODES | CHARACTERISTIC_MELTING
                | CHARACTERISTIC_MELTS,
        }
    }

    /// The flag set with exactly the given bits.
    pub fn from_bits(bits: u32) -> (r: MatterCharacteristic)
        ensures
            r.bits == bits,
    {
        MatterCharacteristic { bits }
    }

    /// The raw flag bits.
    pub fn bits(&self) -> (r: u32)
        ensures
            r == self.bits,
    {
        self.bits
    }

    /// The union of two flag sets.
    pub fn union(&self, other: MatterCharacteristic) -> (r: MatterCharacteristic)
        ensures
            r.bits == (self.bits | other.bits),
    {
        MatterCharacteristic { bits: self.bits | other.bits }
    }
}

/// Mask bit for the upper-left neighbor.
pub const DIRECTION_UP_LEFT: u32 = 1;

/// Mask bit for the neighbor above.
pub const DIRECTION_UP: u32 = 2;

/// Mask bit for the upper-right neighbor.
pub const DIRECTION_UP_RIGHT: u32 = 4;

/// Mask bit for the neighbor to the right.
pub const DIRECTION_RIGHT: u32 = 8;

/// Mask bit for the lower-right neighbor.
pub const DIRECTION_DOWN_RIGHT: u32 = 16;

/// Mask bit for the neighbor below.
pub const DIRECTION_DOWN: u32 = 32;

/// Mask bit for the lower-left neighbor.
pub const DIRECTION_DOWN_LEFT: u32 = 64;

/// Mask bit for the neighbor to the left.
pub const DIRECTION_LEFT: u32 = 128;

/// A mask over the 8 neighbor directions of a cell.
#[derive(Debug, Copy, Clone, PartialEq, Eq, Structural)]
pub struct Direction {
    pub bits: u32,
}

impl Direction {
    /// The empty mask: no direction.
    pub fn none() -> (r: Direction)
        ensures
            r.bits == 0,
    {
        Direction { bits: 0 }
    }

    /// The mask of all 8 neighbor directions.
    pub fn all() -> (r: Direction)
        ensures
            r.bits == 255,
    {
        Direction { bits: 255 }
    }

    /// The mask with exactly the given bits.
    pub fn from_bits(bits: u32) -> (r: Direction)
        ensures
            r.bits == bits,
    {
        Direction { bits }
    }

    /// The raw mask bits.
    pub fn bits(&self) -> (r: u32)
        ensures
            r == self.bits,
    {
        self.bits
    }

    /// The union of two masks.
    pub fn union(&self, other: Direction) -> (r: Direction)
        ensures
            r.bits == (self.bits | other.bits),
    {
        Direction { bits: self.bits | other.bits }
    }
}

} // verus!
