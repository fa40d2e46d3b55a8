//! Reaction rules: how a matter changes when it touches neighbors with a
//! given characteristic.

use vstd::prelude::*;

use crate::matter_state::Direction;
use crate::matter_state::DIRECTION_DOWN;
use crate::matter_state::DIRECTION_DOWN_LEFT;
use crate::matter_state::DIRECTION_DOWN_RIGHT;
use crate::matter_state::DIRECTION_LEFT;
use crate::matter_state::DIRECTION_RIGHT;
use crate::matter_state::MatterCharacteristic;

verus! {

/// One reaction rule: with probability `probability`, a cell becomes matter
/// `becomes` when a neighbor in one of the `direction` slots has a
/// characteristic in `reacts`.
///
/// `probability` carries the IEEE-754 bit pattern of the configured
/// probability; the engine stores and forwards it without arithmetic.
#[derive(Debug, Copy, Clone, PartialEq, Eq, Structural)]
pub struct MatterReaction {
    pub becomes: u32,
    pub probability: u32,
    pub direction: Direction,
    pub reacts: MatterCharacteristic,
}

impl MatterReaction {
    /// The inert reaction: never fires, becomes matter 0.
    pub fn zero() -> (r: MatterReaction)
        ensures
            r == (MatterReaction {
                becomes: 0,
                probability: 0,
                direction: Direction { bits: 0 },
                reacts: MatterCharacteristic { bits: 0 },
            }),
    {
        MatterReaction {
            becomes: 0,
            probability: 0,
            direction: Direction::none(),
            reacts: MatterCharacteristic::empty(),
        }
    }

    /// A full rule slate of inert reactions.
    pub fn all_zero() -> (r: [MatterReaction; 5])
        ensures
            forall|k: int| 0 <= k < 5 ==> r[k] == MatterReaction::zero_spec(),
    {
        let z = MatterReaction::zero();
        [z, z, z, z, z]
    }

    /// The inert reaction as a spec value.
    pub open spec fn zero_spec() -> MatterReaction {
        MatterReaction {
            becomes: 0,
            probability: 0,
            direction: Direction { bits: 0 },
            reacts: MatterCharacteristic { bits: 0 },
        }
    }

    /// A rule that turns the matter into `empty_matter` with probability
    /// bits `p`, whatever the neighbors are.
    pub fn dies(p: u32, empty_matter: u32) -> (r: MatterReaction)
        ensures
            r.becomes == empty_matter,
            r.probability == p,
            r.direction.bits == 255,
            r.reacts.bits == 0,
    {
        MatterReaction {
            probability: p,
            becomes: empty_matter,
            direction: Direction::all(),
            reacts: MatterCharacteristic::empty(),
        }
    }

    /// A rule that turns the matter into `becomes_matter` with probability
    /// bits `p` when any neighbor has a characteristic in
    /// `touch_characteristic`.
    pub fn becomes_on_touch(
        p: u32,
        touch_characteristic: MatterCharacteristic,
        becomes_matter: u32,
    ) -> (r: MatterReaction)
        ensures
            r.becomes == becomes_matter,
            r.probability == p,
            r.direction.bits == 255,
            r.reacts == touch_characteristic,
    {
        MatterReaction {
            probability: p,
            becomes: becomes_matter,
            direction: Direction::all(),
            reacts: touch_characteristic,
        }
    }

    /// Like `becomes_on_touch`, but only for neighbors below or beside the
    /// cell.
    pub fn becomes_on_touch_below(
        p: u32,
        touch_characteristic: MatterCharacteristic,
        becomes_matter: u32,
    ) -> (r: MatterReaction)
        ensures
            r.becomes == becomes_matter,
            r.probability == p,
            r.direction.bits == (DIRECTION_DOWN | DIRECTION_DOWN_LEFT | DIRECTION_DOWN_RIGHT
                | DIRECTION_RIGHT | DIRECTION_LEFT),
            r.reacts == touch_characteristic,
    {
        MatterReaction {
            probability: p,
            becomes: becomes_matter,
            reacts: touch_characteristic,
            direction: Direction::from_bits(
                DIRECTION_DOWN | DIRECTION_DOWN_LEFT | DIRECTION_DOWN_RIGHT | DIRECTION_RIGHT
                    | DIRECTION_LEFT,
            ),
        }
    }
}

} // verus!
