//! The matter registry: definitions, their structural validation, and the
//! built-in fallback set.

use vstd::prelude::*;

use crate::matter_reaction::MatterReaction;
use crate::matter_state::MatterCharacteristic;
use crate::matter_state::MatterState;
use crate::matter_state::CHARACTERISTIC_CORRODES;
use crate::matter_state::CHARACTERISTIC_MELTS;

verus! {

/// Number of reaction-rule slots per matter definition.
pub const MAX_TRANSITIONS: u32 = 5;

/// Matter id of the built-in empty matter.
pub const MATTER_EMPTY: u32 = 0;

/// Matter id of the built-in sand.
pub const MATTER_SAND: u32 = 1;

/// Matter id of the built-in water.
pub const MATTER_WATER: u32 = 2;

/// Matter id of the built-in gas.
pub const MATTER_GAS: u32 = 3;

/// One matter kind: its id, display color, physical parameters, state class,
/// characteristic flags, and reaction rules.
///
/// `weight` carries the IEEE-754 bit pattern of the configured weight. The
/// engine compares weights by these bits, which orders nonnegative weights
/// exactly as the configured magnitudes.
#[derive(Debug, Clone)]
pub struct MatterDefinition {
    pub id: u32,
    pub color: u32,
    pub weight: u32,
    pub name: String,
    pub dispersion: u32,
    pub state: MatterState,
    pub characteristics: MatterCharacteristic,
    pub reactions: [MatterReaction; 5],
}

impl MatterDefinition {
    /// The all-zero definition: empty matter with no color, weight,
    /// dispersion, characteristics or reactions.
    pub fn zero() -> (r: MatterDefinition)
        ensures
            r.id == 0,
            r.color == 0,
            r.weight == 0,
            r.name@ == "Empty"@,
            r.dispersion == 0,
            r.state == MatterState::Empty,
            r.characteristics.bits == 0,
            forall|k: int| 0 <= k < 5 ==> r.reactions[k] == MatterReaction::zero_spec(),
    {
        MatterDefinition {
            id: 0,
            color: 0,
            weight: 0,
            dispersion: 0,
            state: MatterState::Empty,
            name: "Empty".to_string(),
            characteristics: MatterCharacteristic::empty(),
            reactions: MatterReaction::all_zero(),
        }
    }
}

impl Default for MatterDefinition {
    fn default() -> (r: MatterDefinition)
        ensures
            r.id == 0,
            r.color == 0,
            r.weight == 0,
            r.name@ == "Empty"@,
            r.dispersion == 0,
            r.state == MatterState::Empty,
            r.characteristics.bits == 0,
            forall|k: int| 0 <= k < 5 ==> r.reactions[k] == MatterReaction::zero_spec(),
    {
        MatterDefinition::zero()
    }
}

/// The full registry: which id is the empty matter, and one definition per
/// id, in id order.
#[derive(Debug, Clone)]
pub struct MatterDefinitions {
    pub empty: u32,
    pub definitions: Vec<MatterDefinition>,
}

/// Every reaction slot of `d` names a target id below `n`.
pub open spec fn spec_reactions_valid(d: MatterDefinition, n: int) -> bool {
    forall|k: int| 0 <= k < 5 ==> (#[trigger] d.reactions[k]).becomes < n
}

/// Structural validity of a registry: every definition's id equals its index
/// and every reaction target id is a valid index.
pub open spec fn spec_definitions_valid(defs: MatterDefinitions) -> bool {
    forall|i: int|
        0 <= i < defs.definitions.len() ==> (#[trigger] defs.definitions[i]).id == i
            && spec_reactions_valid(defs.definitions[i], defs.definitions.len() as int)
}

/// A registry that fails validation, and why: treated as an unrecoverable
/// configuration error by the engine.
#[derive(Debug, Clone, PartialEq, Eq, Structural)]
pub enum MatterValidationError {
    /// The definition at `index` carries `id` instead of its own index.
    IdMismatch { index: usize, id: u32 },
    /// A reaction of the definition at `index` names a target id at or
    /// beyond the registry's length.
    InvalidReactionTarget { index: usize },
}

impl MatterValidationError {
    /// A short description of the error.
    pub fn message(&self) -> String {
        match self {
            MatterValidationError::IdMismatch { .. } => {
                "matter definition id does not equal its index in the registry".to_string()
            },
            MatterValidationError::InvalidReactionTarget { .. } => {
                "matter reaction target id is out of range".to_string()
            },
        }
    }
}

/// Holds when error `e` names the first definition of `defs` that breaks
/// the registry invariant, and why.
pub open spec fn spec_error_describes(e: MatterValidationError, defs: MatterDefinitions) -> bool {
    match e {
        MatterValidationError::IdMismatch { index, id } => {
            &&& index < defs.definitions.len()
            &&& defs.definitions[index as int].id == id
            &&& id != index
            &&& forall|j: int|
                0 <= j < index ==> (#[trigger] defs.definitions[j]).id == j
                    && spec_reactions_valid(defs.definitions[j], defs.definitions.len() as int)
        },
        MatterValidationError::InvalidReactionTarget { index } => {
            &&& index < defs.definitions.len()
            &&& defs.definitions[index as int].id == index
            &&& !spec_reactions_valid(
                defs.definitions[index as int],
                defs.definitions.len() as int,
            )
            &&& forall|j: int|
                0 <= j < index ==> (#[trigger] defs.definitions[j]).id == j
                    && spec_reactions_valid(defs.definitions[j], defs.definitions.len() as int)
        },
    }
}

/// Checks the registry's structural invariant: succeeds exactly when every
/// definition's id equals its index and every reaction's target id is a
/// valid index. On failure, reports the first offending definition, an id
/// mismatch before a bad reaction target.
pub fn validate_matter_definitions(defs: &MatterDefinitions) -> (r: Result<
    (),
    MatterValidationError,
>)
    ensures
        r is Ok <==> spec_definitions_valid(*defs),
        match r {
            Ok(()) => true,
            Err(e) => spec_error_describes(e, *defs),
        },
{
    let n = defs.definitions.len();
    let mut i: usize = 0;
    while i < n
        invariant
            n == defs.definitions.len(),
            i <= n,
            forall|j: int|
                0 <= j < i ==> (#[trigger] defs.definitions[j]).id == j && spec_reactions_valid(
                    defs.definitions[j],
                    n as int,
                ),
        decreases n - i,
    {
        let d = &defs.definitions[i];
        if d.id as usize != i {
            assert(!spec_definitions_valid(*defs)) by {
                assert(defs.definitions[i as int].id != i);
            }
            return Err(MatterValidationError::IdMismatch { index: i, id: d.id });
        }
        let mut k: usize = 0;
        while k < 5
            invariant
                n == defs.definitions.len(),
                i < n,
                k <= 5,
                d == &defs.definitions[i as int],
                d.id == i,
                forall|m: int| 0 <= m < k ==> (#[trigger] d.reactions[m]).becomes < n,
                forall|j: int|
                    0 <= j < i ==> (#[trigger] defs.definitions[j]).id == j
                        && spec_reactions_valid(defs.definitions[j], n as int),
            decreases 5 - k,
        {
            if d.reactions[k].becomes as usize >= n {
                assert(!spec_definitions_valid(*defs)) by {
                    assert(defs.definitions[i as int].reactions[k as int].becomes >= n);
                    assert(!spec_reactions_valid(defs.definitions[i as int], n as int));
                }
                return Err(MatterValidationError::InvalidReactionTarget { index: i });
            }
            k += 1;
        }
        i += 1;
    }
    Ok(())
}

/// Holds when `defs` is the built-in fallback registry: empty, sand, water
/// and gas, with their default parameters.
pub open spec fn spec_is_default_registry(defs: MatterDefinitions) -> bool {
    &&& defs.empty == MATTER_EMPTY
    &&& defs.definitions.len() == 4
    &&& defs.definitions[0].id == MATTER_EMPTY
    &&& defs.definitions[0].weight == 0
    &&& defs.definitions[0].dispersion == 0
    &&& defs.definitions[0].color == 0
    &&& defs.definitions[0].name@ == "Empty"@
    &&& defs.definitions[0].state == MatterState::Empty
    &&& defs.definitions[0].characteristics.bits == 0
    &&& defs.definitions[1].id == MATTER_SAND
    &&& defs.definitions[1].weight == 0x3FC00000
    &&& defs.definitions[1].dispersion == 0
    &&& defs.definitions[1].color == 0xc2b280ff
    &&& defs.definitions[1].name@ == "Sand"@
    &&& defs.definitions[1].state == MatterState::Powder
    &&& defs.definitions[1].characteristics.bits == (CHARACTERISTIC_MELTS
        | CHARACTERISTIC_CORRODES)
    &&& defs.definitions[2].id == MATTER_WATER
    &&& defs.definitions[2].weight == 0x3F800000
    &&& defs.definitions[2].dispersion == 10
    &&& defs.definitions[2].color == 0x1ca3ecff
    &&& defs.definitions[2].name@ == "Water"@
    &&& defs.definitions[2].state == MatterState::Liquid
    &&& defs.definitions[2].characteristics.bits == 0
    &&& defs.definitions[3].id == MATTER_GAS
    &&& defs.definitions[3].weight == 0x3DCCCCCD
    &&& defs.definitions[3].dispersion == 5
    &&& defs.definitions[3].color == 0x92cd00ff
    &&& defs.definitions[3].name@ == "Gas"@
    &&& defs.definitions[3].state == MatterState::Gas
    &&& defs.definitions[3].characteristics.bits == 0
    &&& forall|i: int, k: int|
        0 <= i < 4 && 0 <= k < 5 ==> defs.definitions[i].reactions[k]
            == MatterReaction::zero_spec()
}

/// The built-in fallback registry, used when no external definition source
/// is available or it fails to parse: empty, sand, water and gas.
///
/// The weight fields carry the IEEE-754 bit patterns of 0.0, 1.5, 1.0 and
/// 0.1.
pub fn default_matter_definitions() -> (r: MatterDefinitions)
    ensures
        spec_is_default_registry(r),
        spec_definitions_valid(r),
{
    let empty = MatterDefinition {
        id: MATTER_EMPTY,
        weight: 0,
        dispersion: 0,
        color: 0x0,
        name: "Empty".to_string(),
        state: MatterState::Empty,
        reactions: MatterReaction::all_zero(),
        characteristics: MatterCharacteristic::empty(),
    };
    let sand = MatterDefinition {
        id: MATTER_SAND,
        weight: 0x3FC00000,
        dispersion: 0,
        color: 0xc2b280ff,
        name: "Sand".to_string(),
        state: MatterState::Powder,
        reactions: MatterReaction::all_zero(),
        characteristics: MatterCharacteristic::from_bits(
            CHARACTERISTIC_MELTS | CHARACTERISTIC_CORRODES,
        ),
    };
    let water = MatterDefinition {
        id: MATTER_WATER,
        weight: 0x3F800000,
        dispersion: 10,
        color: 0x1ca3ecff,
        name: "Water".to_string(),
        state: MatterState::Liquid,
        reactions: MatterReaction::all_zero(),
        characteristics: MatterCharacteristic::empty(),
    };
    let gas = MatterDefinition {
        id: MATTER_GAS,
        weight: 0x3DCCCCCD,
        dispersion: 5,
        color: 0x92cd00ff,
        name: "Gas".to_string(),
        state: MatterState::Gas,
        reactions: MatterReaction::all_zero(),
        characteristics: MatterCharacteristic::empty(),
    };
    let mut definitions: Vec<MatterDefinition> = Vec::new();
    definitions.push(empty);
    definitions.push(sand);
    definitions.push(water);
    definitions.push(gas);
    let r = MatterDefinitions { empty: MATTER_EMPTY, definitions };
    assert forall|i: int, k: int| 0 <= i < 4 && 0 <= k < 5 implies r.definitions[i].reactions[k]
        == MatterReaction::zero_spec() by {}
    r
}

/// Chooses the definitions the simulation runs with: the loaded registry
/// when an external source produced one, the built-in fallback otherwise.
pub fn resolve_matter_definitions(loaded: Option<MatterDefinitions>) -> (r: MatterDefinitions)
    ensures
        match loaded {
            Some(d) => r == d,
            None => spec_is_default_registry(r) && spec_definitions_valid(r),
        },
{
    match loaded {
        Some(d) => d,
        None => default_matter_definitions(),
    }
}

} // verus!
