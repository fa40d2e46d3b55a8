use sandbox::matter_definition::default_matter_definitions;
use sandbox::matter_definition::resolve_matter_definitions;
use sandbox::matter_definition::validate_matter_definitions;
use sandbox::matter_definition::MatterDefinition;
use sandbox::matter_definition::MatterDefinitions;
use sandbox::matter_definition::MatterValidationError;
use sandbox::matter_definition::MATTER_EMPTY;
use sandbox::matter_definition::MATTER_GAS;
use sandbox::matter_definition::MATTER_SAND;
use sandbox::matter_definition::MATTER_WATER;
use sandbox::matter_reaction::MatterReaction;
use sandbox::matter_state::Direction;
use sandbox::matter_state::MatterCharacteristic;
use sandbox::matter_state::MatterState;
use sandbox::matter_state::CHARACTERISTIC_CORRODES;
use sandbox::matter_state::CHARACTERISTIC_MELTS;
use sandbox::matter_state::DIRECTION_DOWN;
use sandbox::matter_state::DIRECTION_DOWN_LEFT;
use sandbox::matter_state::DIRECTION_DOWN_RIGHT;
use sandbox::matter_state::DIRECTION_LEFT;
use sandbox::matter_state::DIRECTION_RIGHT;

fn plain_definition(id: u32) -> MatterDefinition {
    let mut d = MatterDefinition::zero();
    d.id = id;
    d
}

#[test]
fn default_registry_contents() {
    let defs = default_matter_definitions();
    assert_eq!(defs.empty, MATTER_EMPTY);
    assert_eq!(defs.definitions.len(), 4);

    assert_eq!(defs.definitions[0].id, MATTER_EMPTY);
    assert_eq!(defs.definitions[0].name, "Empty");
    assert_eq!(defs.definitions[0].state, MatterState::Empty);
    assert_eq!(defs.definitions[0].weight, 0);
    assert_eq!(defs.definitions[0].color, 0);

    assert_eq!(defs.definitions[1].id, MATTER_SAND);
    assert_eq!(defs.definitions[1].name, "Sand");
    assert_eq!(defs.definitions[1].state, MatterState::Powder);
    assert_eq!(defs.definitions[1].weight, 1.5f32.to_bits());
    assert_eq!(defs.definitions[1].color, 0xc2b280ff);
    assert_eq!(
        defs.definitions[1].characteristics.bits,
        CHARACTERISTIC_MELTS | CHARACTERISTIC_CORRODES
    );

    assert_eq!(defs.definitions[2].id, MATTER_WATER);
    assert_eq!(defs.definitions[2].name, "Water");
    assert_eq!(defs.definitions[2].state, MatterState::Liquid);
    assert_eq!(defs.definitions[2].weight, 1.0f32.to_bits());
    assert_eq!(defs.definitions[2].dispersion, 10);
    assert_eq!(defs.definitions[2].color, 0x1ca3ecff);

    assert_eq!(defs.definitions[3].id, MATTER_GAS);
    assert_eq!(defs.definitions[3].name, "Gas");
    assert_eq!(defs.definitions[3].state, MatterState::Gas);
    assert_eq!(defs.definitions[3].weight, 0.1f32.to_bits());
    assert_eq!(defs.definitions[3].dispersion, 5);
    assert_eq!(defs.definitions[3].color, 0x92cd00ff);
}

#[test]
fn default_registry_validates() {
    let defs = default_matter_definitions();
    assert!(validate_matter_definitions(&defs).is_ok());
}

#[test]
fn empty_registry_validates() {
    let defs = MatterDefinitions { empty: 0, definitions: Vec::new() };
    assert!(validate_matter_definitions(&defs).is_ok());
}

#[test]
fn validate_rejects_id_mismatch() {
    let defs = MatterDefinitions {
        empty: 0,
        definitions: vec![plain_definition(0), plain_definition(2)],
    };
    let r = validate_matter_definitions(&defs);
    assert_eq!(r, Err(MatterValidationError::IdMismatch { index: 1, id: 2 }));
}

#[test]
fn validate_rejects_reaction_target_out_of_range() {
    let mut bad = plain_definition(1);
    bad.reactions[3].becomes = 2;
    let defs = MatterDefinitions { empty: 0, definitions: vec![plain_definition(0), bad] };
    let r = validate_matter_definitions(&defs);
    assert_eq!(r, Err(MatterValidationError::InvalidReactionTarget { index: 1 }));
}

#[test]
fn validate_reports_first_offender_id_first() {
    // The definition at index 1 has both a wrong id and a bad reaction
    // target: the id mismatch is reported.
    let mut bad = plain_definition(7);
    bad.reactions[0].becomes = 99;
    let defs = MatterDefinitions { empty: 0, definitions: vec![plain_definition(0), bad] };
    let r = validate_matter_definitions(&defs);
    assert_eq!(r, Err(MatterValidationError::IdMismatch { index: 1, id: 7 }));
}

#[test]
fn validate_reaction_target_boundary() {
    // A reaction target equal to the registry length is out of range;
    // one less is the largest valid target.
    let mut d = plain_definition(0);
    d.reactions[0].becomes = 1;
    let defs = MatterDefinitions { empty: 0, definitions: vec![d] };
    assert_eq!(
        validate_matter_definitions(&defs),
        Err(MatterValidationError::InvalidReactionTarget { index: 0 })
    );

    let mut ok = plain_definition(0);
    ok.reactions[0].becomes = 0;
    let defs_ok = MatterDefinitions { empty: 0, definitions: vec![ok] };
    assert!(validate_matter_definitions(&defs_ok).is_ok());
}

#[test]
fn validation_error_messages_are_nonempty() {
    let a = MatterValidationError::IdMismatch { index: 1, id: 2 };
    let b = MatterValidationError::InvalidReactionTarget { index: 0 };
    assert!(!a.message().is_empty());
    assert!(!b.message().is_empty());
}

#[test]
fn resolve_prefers_loaded_definitions() {
    let loaded = MatterDefinitions { empty: 3, definitions: Vec::new() };
    let r = resolve_matter_definitions(Some(loaded));
    assert_eq!(r.empty, 3);
    assert!(r.definitions.is_empty());
}

#[test]
fn resolve_falls_back_to_defaults() {
    let r = resolve_matter_definitions(None);
    assert_eq!(r.empty, MATTER_EMPTY);
    assert_eq!(r.definitions.len(), 4);
    assert_eq!(r.definitions[1].name, "Sand");
}

#[test]
fn matter_state_codes() {
    assert_eq!(MatterState::Empty.code(), 0);
    assert_eq!(MatterState::Powder.code(), 1);
    assert_eq!(MatterState::Liquid.code(), 2);
    assert_eq!(MatterState::Solid.code(), 3);
    assert_eq!(MatterState::SolidGravity.code(), 4);
    assert_eq!(MatterState::Gas.code(), 5);
}

#[test]
fn characteristic_flags() {
    assert_eq!(MatterCharacteristic::empty().bits(), 0);
    assert_eq!(MatterCharacteristic::all().bits(), 0b1111);
    let u = MatterCharacteristic::from_bits(CHARACTERISTIC_MELTS)
        .union(MatterCharacteristic::from_bits(CHARACTERISTIC_CORRODES));
    assert_eq!(u.bits(), CHARACTERISTIC_MELTS | CHARACTERISTIC_CORRODES);
}

#[test]
fn direction_masks() {
    assert_eq!(Direction::none().bits(), 0);
    assert_eq!(Direction::all().bits(), 255);
    let d = Direction::from_bits(DIRECTION_LEFT).union(Direction::from_bits(DIRECTION_RIGHT));
    assert_eq!(d.bits(), DIRECTION_LEFT | DIRECTION_RIGHT);
}

#[test]
fn reaction_constructors() {
    let z = MatterReaction::zero();
    assert_eq!(z.becomes, 0);
    assert_eq!(z.probability, 0);
    assert_eq!(z.direction.bits(), 0);
    assert_eq!(z.reacts.bits(), 0);

    let all = MatterReaction::all_zero();
    assert_eq!(all.len(), 5);
    for r in all {
        assert_eq!(r, MatterReaction::zero());
    }

    let p = 0.25f32.to_bits();
    let dies = MatterReaction::dies(p, 0);
    assert_eq!(dies.becomes, 0);
    assert_eq!(dies.probability, p);
    assert_eq!(dies.direction.bits(), 255);
    assert_eq!(dies.reacts.bits(), 0);

    let touch = MatterReaction::becomes_on_touch(
        p,
        MatterCharacteristic::from_bits(CHARACTERISTIC_MELTS),
        2,
    );
    assert_eq!(touch.becomes, 2);
    assert_eq!(touch.direction.bits(), 255);
    assert_eq!(touch.reacts.bits(), CHARACTERISTIC_MELTS);

    let below = MatterReaction::becomes_on_touch_below(
        p,
        MatterCharacteristic::from_bits(CHARACTERISTIC_CORRODES),
        1,
    );
    assert_eq!(below.becomes, 1);
    assert_eq!(
        below.direction.bits(),
        DIRECTION_DOWN | DIRECTION_DOWN_LEFT | DIRECTION_DOWN_RIGHT | DIRECTION_RIGHT
            | DIRECTION_LEFT
    );
}

#[test]
fn zero_definition_defaults() {
    let z = MatterDefinition::zero();
    assert_eq!(z.id, 0);
    assert_eq!(z.color, 0);
    assert_eq!(z.weight, 0);
    assert_eq!(z.dispersion, 0);
    assert_eq!(z.state, MatterState::Empty);
    assert_eq!(z.name, "Empty");
    let d = MatterDefinition::default();
    assert_eq!(d.id, 0);
    assert_eq!(d.state, MatterState::Empty);
}
