use pokedex::{
    MoveRow, NamedApiResource, PokedexNumber, Pokemon, PokemonAbility, PokemonAbilityExt, PokemonEncounter,
    PokemonEncounterDetail, PokemonEncounterVersionDetail, PokemonHeldItem,
    PokemonHeldItemVersion, PokemonMove, PokemonMoveExt, PokemonMoveVersion, PokemonSpecies,
    PokemonStat, PokemonType, VerboseEffect,
};

fn named(name: &str) -> Option<NamedApiResource> {
    Some(NamedApiResource { name: Some(String::from(name)), url: None })
}

fn english_effect(effect: Option<&str>, short_effect: &str) -> VerboseEffect {
    VerboseEffect {
        effect: effect.map(String::from),
        short_effect: Some(String::from(short_effect)),
        language: named("en"),
    }
}

fn cells(v: &[&str]) -> Vec<String> {
    v.iter().map(|s| String::from(*s)).collect()
}

fn get_stub_named_api_resource(name: Option<String>) -> NamedApiResource {
    NamedApiResource { name, url: None }
}

#[test]
fn named_api_resource_get_name_or_stub_with_name() {
    let named_api_resource = get_stub_named_api_resource(Some(String::from("test")));
    assert_eq!(named_api_resource.get_name_or_stub(), String::from("test"))
}

#[test]
fn named_api_resource_get_name_or_stub_without_name() {
    let named_api_resource = get_stub_named_api_resource(None);
    assert_eq!(named_api_resource.get_name_or_stub(), String::from(""))
}

fn get_stub_verbose_effect() -> VerboseEffect {
    VerboseEffect {
        effect: Some(String::from("effect")),
        short_effect: Some(String::from("short effect")),
        language: named("en"),
    }
}

#[test]
fn verbose_effect_get_effect() {
    assert_eq!(String::from("effect"), get_stub_verbose_effect().get_effect())
}

#[test]
fn verbose_effect_get_language() {
    assert_eq!(String::from("en"), get_stub_verbose_effect().get_language())
}

#[test]
fn verbose_effect_get_short_effect() {
    assert_eq!(String::from("short effect"), get_stub_verbose_effect().get_short_effect());
    let empty = VerboseEffect { effect: None, short_effect: None, language: None };
    assert_eq!(empty.get_short_effect(), String::new());
    assert_eq!(empty.get_language(), String::new());
}

fn get_stub_pokemon_move_version() -> PokemonMoveVersion {
    PokemonMoveVersion {
        level_learned_at: Some(25),
        move_learn_method: named("level up"),
        version_group: named("x-y"),
    }
}

fn get_stub_pokemon_move() -> PokemonMove {
    PokemonMove {
        de_move: named("pound"),
        version_group_details: Some(vec![
            get_stub_pokemon_move_version(),
            PokemonMoveVersion {
                level_learned_at: Some(0),
                move_learn_method: named("egg"),
                version_group: named("sword-shield"),
            },
        ]),
    }
}

fn get_stub_pokemon_move_ext() -> PokemonMoveExt {
    PokemonMoveExt {
        id: Some(1),
        name: Some(String::from("pound")),
        accuracy: Some(100),
        pp: Some(20),
        power: Some(60),
        pk_type: named("normal"),
        flavor_text_entries: None,
        effect_entries: Some(vec![english_effect(None, "short effect")]),
        damage_class: named("special"),
    }
}

#[test]
fn pokemon_move_get_renderable_version_group_details() {
    let pokemon_move = get_stub_pokemon_move();
    let pokemon_move_version_details =
        pokemon_move.get_renderable_version_group_details("x-y").unwrap();

    assert_eq!(pokemon_move_version_details.len(), 1);
    assert_eq!(
        pokemon_move_version_details.first().unwrap().level_learned_at.unwrap(),
        pokemon_move
            .version_group_details
            .as_ref()
            .unwrap()
            .first()
            .unwrap()
            .level_learned_at
            .unwrap()
    )
}

#[test]
fn pokemon_move_version_group_details_absent_and_unmatched() {
    let no_details = PokemonMove { de_move: named("pound"), version_group_details: None };
    assert!(no_details.get_renderable_version_group_details("x-y").is_none());
    let pokemon_move = get_stub_pokemon_move();
    assert_eq!(pokemon_move.get_renderable_version_group_details("red-blue").unwrap().len(), 0);
    assert_eq!(pokemon_move.get_renderable_version_group_details("x").unwrap().len(), 0);
}

#[test]
fn pokemon_move_get_renderable_as_row() {
    let pokemon_move = get_stub_pokemon_move();
    let pokemon_move_ext = get_stub_pokemon_move_ext();
    let pokemon_move_version = get_stub_pokemon_move_version();

    assert_eq!(
        pokemon_move.get_renderable_as_row(Some(&pokemon_move_ext), &pokemon_move_version),
        Some(MoveRow {
            cells: cells(&[
                "\u{A0}Pound",
                "100",
                "20",
                "60",
                "Normal ",
                "Special",
                "Level up",
                "25",
                "short effect",
            ]),
            type_color: Some((170, 170, 153)),
        }),
    );
    assert_eq!(pokemon_move.get_renderable_as_row(None, &pokemon_move_version), None);
}

#[test]
fn pokemon_move_ext_get_renderable_name() {
    let pokemon_move_ext = get_stub_pokemon_move_ext();
    assert_eq!(pokemon_move_ext.get_renderable_name(), String::from("\u{A0}Pound"))
}

#[test]
fn pokemon_move_ext_get_renderable_pp() {
    let pokemon_move_ext = get_stub_pokemon_move_ext();
    assert_eq!(pokemon_move_ext.get_renderable_pp(), String::from("20"))
}

#[test]
fn pokemon_move_ext_get_renderable_accuracy() {
    let pokemon_move_ext = get_stub_pokemon_move_ext();
    assert_eq!(pokemon_move_ext.get_renderable_accuracy(), String::from("100"))
}

#[test]
fn pokemon_move_ext_get_renderable_power() {
    let pokemon_move_ext = get_stub_pokemon_move_ext();
    assert_eq!(pokemon_move_ext.get_renderable_power(), String::from("60"))
}

#[test]
fn pokemon_move_ext_get_renderable_type() {
    let pokemon_move_ext = get_stub_pokemon_move_ext();
    assert_eq!(pokemon_move_ext.get_renderable_type(), String::from("normal"))
}

#[test]
fn pokemon_move_ext_get_renderable_damage_class() {
    let pokemon_move_ext = get_stub_pokemon_move_ext();
    assert_eq!(pokemon_move_ext.get_renderable_damage_class(), String::from("Special"))
}

#[test]
fn pokemon_move_ext_get_renderable_effect_entry() {
    let pokemon_move_ext = get_stub_pokemon_move_ext();
    assert_eq!(pokemon_move_ext.get_renderable_effect_entry(), String::from("short effect"))
}

#[test]
fn pokemon_move_ext_missing_values() {
    let bare = PokemonMoveExt {
        id: None,
        name: None,
        accuracy: None,
        pp: None,
        power: Some(-5),
        pk_type: None,
        flavor_text_entries: None,
        effect_entries: Some(vec![
            VerboseEffect {
                effect: None,
                short_effect: Some(String::from("kurz")),
                language: named("de"),
            },
            english_effect(None, "second"),
        ]),
        damage_class: None,
    };
    assert_eq!(bare.get_renderable_name(), String::new());
    assert_eq!(bare.get_renderable_accuracy(), String::from("-"));
    assert_eq!(bare.get_renderable_pp(), String::from("-"));
    assert_eq!(bare.get_renderable_power(), String::from("-5"));
    assert_eq!(bare.get_renderable_type(), String::new());
    assert_eq!(bare.get_renderable_damage_class(), String::new());
    assert_eq!(bare.get_renderable_effect_entry(), String::from("second"));
}

#[test]
fn pokemon_move_version_get_renderable_level() {
    let pokemon_move_version = get_stub_pokemon_move_version();
    assert_eq!(pokemon_move_version.get_renderable_level(), String::from("25"))
}

#[test]
fn pokemon_move_version_get_renderable_learn_method() {
    let pokemon_move_version = get_stub_pokemon_move_version();
    assert_eq!(pokemon_move_version.get_renderable_learn_method(), String::from("Level up"))
}

#[test]
fn pokemon_move_version_missing_values() {
    let bare = PokemonMoveVersion { move_learn_method: None, version_group: None, level_learned_at: None };
    assert_eq!(bare.get_renderable_learn_method(), String::from("-"));
    assert_eq!(bare.get_renderable_level(), String::from("-"));
}

fn get_stub_pokemon_ability(is_hidden: bool) -> PokemonAbility {
    PokemonAbility { is_hidden: Some(is_hidden), slot: None, ability: named("test") }
}

fn get_stub_pokemon_ability_ext() -> PokemonAbilityExt {
    PokemonAbilityExt {
        id: Some(1),
        name: Some(String::from("test")),
        effect_entries: Some(vec![get_stub_verbose_effect()]),
        flavor_text_entries: None,
    }
}

#[test]
fn pokemon_ability_get_renderable_is_hidden_work_with_hidden() {
    assert_eq!(String::from("Yes"), get_stub_pokemon_ability(true).get_renderable_is_hidden())
}

#[test]
fn pokemon_ability_get_renderable_is_hidden_work_with_not_hidden() {
    assert_eq!(String::from("No"), get_stub_pokemon_ability(false).get_renderable_is_hidden())
}

#[test]
fn pokemon_ability_get_renderable_as_row() {
    let extended_pokemon_info = get_stub_pokemon_ability_ext();
    assert_eq!(
        Some(cells(&["\u{A0}Test", "short effect", "No"])),
        get_stub_pokemon_ability(false).get_renderable_as_row(Some(&extended_pokemon_info))
    );
    assert_eq!(None, get_stub_pokemon_ability(false).get_renderable_as_row(None));
}

#[test]
fn pokemon_ability_ext_get_renderable_name() {
    assert_eq!(String::from("\u{A0}Test"), get_stub_pokemon_ability_ext().get_renderable_name())
}

#[test]
fn pokemon_ability_ext_get_renderable_effect_entry() {
    assert_eq!(
        String::from("short effect"),
        get_stub_pokemon_ability_ext().get_renderable_effect_entry()
    )
}

fn get_stubbed_pokemon_encounter_detail() -> PokemonEncounterDetail {
    PokemonEncounterDetail {
        chance: Some(50),
        min_level: Some(1),
        max_level: Some(10),
        method: named("walk"),
    }
}

fn get_stubbed_pokemon_encounter_version_detail() -> PokemonEncounterVersionDetail {
    PokemonEncounterVersionDetail {
        max_chance: Some(10),
        version: named("y"),
        encounter_details: Some(vec![
            get_stubbed_pokemon_encounter_detail(),
            PokemonEncounterDetail {
                chance: Some(50),
                min_level: Some(20),
                max_level: Some(40),
                method: named("headbutt"),
            },
            PokemonEncounterDetail {
                chance: Some(50),
                min_level: Some(11),
                max_level: Some(35),
                method: named("walk"),
            },
        ]),
    }
}

fn get_stubbed_pokemon_encounter() -> PokemonEncounter {
    PokemonEncounter {
        location_area: named("kanto-route-3"),
        version_details: Some(vec![
            get_stubbed_pokemon_encounter_version_detail(),
            PokemonEncounterVersionDetail {
                max_chance: Some(100),
                version: named("x"),
                encounter_details: Some(vec![PokemonEncounterDetail {
                    chance: Some(1),
                    min_level: Some(100),
                    max_level: Some(100),
                    method: named("something"),
                }]),
            },
        ]),
    }
}

#[test]
fn pokemon_encounter_version_detail_get_renderable_version() {
    let encounter_version_detail = get_stubbed_pokemon_encounter_version_detail();
    assert_eq!(encounter_version_detail.get_renderable_version(), String::from("Y"))
}

#[test]
fn pokemon_encounter_version_detail_get_renderable_methods() {
    let encounter_version_detail = get_stubbed_pokemon_encounter_version_detail();
    assert_eq!(encounter_version_detail.get_renderable_methods(), String::from("Walk, Headbutt"))
}

#[test]
fn pokemon_encounter_version_detail_get_renderable_max_chance() {
    let encounter_version_detail = get_stubbed_pokemon_encounter_version_detail();
    assert_eq!(encounter_version_detail.get_renderable_max_chance(), String::from("10"))
}

#[test]
fn pokemon_encounter_version_detail_get_renderable_levels() {
    let encounter_version_detail = get_stubbed_pokemon_encounter_version_detail();
    assert_eq!(encounter_version_detail.get_renderable_levels(), String::from("1 - 40"))
}

#[test]
fn pokemon_encounter_levels_with_missing_values() {
    let none = PokemonEncounterVersionDetail { max_chance: None, version: None, encounter_details: None };
    assert_eq!(none.get_renderable_levels(), String::from("0 - 0"));
    assert_eq!(none.get_renderable_methods(), String::new());
    assert_eq!(none.get_renderable_version(), String::new());
    let partial = PokemonEncounterVersionDetail {
        max_chance: None,
        version: None,
        encounter_details: Some(vec![
            PokemonEncounterDetail { chance: None, min_level: Some(5), max_level: None, method: None },
            PokemonEncounterDetail { chance: None, min_level: None, max_level: Some(7), method: None },
        ]),
    };
    assert_eq!(partial.get_renderable_levels(), String::from("0 - 7"));
}

#[test]
fn pokemon_encounter_get_renderable_rows() {
    let encounter = get_stubbed_pokemon_encounter();
    assert_eq!(
        encounter.get_renderable_as_rows("x-y"),
        vec![
            cells(&["\u{A0}Kanto Route 3", "Walk, Headbutt", "Y", "10", "1 - 40"]),
            cells(&["\u{A0}Kanto Route 3", "Something", "X", "100", "100 - 100"]),
        ]
    );
    assert_eq!(encounter.get_renderable_as_rows("red-blue"), Vec::<Vec<String>>::new());
}

fn get_stub_pokemon_held_item_version() -> PokemonHeldItemVersion {
    PokemonHeldItemVersion { rarity: Some(20), version: named("x") }
}

fn get_stub_pokemon_held_item() -> PokemonHeldItem {
    PokemonHeldItem {
        item: named("sharp fang"),
        version_details: Some(vec![get_stub_pokemon_held_item_version()]),
    }
}

#[test]
fn pokemon_held_item_get_renderable_as_rows() {
    let pokemon_held_item = get_stub_pokemon_held_item();
    assert_eq!(
        pokemon_held_item.get_renderable_as_rows("x-y"),
        vec![cells(&["\u{A0}Sharp fang", "20%", "X"])]
    );
}

#[test]
fn pokemon_held_item_version_get_renderable_rarity() {
    let pokemon_held_item_version = get_stub_pokemon_held_item_version();
    assert_eq!(pokemon_held_item_version.get_renderable_rarity(), String::from("20%"));
}

#[test]
fn pokemon_held_item_version_get_renderable_version() {
    let pokemon_held_item_version = get_stub_pokemon_held_item_version();
    assert_eq!(pokemon_held_item_version.get_renderable_version(), String::from("X"));
}

fn get_stub_pokedex_number() -> PokedexNumber {
    PokedexNumber { entry_number: Some(1), pokedex: named("kanto") }
}

fn get_stub_species() -> PokemonSpecies {
    PokemonSpecies {
        gender_rate: Some(4),
        capture_rate: Some(100),
        color: named("brown"),
        base_happiness: Some(50),
        is_legendary: Some(false),
        evolution_chain: None,
        flavor_text_entries: None,
        pokedex_numbers: Some(vec![get_stub_pokedex_number()]),
    }
}

#[test]
fn pokemon_species_get_renderable_is_legendary() {
    let species = get_stub_species();
    assert_eq!(species.get_renderable_is_legendary(), String::from("No"));
}

#[test]
fn pokemon_species_get_renderable_base_happiness() {
    let species = get_stub_species();
    assert_eq!(species.get_renderable_base_happiness(), String::from("50"));
}

#[test]
fn pokemon_species_get_renderable_capture_rate() {
    let species = get_stub_species();
    assert_eq!(species.get_renderable_capture_rate(), String::from("100"));
}

#[test]
fn pokemon_species_get_renderable_color() {
    let species = get_stub_species();
    assert_eq!(species.get_renderable_color(), String::from("Brown"));
}

#[test]
fn pokemon_species_get_renderable_pokedex_numbers() {
    let species = get_stub_species();
    assert_eq!(species.get_renderable_pokedex_numbers(), vec![cells(&["\u{A0}Kanto", "1"])]);
}

#[test]
fn pokemon_species_unknown_renders_empty() {
    let species = PokemonSpecies::unknown();
    assert_eq!(species.get_renderable_is_legendary(), String::new());
    assert_eq!(species.get_renderable_color(), String::new());
    assert_eq!(species.get_renderable_pokedex_numbers(), Vec::<Vec<String>>::new());
}

#[test]
fn pokedex_number_get_renderable_entry_number() {
    let pokedex_number = get_stub_pokedex_number();
    assert_eq!(pokedex_number.get_renderable_entry_number(), String::from("1"));
}

#[test]
fn pokedex_number_get_renderable_pokedex_name() {
    let pokedex_number = get_stub_pokedex_number();
    assert_eq!(pokedex_number.get_renderable_pokedex_name(), String::from("Kanto"));
}

#[test]
fn pokemon_stat_get_renderable_as_row() {
    let pokemon_stat = PokemonStat { stat: named("speed"), effort: Some(0), base_stat: Some(15) };
    assert_eq!(pokemon_stat.get_renderable_as_row(), cells(&["\u{A0}Speed: ", "15"]))
}

#[test]
fn pokemon_type_get_renderable() {
    let pokemon_type = PokemonType { slot: None, de_type: named("fairy") };
    assert_eq!(pokemon_type.get_renderable(), Some((String::from("Fairy "), (238, 153, 238))))
}

#[test]
fn pokemon_type_get_renderable_wrong_type() {
    let pokemon_type = PokemonType { slot: None, de_type: named("") };
    assert_eq!(pokemon_type.get_renderable(), None)
}

pub fn get_stub_pokemon() -> Pokemon {
    Pokemon {
        id: Some(1),
        name: Some(String::from("raichu")),
        base_experience: Some(200),
        height: Some(10),
        is_default: None,
        order: Some(1),
        weight: Some(100),
        abilities: None,
        forms: None,
        game_indices: None,
        held_items: None,
        location_area_encounters: None,
        moves: None,
        species: None,
        stats: None,
        types: Some(vec![PokemonType { slot: None, de_type: named("electric") }]),
    }
}

#[test]
fn pokemon_get_renderable_id() {
    assert_eq!(get_stub_pokemon().get_renderable_id(), String::from("1"))
}

#[test]
fn pokemon_get_renderable_order() {
    assert_eq!(get_stub_pokemon().get_renderable_order(), String::from("1"))
}

#[test]
fn pokemon_get_renderable_name() {
    assert_eq!(get_stub_pokemon().get_renderable_name(), String::from("Raichu"))
}

#[test]
fn pokemon_get_renderable_height() {
    assert_eq!(get_stub_pokemon().get_renderable_height(), String::from("10"))
}

#[test]
fn pokemon_get_renderable_weight() {
    assert_eq!(get_stub_pokemon().get_renderable_weight(), String::from("100"))
}

#[test]
fn pokemon_get_renderable_base_experience() {
    assert_eq!(get_stub_pokemon().get_renderable_base_experience(), String::from("200"))
}

#[test]
fn pokemon_get_renderable_types() {
    assert_eq!(
        get_stub_pokemon().get_renderable_types(),
        vec![(String::from("Electric "), (255, 204, 51))]
    )
}
