use pokedex::{
    ExtendedPokemonInfo, MoveRow, NamedApiResource, Pokemon, PokemonAbility, PokemonAbilityExt,
    PokemonHeldItem, PokemonHeldItemVersion, PokemonMove, PokemonMoveExt, PokemonMoveVersion,
    PokemonSpecies, PokemonStat, PokemonType, VerboseEffect,
};

fn named(name: &str) -> Option<NamedApiResource> {
    Some(NamedApiResource { name: Some(String::from(name)), url: None })
}

fn short_english(text: &str) -> Option<Vec<VerboseEffect>> {
    Some(vec![VerboseEffect {
        effect: None,
        short_effect: Some(String::from(text)),
        language: named("en"),
    }])
}

fn learnt(level: i32, method: &str, group: &str) -> PokemonMoveVersion {
    PokemonMoveVersion {
        level_learned_at: Some(level),
        move_learn_method: named(method),
        version_group: named(group),
    }
}

fn move_details(name: &str, damage_class: &str) -> PokemonMoveExt {
    PokemonMoveExt {
        id: Some(1),
        name: Some(String::from(name)),
        accuracy: Some(100),
        pp: Some(20),
        power: Some(60),
        pk_type: named("normal"),
        flavor_text_entries: None,
        effect_entries: short_english("short effect"),
        damage_class: named(damage_class),
    }
}

fn row(cells: &[&str]) -> Vec<String> {
    cells.iter().map(|s| String::from(*s)).collect()
}

fn normal_move(cells: &[&str]) -> MoveRow {
    MoveRow { cells: row(cells), type_color: Some((170, 170, 153)) }
}

fn get_stub_extended_pokemon_info() -> ExtendedPokemonInfo {
    ExtendedPokemonInfo {
        pokemon: Pokemon {
            id: Some(1),
            name: Some(String::from("raichu")),
            base_experience: Some(200),
            height: Some(10),
            is_default: None,
            order: Some(1),
            weight: Some(100),
            abilities: Some(vec![PokemonAbility {
                is_hidden: Some(true),
                slot: None,
                ability: named("guts"),
            }]),
            forms: None,
            game_indices: None,
            held_items: Some(vec![PokemonHeldItem {
                item: named("sharp fang"),
                version_details: Some(vec![PokemonHeldItemVersion {
                    rarity: Some(20),
                    version: named("x-y"),
                }]),
            }]),
            location_area_encounters: None,
            moves: Some(vec![
                PokemonMove {
                    de_move: named("swift"),
                    version_group_details: Some(vec![learnt(25, "level up", "x-y")]),
                },
                PokemonMove {
                    de_move: named("pound"),
                    version_group_details: Some(vec![learnt(0, "egg", "x-y")]),
                },
            ]),
            species: None,
            stats: Some(vec![PokemonStat {
                effort: Some(0),
                base_stat: Some(15),
                stat: named("speed"),
            }]),
            types: Some(vec![PokemonType { slot: None, de_type: named("electric") }]),
        },
        abilities: vec![PokemonAbilityExt {
            id: Some(1),
            name: Some(String::from("guts")),
            effect_entries: short_english("short effect"),
            flavor_text_entries: None,
        }],
        moves: vec![move_details("swift", "special"), move_details("pound", "physical")],
        species: PokemonSpecies {
            gender_rate: Some(4),
            capture_rate: Some(100),
            color: named("brown"),
            base_happiness: Some(50),
            is_legendary: Some(false),
            evolution_chain: None,
            flavor_text_entries: None,
            pokedex_numbers: None,
        },
        encounters: vec![],
    }
}

#[test]
fn extended_pokemon_info_get_renderable_abilities() {
    let extended_pokemon_info = get_stub_extended_pokemon_info();
    assert_eq!(
        extended_pokemon_info.get_renderable_abilities(),
        vec![row(&["\u{A0}Guts", "short effect", "Yes"])]
    )
}

#[test]
fn extended_pokemon_info_get_renderable_basic_info_items() {
    let extended_pokemon_info = get_stub_extended_pokemon_info();
    assert_eq!(
        extended_pokemon_info.get_renderable_basic_info_items(),
        vec![
            row(&["\u{A0}ID", "1"]),
            row(&["\u{A0}Order", "1"]),
            row(&["\u{A0}Name", "Raichu"]),
            row(&["\u{A0}Types", "Electric "]),
            row(&["\u{A0}Height", "10"]),
            row(&["\u{A0}Weight", "100"]),
            row(&["\u{A0}Base Experience", "200"]),
            row(&["\u{A0}Base Happiness", "50"]),
            row(&["\u{A0}Capture Rate", "100"]),
            row(&["\u{A0}Color", "Brown"]),
            row(&["\u{A0}Is Legendary", "No"]),
        ]
    )
}

#[test]
fn extended_pokemon_info_get_renderable_moves() {
    let extended_pokemon_info = get_stub_extended_pokemon_info();
    assert_eq!(
        extended_pokemon_info.get_renderable_moves("x-y"),
        vec![
            normal_move(&[
                "\u{A0}Pound",
                "100",
                "20",
                "60",
                "Normal ",
                "Physical",
                "Egg",
                "0",
                "short effect",
            ]),
            normal_move(&[
                "\u{A0}Swift",
                "100",
                "20",
                "60",
                "Normal ",
                "Special",
                "Level up",
                "25",
                "short effect",
            ]),
        ]
    )
}

#[test]
fn moves_order_by_level_then_method_and_skip_unfetched() {
    let mut info = get_stub_extended_pokemon_info();
    info.pokemon.moves = Some(vec![
        PokemonMove {
            de_move: named("tackle"),
            version_group_details: Some(vec![learnt(5, "tutor", "x-y")]),
        },
        PokemonMove {
            de_move: named("swift"),
            version_group_details: Some(vec![
                learnt(9, "machine", "red-blue"),
                learnt(5, "level up", "x-y"),
            ]),
        },
        PokemonMove {
            de_move: named("pound"),
            version_group_details: Some(vec![learnt(1, "egg", "red-blue")]),
        },
        PokemonMove { de_move: named("growl"), version_group_details: None },
    ]);
    info.moves.push(move_details("tackle", "physical"));
    let rows = info.get_renderable_moves("x-y");
    assert_eq!(rows.len(), 2);
    assert_eq!(rows[0].cells[0], String::from("\u{A0}Swift"));
    assert_eq!(rows[0].cells[6], String::from("Level up"));
    assert_eq!(rows[1].cells[0], String::from("\u{A0}Tackle"));
    assert_eq!(rows[1].cells[6], String::from("Tutor"));
    info.moves.clear();
    assert_eq!(info.get_renderable_moves("x-y"), Vec::<MoveRow>::new());
}

#[test]
fn abilities_without_fetched_details_are_left_out() {
    let mut info = get_stub_extended_pokemon_info();
    info.abilities.clear();
    assert_eq!(info.get_renderable_abilities(), Vec::<Vec<String>>::new());
    info.pokemon.abilities = None;
    assert_eq!(info.get_renderable_abilities(), Vec::<Vec<String>>::new());
}

#[test]
fn move_row_of_unknown_type_has_no_colour() {
    let mut details = move_details("struggle", "physical");
    details.pk_type = named("shadow");
    let pokemon_move = PokemonMove { de_move: named("struggle"), version_group_details: None };
    let shown = pokemon_move.get_renderable_as_row(Some(&details), &learnt(1, "egg", "x-y")).unwrap();
    assert_eq!(shown.cells[4], String::new());
    assert_eq!(shown.type_color, None);
}
