use pokedex::{
    species_url, App, CurrentMainPageState, ExtendedPokemonInfo, FetchBatch, NamedApiResource,
    Pokemon, PokemonAbility, PokemonAbilityExt, PokemonMove, PokemonSpecies, PokemonType,
    SelectedPart, VerboseEffect,
};

fn entry(name: &str) -> NamedApiResource {
    NamedApiResource {
        name: Some(String::from(name)),
        url: Some(format!("https://pokeapi.co/api/v2/pokemon/{}/", name)),
    }
}

fn catalogue(names: &[&str]) -> Vec<NamedApiResource> {
    names.iter().map(|n| entry(n)).collect()
}

fn visible_names(app: &App) -> Vec<String> {
    (0..app.pokemon_list.visible_len())
        .map(|k| app.pokemon_list.visible_at(k).get_name_or_stub())
        .collect()
}

fn creature(name: &str, abilities: &[&str]) -> Pokemon {
    Pokemon {
        id: Some(1),
        name: Some(String::from(name)),
        base_experience: None,
        height: None,
        is_default: None,
        order: None,
        weight: None,
        abilities: Some(
            abilities
                .iter()
                .map(|a| PokemonAbility {
                    is_hidden: Some(false),
                    slot: None,
                    ability: Some(NamedApiResource {
                        name: Some(String::from(*a)),
                        url: Some(format!("https://pokeapi.co/api/v2/ability/{}/", a)),
                    }),
                })
                .collect(),
        ),
        forms: None,
        game_indices: None,
        held_items: None,
        location_area_encounters: Some(String::from("https://pokeapi.co/api/v2/pokemon/25/encounters")),
        moves: Some(vec![PokemonMove {
            de_move: Some(NamedApiResource {
                name: Some(String::from("thunder-shock")),
                url: Some(String::from("https://pokeapi.co/api/v2/move/84/")),
            }),
            version_group_details: None,
        }]),
        species: Some(NamedApiResource {
            name: Some(String::from(name)),
            url: Some(String::from("https://pokeapi.co/api/v2/pokemon-species/25/")),
        }),
        stats: None,
        types: Some(vec![PokemonType {
            slot: Some(1),
            de_type: Some(NamedApiResource { name: Some(String::from("electric")), url: None }),
        }]),
    }
}

fn ability_details(name: &str) -> PokemonAbilityExt {
    PokemonAbilityExt {
        id: None,
        name: Some(String::from(name)),
        effect_entries: Some(vec![VerboseEffect {
            effect: None,
            short_effect: Some(format!("{} effect", name)),
            language: Some(NamedApiResource { name: Some(String::from("en")), url: None }),
        }]),
        flavor_text_entries: None,
    }
}

fn loaded_app() -> App {
    let mut app = App::new();
    app.set_pokemon_list_and_version_groups(
        catalogue(&["bulbasaur", "ivysaur", "venusaur"]),
        catalogue(&["red-blue", "x-y"]),
    );
    app
}

#[test]
fn search_filters_catalogue_and_next_is_no_op_on_single_match() {
    let mut app = loaded_app();
    for c in "ivy".chars() {
        app.on_search_append(c);
    }
    assert_eq!(visible_names(&app), vec![String::from("ivysaur")]);
    assert_eq!(app.pokemon_list.selected(), Some(0));
    app.pokemon_list.next();
    assert_eq!(app.pokemon_list.selected(), Some(0));
    app.pokemon_list.previous();
    assert_eq!(app.pokemon_list.selected(), Some(0));
}

#[test]
fn search_ignores_case_and_removal_widens_again() {
    let mut app = loaded_app();
    for c in "SAUR".chars() {
        app.on_search_append(c);
    }
    assert_eq!(visible_names(&app).len(), 3);
    app.on_search_append('x');
    assert_eq!(visible_names(&app).len(), 0);
    assert_eq!(app.pokemon_list.selected(), None);
    app.on_search_remove();
    assert_eq!(app.search, String::from("SAUR"));
    assert_eq!(visible_names(&app).len(), 3);
    assert_eq!(app.pokemon_list.all_len(), 3);
}

#[test]
fn search_remove_on_empty_text_shows_everything() {
    let mut app = loaded_app();
    app.on_search_remove();
    assert_eq!(app.search, String::new());
    assert_eq!(visible_names(&app), vec![
        String::from("bulbasaur"),
        String::from("ivysaur"),
        String::from("venusaur")
    ]);
}

#[test]
fn resolving_applies_creature_and_fills_species() {
    let mut app = loaded_app();
    let req = app.on_pokemon_selected().unwrap();
    assert_eq!(req.url, String::from("https://pokeapi.co/api/v2/pokemon/bulbasaur/"));
    assert!(app.loading);
    assert!(app.current_pokemon.is_none());
    let p = creature("bulbasaur", &["overgrow"]);
    assert_eq!(
        species_url(&p),
        Some(String::from("https://pokeapi.co/api/v2/pokemon-species/25/"))
    );
    app.apply_pokemon(req.ticket, Some(p), None);
    assert!(!app.loading);
    assert_eq!(app.selected_part, SelectedPart::Main);
    let info = app.current_pokemon.as_ref().unwrap();
    assert_eq!(info.pokemon.get_renderable_name(), String::from("Bulbasaur"));
    assert_eq!(info.species.get_renderable_capture_rate(), String::new());
}

#[test]
fn failed_primary_fetch_leaves_nothing_on_show() {
    let mut app = loaded_app();
    let req = app.on_pokemon_selected().unwrap();
    app.apply_pokemon(req.ticket, None, None);
    assert!(app.current_pokemon.is_none());
    assert!(!app.loading);
}

#[test]
fn selection_without_address_requests_nothing() {
    let mut app = App::new();
    app.set_pokemon_list_and_version_groups(
        vec![NamedApiResource { name: Some(String::from("missingno")), url: None }],
        Vec::new(),
    );
    assert!(app.on_pokemon_selected().is_none());
    assert!(!app.loading);
    let mut empty = App::new();
    assert!(empty.on_pokemon_selected().is_none());
}

#[test]
fn only_the_latest_resolve_is_applied() {
    let mut app = loaded_app();
    let first = app.on_pokemon_selected().unwrap();
    app.pokemon_list.next();
    let second = app.on_pokemon_selected().unwrap();
    assert!(second.ticket > first.ticket);
    app.apply_pokemon(second.ticket, Some(creature("ivysaur", &[])), None);
    app.apply_pokemon(first.ticket, Some(creature("bulbasaur", &[])), None);
    let shown = app.current_pokemon.as_ref().unwrap();
    assert_eq!(shown.pokemon.get_renderable_name(), String::from("Ivysaur"));

    let mut other = loaded_app();
    let first = other.on_pokemon_selected().unwrap();
    other.pokemon_list.next();
    let second = other.on_pokemon_selected().unwrap();
    other.apply_pokemon(first.ticket, Some(creature("bulbasaur", &[])), None);
    assert!(other.current_pokemon.is_none());
    assert!(other.loading);
    other.apply_pokemon(second.ticket, Some(creature("ivysaur", &[])), None);
    let shown = other.current_pokemon.as_ref().unwrap();
    assert_eq!(shown.pokemon.get_renderable_name(), String::from("Ivysaur"));
}

#[test]
fn partial_ability_batch_is_matched_by_name() {
    let mut app = loaded_app();
    let req = app.on_pokemon_selected().unwrap();
    app.apply_pokemon(req.ticket, Some(creature("pikachu", &["static", "lightning-rod"])), None);
    app.on_version_group_selected();
    assert_eq!(app.current_main_page_state, CurrentMainPageState::BasicInfo);
    let details = app.on_moves_and_abilities_open().unwrap();
    assert_eq!(
        details.ability_urls,
        vec![
            String::from("https://pokeapi.co/api/v2/ability/static/"),
            String::from("https://pokeapi.co/api/v2/ability/lightning-rod/")
        ]
    );
    assert_eq!(details.move_urls, vec![String::from("https://pokeapi.co/api/v2/move/84/")]);

    let mut batch: FetchBatch<PokemonAbilityExt> = FetchBatch::new(details.ability_urls.clone());
    while batch.next_request().is_some() {}
    batch.complete(1, Some(ability_details("lightning-rod")));
    batch.complete(0, None);
    assert!(batch.is_done());
    let abilities = batch.into_results();
    assert_eq!(abilities.len(), 1);

    app.apply_details(details.ticket, abilities, Vec::new(), Vec::new());
    assert!(!app.loading);
    let info: &ExtendedPokemonInfo = app.current_pokemon.as_ref().unwrap();
    assert_eq!(info.abilities.len(), 1);
    assert_eq!(
        info.get_renderable_abilities(),
        vec![vec![
            String::from("\u{A0}Lightning Rod"),
            String::from("lightning-rod effect"),
            String::from("No")
        ]]
    );
    assert!(app.on_moves_and_abilities_open().is_none());
}

#[test]
fn stale_details_are_dropped() {
    let mut app = loaded_app();
    let req = app.on_pokemon_selected().unwrap();
    app.apply_pokemon(req.ticket, Some(creature("pikachu", &["static"])), Some(PokemonSpecies::unknown()));
    let details = app.on_moves_and_abilities_open().unwrap();
    let again = app.on_pokemon_selected().unwrap();
    app.apply_details(details.ticket, vec![ability_details("static")], Vec::new(), Vec::new());
    assert!(app.current_pokemon.is_none());
    assert!(again.ticket > details.ticket);
}

#[test]
fn reset_returns_to_the_list() {
    let mut app = loaded_app();
    let req = app.on_pokemon_selected().unwrap();
    app.apply_pokemon(req.ticket, Some(creature("bulbasaur", &[])), None);
    app.on_version_group_selected();
    assert!(app.selected_version_group.is_some());
    app.reset_current_pokemon();
    assert!(app.current_pokemon.is_none());
    assert!(app.selected_version_group.is_none());
    assert_eq!(app.selected_part, SelectedPart::List);
    assert_eq!(app.current_main_page_state, CurrentMainPageState::VersionGroupSelection);
}

#[test]
fn listing_address_and_results() {
    assert_eq!(
        pokedex::list_url("pokemon"),
        String::from("https://pokeapi.co/api/v2/pokemon?limit=100000&offset=0")
    );
    assert_eq!(pokedex::list_results(None).len(), 0);
    let empty_page = pokedex::ListWrapper { count: Some(0), results: None };
    assert_eq!(pokedex::list_results(Some(empty_page)).len(), 0);
    let page = pokedex::ListWrapper { count: Some(2), results: Some(catalogue(&["a", "b"])) };
    let entries = pokedex::list_results(Some(page));
    assert_eq!(entries.len(), 2);
    assert_eq!(entries[1].get_name_or_stub(), String::from("b"));
}

#[test]
fn references_without_address_are_not_requested() {
    let mut app = loaded_app();
    let req = app.on_pokemon_selected().unwrap();
    let mut p = creature("pikachu", &["static", "lightning-rod"]);
    if let Some(abilities) = p.abilities.as_mut() {
        abilities[0].ability.as_mut().unwrap().url = None;
        abilities.push(PokemonAbility { is_hidden: None, slot: None, ability: None });
    }
    app.apply_pokemon(req.ticket, Some(p), None);
    let details = app.on_moves_and_abilities_open().unwrap();
    assert_eq!(
        details.ability_urls,
        vec![String::from("https://pokeapi.co/api/v2/ability/lightning-rod/")]
    );
}

#[test]
fn no_creature_under_cursor_changes_nothing() {
    let mut app = App::new();
    app.on_search_append('z');
    assert!(app.on_pokemon_selected().is_none());
    assert_eq!(app.selected_part, SelectedPart::List);
    assert!(app.on_moves_and_abilities_open().is_none());
    assert!(!app.loading);
    assert_eq!(app.rendered_moves_count, None);
}

#[test]
fn details_keep_lists_page_and_cleared_row() {
    let mut app = loaded_app();
    let req = app.on_pokemon_selected().unwrap();
    app.apply_pokemon(req.ticket, Some(creature("pikachu", &["static"])), None);
    app.version_groups.next();
    app.on_version_group_selected();
    assert_eq!(app.version_groups.selected(), Some(1));
    assert_eq!(app.pokemon_list.visible_len(), 3);
    let details = app.on_moves_and_abilities_open().unwrap();
    app.apply_details(details.ticket, vec![ability_details("static")], Vec::new(), Vec::new());
    assert_eq!(app.pokemon_moves_list_state.get_selected(), None);
    assert_eq!(app.current_main_page_state, CurrentMainPageState::BasicInfo);
    assert_eq!(app.selected_version_group.as_ref().unwrap().get_name_or_stub(), String::from("x-y"));
    assert_eq!(app.search, String::new());
    assert_eq!(app.version_groups.visible_len(), 2);
}
