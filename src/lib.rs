//! A terminal browser's engine for a hierarchical REST data set: a navigable,
//! filterable selection list, the data model of the fetched resources, the
//! text each resource is shown as, the bookkeeping of a batch of concurrent
//! fetches, and the resolution of a selected entry with its sub-resources.

pub mod selection;
pub mod text;
pub mod models;
pub mod moves;
pub mod fetch;
pub mod abilities;
pub mod items;
pub mod creature;
pub mod species;
pub mod encounters;
pub mod info;
pub mod table_state;
pub mod engine;
pub mod pokemon_list;

pub use abilities::{PokemonAbility, PokemonAbilityExt};
pub use creature::{get_styled_pokemon_type, get_type_color, Pokemon, PokemonStat, PokemonType};
pub use encounters::{PokemonEncounter, PokemonEncounterDetail, PokemonEncounterVersionDetail};
pub use engine::{
    list_results, list_url, species_url, DEFAULT_LIST_QUERY_PARAMS, POKEAPI_DEFAULT_URL, App, CurrentMainPageState, DetailsRequest, RequestCounter, ResolveRequest,
    SelectedPart,
};
pub use fetch::FetchBatch;
pub use info::ExtendedPokemonInfo;
pub use items::{PokemonHeldItem, PokemonHeldItemVersion};
pub use models::{
    APIResource, FlavorTextEntry, ListWrapper, NamedApiResource, PokemonListWrapper,
    VerboseEffect, VersionGameIndex,
};
pub use moves::{MoveRow, PokemonMove, PokemonMoveExt, PokemonMoveVersion};
pub use selection::StatefulList;
pub use species::{PokedexNumber, PokemonSpecies};
pub use table_state::SwitchableTableState;
pub use text::{
    append_padding, int_text, join_texts, split_capitalize, uppercase_first_letter, PrepareForDisplay,
};
