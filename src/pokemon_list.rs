use vstd::prelude::*;

verus! {

/// An entry of the listing of creatures: its name and address.
#[derive(Debug)]
pub struct PokemonFromList {
    pub name: Option<String>,
    pub url: Option<String>,
}

/// One page of the listing of creatures, by their list entries.
#[derive(Debug)]
pub struct PokemonListWrapper {
    pub count: Option<i32>,
    pub results: Option<Vec<PokemonFromList>>,
}

} // verus!
