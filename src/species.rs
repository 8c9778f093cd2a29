use vstd::prelude::*;

use crate::abilities::{yes_no, yes_no_text};
use crate::models::{number_or, number_or_empty, words_or, words_or_empty, APIResource, FlavorTextEntry, NamedApiResource};
use crate::text::{append_padding, PADDING};

verus! {

/// A creature's number in one regional index.
#[derive(Debug)]
pub struct PokedexNumber {
    pub entry_number: Option<i32>,
    pub pokedex: Option<NamedApiResource>,
}

impl PokedexNumber {
    /// The number, or the empty string.
    pub fn get_renderable_entry_number(&self) -> (r: String)
        ensures
            r@ == number_or(self.entry_number, Seq::empty()),
    {
        number_or_empty(self.entry_number)
    }

    /// The index's name as capitalized words, or the empty string.
    pub fn get_renderable_pokedex_name(&self) -> (r: String)
        ensures
            r@ == words_or(self.pokedex, Seq::empty()),
    {
        words_or_empty(&self.pokedex)
    }
}

/// The species a creature belongs to.
#[derive(Debug)]
pub struct PokemonSpecies {
    pub gender_rate: Option<i32>,
    pub capture_rate: Option<i32>,
    pub color: Option<NamedApiResource>,
    pub base_happiness: Option<i32>,
    pub is_legendary: Option<bool>,
    pub evolution_chain: Option<APIResource>,
    pub flavor_text_entries: Option<Vec<FlavorTextEntry>>,
    pub pokedex_numbers: Option<Vec<PokedexNumber>>,
}

/// The cells of a row of the regional numbers.
pub open spec fn pokedex_row(p: PokedexNumber) -> Seq<Seq<char>> {
    seq![seq![PADDING] + words_or(p.pokedex, Seq::empty()), number_or(p.entry_number, Seq::empty())]
}

/// Whether nothing is known of a species.
pub open spec fn is_unknown(s: PokemonSpecies) -> bool {
    &&& s.gender_rate is None && s.capture_rate is None && s.color is None
    &&& s.base_happiness is None && s.is_legendary is None
    &&& s.evolution_chain is None && s.flavor_text_entries is None
    &&& s.pokedex_numbers is None
}

impl PokemonSpecies {
    /// A species of which nothing is known.
    pub fn unknown() -> (r: Self)
        ensures
            is_unknown(r),
    {
        PokemonSpecies {
            gender_rate: None,
            capture_rate: None,
            color: None,
            base_happiness: None,
            is_legendary: None,
            evolution_chain: None,
            flavor_text_entries: None,
            pokedex_numbers: None,
        }
    }

    /// `Yes` or `No`, or the empty string where it is not known.
    pub fn get_renderable_is_legendary(&self) -> (r: String)
        ensures
            r@ == match self.is_legendary {
                Some(b) => yes_no(b),
                None => Seq::empty(),
            },
    {
        match self.is_legendary {
            Some(b) => yes_no_text(b),
            None => String::new(),
        }
    }

    /// The base happiness, or the empty string.
    pub fn get_renderable_base_happiness(&self) -> (r: String)
        ensures
            r@ == number_or(self.base_happiness, Seq::empty()),
    {
        number_or_empty(self.base_happiness)
    }

    /// The capture rate, or the empty string.
    pub fn get_renderable_capture_rate(&self) -> (r: String)
        ensures
            r@ == number_or(self.capture_rate, Seq::empty()),
    {
        number_or_empty(self.capture_rate)
    }

    /// The colour's name as capitalized words, or the empty string.
    pub fn get_renderable_color(&self) -> (r: String)
        ensures
            r@ == words_or(self.color, Seq::empty()),
    {
        words_or_empty(&self.color)
    }

    /// One row per regional number, in order: the index's name as a label,
    /// and the number.
    pub fn get_renderable_pokedex_numbers(&self) -> (r: Vec<Vec<String>>)
        ensures
            r@.map_values(|row: Vec<String>| row@.map_values(|c: String| c@)) == match self.pokedex_numbers {
                Some(ps) => ps@.map_values(|p: PokedexNumber| pokedex_row(p)),
                None => Seq::empty(),
            },
    {
        let mut r: Vec<Vec<String>> = Vec::new();
        match &self.pokedex_numbers {
            None => {},
            Some(ps) => {
                let mut i: usize = 0;
                while i < ps.len()
                    invariant
                        i <= ps@.len(),
                        r@.map_values(|row: Vec<String>| row@.map_values(|c: String| c@))
                            == ps@.take(i as int).map_values(|p: PokedexNumber| pokedex_row(p)),
                    decreases ps@.len() - i,
                {
                    let p = &ps[i];
                    let mut row: Vec<String> = Vec::new();
                    row.push(append_padding(p.get_renderable_pokedex_name().as_str()));
                    row.push(p.get_renderable_entry_number());
                    assert(row@.map_values(|c: String| c@) =~= pokedex_row(*p));
                    let ghost prior = ps@.take(i as int).map_values(|p: PokedexNumber| pokedex_row(p));
                    r.push(row);
                    assert(r@.map_values(|row: Vec<String>| row@.map_values(|c: String| c@))
                        =~= prior.push(pokedex_row(*p)));
                    assert(ps@.take(i + 1).map_values(|p: PokedexNumber| pokedex_row(p))
                        =~= prior.push(pokedex_row(*p)));
                    i = i + 1;
                }
                assert(ps@.take(ps@.len() as int) =~= ps@);
            },
        }
        r
    }
}

} // verus!
