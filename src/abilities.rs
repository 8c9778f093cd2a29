use vstd::prelude::*;

use crate::models::{
    effect_entry_text, first_english_effect, label, label_text, FlavorTextEntry, NamedApiResource,
    VerboseEffect,
};
use crate::text::string_of;

verus! {

/// `Yes` or `No`.
pub open spec fn yes_no(b: bool) -> Seq<char> {
    if b { seq!['Y', 'e', 's'] } else { seq!['N', 'o'] }
}

pub(crate) fn yes_no_text(b: bool) -> (r: String)
    ensures
        r@ == yes_no(b),
{
    if b {
        string_of(&vec!['Y', 'e', 's'])
    } else {
        string_of(&vec!['N', 'o'])
    }
}

/// One of a creature's abilities, as its own resource refers to it.
#[derive(Debug)]
pub struct PokemonAbility {
    pub is_hidden: Option<bool>,
    pub slot: Option<i32>,
    pub ability: Option<NamedApiResource>,
}

/// Whether an ability is hidden; not, where that is not known.
pub open spec fn hidden(a: PokemonAbility) -> bool {
    a.is_hidden == Some(true)
}

impl PokemonAbility {
    /// `Yes` for a hidden ability, else `No`.
    pub fn get_renderable_is_hidden(&self) -> (r: String)
        ensures
            r@ == yes_no(hidden(*self)),
    {
        yes_no_text(match self.is_hidden {
            Some(b) => b,
            None => false,
        })
    }

    /// The cells of the ability's row: its name, its effect and whether it is
    /// hidden. None where the ability's details were not fetched.
    pub fn get_renderable_as_row(&self, extended_ability: Option<&PokemonAbilityExt>) -> (r:
        Option<Vec<String>>)
        ensures
            r.is_some() == extended_ability.is_some(),
            r matches Some(cells) ==> cells@.map_values(|c: String| c@) == ability_row(
                *self,
                *extended_ability.unwrap(),
            ),
    {
        match extended_ability {
            None => None,
            Some(e) => {
                let mut cells: Vec<String> = Vec::new();
                cells.push(e.get_renderable_name());
                cells.push(e.get_renderable_effect_entry());
                cells.push(self.get_renderable_is_hidden());
                assert(cells@.map_values(|c: String| c@) =~= ability_row(*self, *e));
                Some(cells)
            },
        }
    }
}

/// The cells of an ability's row.
pub open spec fn ability_row(a: PokemonAbility, e: PokemonAbilityExt) -> Seq<Seq<char>> {
    seq![label_text(e.name), effect_entry_text(e.effect_entries), yes_no(hidden(a))]
}

/// The details of an ability, as fetched on their own.
#[derive(Debug)]
pub struct PokemonAbilityExt {
    pub id: Option<i32>,
    pub name: Option<String>,
    pub effect_entries: Option<Vec<VerboseEffect>>,
    pub flavor_text_entries: Option<Vec<FlavorTextEntry>>,
}

impl PokemonAbilityExt {
    /// The name as a label: capitalized words behind a no-break space.
    pub fn get_renderable_name(&self) -> (r: String)
        ensures
            r@ == label_text(self.name),
    {
        label(&self.name)
    }

    /// The short effect of the first English effect entry, or the empty string.
    pub fn get_renderable_effect_entry(&self) -> (r: String)
        ensures
            r@ == effect_entry_text(self.effect_entries),
    {
        first_english_effect(&self.effect_entries)
    }
}

} // verus!
