use vstd::prelude::*;

use crate::abilities::PokemonAbility;
use crate::items::PokemonHeldItem;
use crate::models::{name_of, number_or, number_or_empty, same_text, NamedApiResource, VersionGameIndex};
use crate::moves::PokemonMove;
use crate::text::{chars_of, split_capitalize, split_capitalized, string_of, PADDING};

verus! {

/// The colour, as red, green and blue, in which a type of that name is shown.
pub open spec fn type_color(name: Seq<char>) -> Option<(u8, u8, u8)> {
    if name == "normal"@ { Some((170u8, 170u8, 153u8)) }
    else if name == "fire"@ { Some((255u8, 68u8, 34u8)) }
    else if name == "water"@ { Some((51u8, 153u8, 255u8)) }
    else if name == "electric"@ { Some((255u8, 204u8, 51u8)) }
    else if name == "grass"@ { Some((119u8, 204u8, 85u8)) }
    else if name == "ice"@ { Some((102u8, 204u8, 255u8)) }
    else if name == "fighting"@ { Some((197u8, 85u8, 68u8)) }
    else if name == "poison"@ { Some((170u8, 85u8, 153u8)) }
    else if name == "ground"@ { Some((221u8, 187u8, 85u8)) }
    else if name == "flying"@ { Some((136u8, 153u8, 255u8)) }
    else if name == "psychic"@ { Some((255u8, 85u8, 153u8)) }
    else if name == "bug"@ { Some((170u8, 187u8, 34u8)) }
    else if name == "rock"@ { Some((187u8, 170u8, 32u8)) }
    else if name == "ghost"@ { Some((102u8, 102u8, 187u8)) }
    else if name == "dragon"@ { Some((119u8, 102u8, 238u8)) }
    else if name == "dark"@ { Some((119u8, 85u8, 68u8)) }
    else if name == "steel"@ { Some((170u8, 170u8, 187u8)) }
    else if name == "fairy"@ { Some((238u8, 153u8, 238u8)) }
    else { None }
}

/// The colour of a type by its name.
pub fn get_type_color(name: &str) -> (r: Option<(u8, u8, u8)>)
    ensures
        r == type_color(name@),
{
    if same_text(name, "normal") { Some((170, 170, 153)) }
    else if same_text(name, "fire") { Some((255, 68, 34)) }
    else if same_text(name, "water") { Some((51, 153, 255)) }
    else if same_text(name, "electric") { Some((255, 204, 51)) }
    else if same_text(name, "grass") { Some((119, 204, 85)) }
    else if same_text(name, "ice") { Some((102, 204, 255)) }
    else if same_text(name, "fighting") { Some((197, 85, 68)) }
    else if same_text(name, "poison") { Some((170, 85, 153)) }
    else if same_text(name, "ground") { Some((221, 187, 85)) }
    else if same_text(name, "flying") { Some((136, 153, 255)) }
    else if same_text(name, "psychic") { Some((255, 85, 153)) }
    else if same_text(name, "bug") { Some((170, 187, 34)) }
    else if same_text(name, "rock") { Some((187, 170, 32)) }
    else if same_text(name, "ghost") { Some((102, 102, 187)) }
    else if same_text(name, "dragon") { Some((119, 102, 238)) }
    else if same_text(name, "dark") { Some((119, 85, 68)) }
    else if same_text(name, "steel") { Some((170, 170, 187)) }
    else if same_text(name, "fairy") { Some((238, 153, 238)) }
    else { None }
}

/// How a type is shown: its name as capitalized words followed by a space,
/// in the type's colour; nothing for a name that is no type.
pub open spec fn styled_type(name: Seq<char>) -> Option<(Seq<char>, (u8, u8, u8))> {
    match type_color(name) {
        Some(c) => Some((split_capitalized(name.push(' ')), c)),
        None => None,
    }
}

/// The text and colour in which the type of that name is shown; none for a
/// name that is no type.
pub fn get_styled_pokemon_type(name: &str) -> (r: Option<(String, (u8, u8, u8))>)
    ensures
        r.is_some() == styled_type(name@).is_some(),
        r matches Some(p) ==> (p.0@, p.1) == styled_type(name@).unwrap(),
{
    match get_type_color(name) {
        Some(c) => {
            let mut v = chars_of(name);
            v.push(' ');
            let spaced = string_of(&v);
            Some((split_capitalize(spaced.as_str()), c))
        },
        None => None,
    }
}

/// One of a creature's types.
#[derive(Debug)]
pub struct PokemonType {
    pub slot: Option<i32>,
    pub de_type: Option<NamedApiResource>,
}

impl PokemonType {
    /// The text and colour in which this type is shown; none where it is
    /// missing or no known type.
    pub fn get_renderable(&self) -> (r: Option<(String, (u8, u8, u8))>)
        ensures
            r.is_some() == (self.de_type matches Some(t) && t.name matches Some(n)
                && styled_type(n@).is_some()),
            r matches Some(p) ==> (p.0@, p.1) == styled_type(name_of(self.de_type)).unwrap(),
    {
        match &self.de_type {
            Some(t) => match &t.name {
                Some(n) => get_styled_pokemon_type(n.as_str()),
                None => None,
            },
            None => None,
        }
    }
}

/// The shown form of a stat's name: a label followed by a colon and a space.
pub open spec fn stat_label(o: Option<NamedApiResource>) -> Seq<char> {
    match o {
        Some(r) => match r.name {
            Some(n) => seq![PADDING] + split_capitalized(n@) + seq![':', ' '],
            None => Seq::empty(),
        },
        None => Seq::empty(),
    }
}

/// One base stat of a creature.
#[derive(Debug)]
pub struct PokemonStat {
    pub stat: Option<NamedApiResource>,
    pub effort: Option<i32>,
    pub base_stat: Option<i32>,
}

impl PokemonStat {
    /// The cells of the stat's row: its name as a label, and its base value.
    pub fn get_renderable_as_row(&self) -> (r: Vec<String>)
        ensures
            r@.map_values(|c: String| c@) == seq![
                stat_label(self.stat),
                number_or(self.base_stat, Seq::empty()),
            ],
    {
        let name = match &self.stat {
            Some(s) => match &s.name {
                Some(n) => {
                    let mut v: Vec<char> = Vec::new();
                    v.push(PADDING);
                    let words = chars_of(split_capitalize(n.as_str()).as_str());
                    let mut i: usize = 0;
                    while i < words.len()
                        invariant
                            i <= words@.len(),
                            v@ == seq![PADDING] + words@.take(i as int),
                        decreases words@.len() - i,
                    {
                        v.push(words[i]);
                        i = i + 1;
                        assert(v@ =~= seq![PADDING] + words@.take(i as int));
                    }
                    assert(words@.take(words@.len() as int) =~= words@);
                    v.push(':');
                    v.push(' ');
                    assert(v@ =~= seq![PADDING] + split_capitalized(n@) + seq![':', ' ']);
                    string_of(&v)
                },
                None => String::new(),
            },
            None => String::new(),
        };
        let mut r: Vec<String> = Vec::new();
        r.push(name);
        r.push(number_or_empty(self.base_stat));
        assert(r@.map_values(|c: String| c@) =~= seq![
            stat_label(self.stat),
            number_or(self.base_stat, Seq::empty()),
        ]);
        r
    }
}

/// A creature, as the primary resource of a selection.
#[derive(Debug)]
pub struct Pokemon {
    pub id: Option<i32>,
    pub name: Option<String>,
    pub base_experience: Option<i32>,
    pub height: Option<i32>,
    pub is_default: Option<bool>,
    pub order: Option<i32>,
    pub weight: Option<i32>,
    pub abilities: Option<Vec<PokemonAbility>>,
    pub forms: Option<Vec<NamedApiResource>>,
    pub game_indices: Option<Vec<VersionGameIndex>>,
    pub held_items: Option<Vec<PokemonHeldItem>>,
    pub location_area_encounters: Option<String>,
    pub moves: Option<Vec<PokemonMove>>,
    pub species: Option<NamedApiResource>,
    pub stats: Option<Vec<PokemonStat>>,
    pub types: Option<Vec<PokemonType>>,
}

/// A name shown as capitalized words, or nothing.
pub open spec fn words_text(o: Option<String>) -> Seq<char> {
    match o {
        Some(n) => split_capitalized(n@),
        None => Seq::empty(),
    }
}

impl Pokemon {
    /// The number, or the empty string.
    pub fn get_renderable_id(&self) -> (r: String)
        ensures
            r@ == number_or(self.id, Seq::empty()),
    {
        number_or_empty(self.id)
    }

    /// The position in the national order, or the empty string.
    pub fn get_renderable_order(&self) -> (r: String)
        ensures
            r@ == number_or(self.order, Seq::empty()),
    {
        number_or_empty(self.order)
    }

    /// The name as capitalized words, or the empty string.
    pub fn get_renderable_name(&self) -> (r: String)
        ensures
            r@ == words_text(self.name),
    {
        match &self.name {
            Some(n) => split_capitalize(n.as_str()),
            None => String::new(),
        }
    }

    /// The height, or the empty string.
    pub fn get_renderable_height(&self) -> (r: String)
        ensures
            r@ == number_or(self.height, Seq::empty()),
    {
        number_or_empty(self.height)
    }

    /// The weight, or the empty string.
    pub fn get_renderable_weight(&self) -> (r: String)
        ensures
            r@ == number_or(self.weight, Seq::empty()),
    {
        number_or_empty(self.weight)
    }

    /// The base experience, or the empty string.
    pub fn get_renderable_base_experience(&self) -> (r: String)
        ensures
            r@ == number_or(self.base_experience, Seq::empty()),
    {
        number_or_empty(self.base_experience)
    }

    /// How each known type is shown, in order; types that are missing or
    /// unknown are left out.
    pub fn get_renderable_types(&self) -> (r: Vec<(String, (u8, u8, u8))>)
        ensures
            self.types is None ==> r@.len() == 0,
            self.types matches Some(ts) ==> r@.map_values(|p: (String, (u8, u8, u8))| (p.0@, p.1))
                == shown_types(ts@),
    {
        let mut r: Vec<(String, (u8, u8, u8))> = Vec::new();
        match &self.types {
            None => {},
            Some(ts) => {
                let mut i: usize = 0;
                while i < ts.len()
                    invariant
                        i <= ts@.len(),
                        r@.map_values(|p: (String, (u8, u8, u8))| (p.0@, p.1)) == shown_types(
                            ts@.take(i as int),
                        ),
                    decreases ts@.len() - i,
                {
                    assert(ts@.take(i + 1).drop_last() =~= ts@.take(i as int));
                    match ts[i].get_renderable() {
                        Some(p) => {
                            r.push(p);
                            assert(r@.map_values(|p: (String, (u8, u8, u8))| (p.0@, p.1))
                                =~= shown_types(ts@.take(i as int)).push(
                                styled_type(name_of(ts@[i as int].de_type)).unwrap(),
                            ));
                        },
                        None => {},
                    }
                    i = i + 1;
                }
                assert(ts@.take(ts@.len() as int) =~= ts@);
            },
        }
        r
    }
}

/// How the known types among `ts` are shown, in order.
pub open spec fn shown_types(ts: Seq<PokemonType>) -> Seq<(Seq<char>, (u8, u8, u8))>
    decreases ts.len(),
{
    if ts.len() == 0 {
        Seq::empty()
    } else {
        let rest = shown_types(ts.drop_last());
        let t = ts.last();
        if (t.de_type matches Some(d) && d.name is Some) && styled_type(name_of(t.de_type)) is Some {
            rest.push(styled_type(name_of(t.de_type)).unwrap())
        } else {
            rest
        }
    }
}

} // verus!
