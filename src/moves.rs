use vstd::prelude::*;

use crate::creature::{get_styled_pokemon_type, styled_type, type_color};
use crate::models::{
    effect_entry_text, first_english_effect, label, label_text, name_of, number_or,
    number_or_dash, same_text, words_or, words_or_dash, words_or_empty, FlavorTextEntry,
    NamedApiResource, VerboseEffect,
};

verus! {

/// The text in which a type of that name is shown; nothing for a name that
/// is no type.
pub open spec fn type_text(name: Seq<char>) -> Seq<char> {
    match styled_type(name) {
        Some(p) => p.0,
        None => Seq::empty(),
    }
}

/// A row of the moves table: its cells, and the colour of the move's type
/// where it is a known type.
#[derive(Debug, PartialEq)]
pub struct MoveRow {
    pub cells: Vec<String>,
    pub type_color: Option<(u8, u8, u8)>,
}

/// A row as its cells' texts and its colour.
pub open spec fn move_row_view(row: MoveRow) -> (Seq<Seq<char>>, Option<(u8, u8, u8)>) {
    (row.cells@.map_values(|c: String| c@), row.type_color)
}

/// The cells of a move's row: name, accuracy, power points, power, type,
/// damage class, learning method, level and effect.
pub open spec fn move_cells(m: PokemonMoveExt, d: PokemonMoveVersion) -> Seq<Seq<char>> {
    seq![
        label_text(m.name),
        number_or(m.accuracy, seq!['-']),
        number_or(m.pp, seq!['-']),
        number_or(m.power, seq!['-']),
        type_text(name_of(m.pk_type)),
        words_or(m.damage_class, Seq::empty()),
        words_or(d.move_learn_method, seq!['-']),
        number_or(d.level_learned_at, seq!['-']),
        effect_entry_text(m.effect_entries),
    ]
}

/// How a creature learns a move in one version group.
#[derive(Debug)]
pub struct PokemonMoveVersion {
    pub move_learn_method: Option<NamedApiResource>,
    pub version_group: Option<NamedApiResource>,
    pub level_learned_at: Option<i32>,
}

/// Whether a learning detail belongs to the version group named `v`.
pub open spec fn in_version_group(d: PokemonMoveVersion, v: Seq<char>) -> bool {
    d.version_group is Some && name_of(d.version_group) == v
}

/// The learning details of the version group named `v`, in order.
pub open spec fn details_in_group(ds: Seq<PokemonMoveVersion>, v: Seq<char>) -> Seq<PokemonMoveVersion> {
    ds.filter(|d: PokemonMoveVersion| in_version_group(d, v))
}

impl PokemonMoveVersion {
    /// The learning method as capitalized words, or `-`.
    pub fn get_renderable_learn_method(&self) -> (r: String)
        ensures
            r@ == words_or(self.move_learn_method, seq!['-']),
    {
        words_or_dash(&self.move_learn_method)
    }

    /// The level at which the move is learnt, or `-`.
    pub fn get_renderable_level(&self) -> (r: String)
        ensures
            r@ == number_or(self.level_learned_at, seq!['-']),
    {
        number_or_dash(self.level_learned_at)
    }
}

/// A move of a creature, with how it learns it in each version group.
#[derive(Debug)]
pub struct PokemonMove {
    pub de_move: Option<NamedApiResource>,
    pub version_group_details: Option<Vec<PokemonMoveVersion>>,
}

impl PokemonMove {
    /// The learning details of the version group named `selected_version`, in
    /// their order; none where the move has no list of details.
    pub fn get_renderable_version_group_details(&self, selected_version: &str) -> (r: Option<
        Vec<&PokemonMoveVersion>,
    >)
        ensures
            r.is_some() == self.version_group_details.is_some(),
            r matches Some(v) ==> v@.map_values(|x: &PokemonMoveVersion| *x)
                == details_in_group(self.version_group_details.unwrap()@, selected_version@),
    {
        match &self.version_group_details {
            None => None,
            Some(details) => {
                let ghost p = |d: PokemonMoveVersion| in_version_group(d, selected_version@);
                let mut out: Vec<&PokemonMoveVersion> = Vec::new();
                let mut i: usize = 0;
                while i < details.len()
                    invariant
                        i <= details@.len(),
                        out@.map_values(|x: &PokemonMoveVersion| *x) == details@.take(
                            i as int,
                        ).filter(p),
                        p == (|d: PokemonMoveVersion| in_version_group(d, selected_version@)),
                    decreases details@.len() - i,
                {
                    let d = &details[i];
                    proof {
                        reveal(Seq::filter);
                        assert(details@.take(i + 1).drop_last() =~= details@.take(i as int));
                    }
                    let keep = match &d.version_group {
                        Some(g) => {
                            let n = g.get_name_or_stub();
                            same_text(n.as_str(), selected_version)
                        },
                        None => false,
                    };
                    if keep {
                        out.push(d);
                        assert(out@.map_values(|x: &PokemonMoveVersion| *x) =~= details@.take(
                            i as int,
                        ).filter(p).push(*d));
                    }
                    i = i + 1;
                }
                assert(details@.take(details@.len() as int) =~= details@);
                assert(details@.filter(p) == details_in_group(details@, selected_version@));
                Some(out)
            },
        }
    }

    /// The cells of the move's row in the moves table: name, accuracy, power
    /// points, power, type, damage class, learning method, level and effect.
    /// None where the move's details were not fetched.
    pub fn get_renderable_as_row(
        &self,
        extended_move: Option<&PokemonMoveExt>,
        move_version: &PokemonMoveVersion,
    ) -> (r: Option<MoveRow>)
        ensures
            r.is_some() == extended_move.is_some(),
            r matches Some(row) ==> move_row_view(row) == (
                move_cells(*extended_move.unwrap(), *move_version),
                type_color(name_of(extended_move.unwrap().pk_type)),
            ),
    {
        match extended_move {
            None => None,
            Some(m) => {
                let mut cells: Vec<String> = Vec::new();
                cells.push(m.get_renderable_name());
                cells.push(m.get_renderable_accuracy());
                cells.push(m.get_renderable_pp());
                cells.push(m.get_renderable_power());
                let kind = m.get_renderable_type();
                let (shown, color) = match get_styled_pokemon_type(kind.as_str()) {
                    Some(p) => (p.0, Some(p.1)),
                    None => (String::new(), None),
                };
                cells.push(shown);
                cells.push(m.get_renderable_damage_class());
                cells.push(move_version.get_renderable_learn_method());
                cells.push(move_version.get_renderable_level());
                cells.push(m.get_renderable_effect_entry());
                assert(cells@.map_values(|c: String| c@) =~= move_cells(*m, *move_version));
                Some(MoveRow { cells, type_color: color })
            },
        }
    }
}

/// The details of a move, as fetched on their own.
#[derive(Debug)]
pub struct PokemonMoveExt {
    pub id: Option<i32>,
    pub name: Option<String>,
    pub accuracy: Option<i32>,
    pub pp: Option<i32>,
    pub power: Option<i32>,
    pub pk_type: Option<NamedApiResource>,
    pub flavor_text_entries: Option<Vec<FlavorTextEntry>>,
    pub damage_class: Option<NamedApiResource>,
    pub effect_entries: Option<Vec<VerboseEffect>>,
}

impl PokemonMoveExt {
    /// The name as a label: capitalized words behind a no-break space.
    pub fn get_renderable_name(&self) -> (r: String)
        ensures
            r@ == label_text(self.name),
    {
        label(&self.name)
    }

    /// The accuracy, or `-`.
    pub fn get_renderable_accuracy(&self) -> (r: String)
        ensures
            r@ == number_or(self.accuracy, seq!['-']),
    {
        number_or_dash(self.accuracy)
    }

    /// The power points, or `-`.
    pub fn get_renderable_pp(&self) -> (r: String)
        ensures
            r@ == number_or(self.pp, seq!['-']),
    {
        number_or_dash(self.pp)
    }

    /// The power, or `-`.
    pub fn get_renderable_power(&self) -> (r: String)
        ensures
            r@ == number_or(self.power, seq!['-']),
    {
        number_or_dash(self.power)
    }

    /// The name of the move's type as it stands, or the empty string.
    pub fn get_renderable_type(&self) -> (r: String)
        ensures
            r@ == name_of(self.pk_type),
    {
        match &self.pk_type {
            Some(t) => t.get_name_or_stub(),
            None => String::new(),
        }
    }

    /// The damage class as capitalized words, or the empty string.
    pub fn get_renderable_damage_class(&self) -> (r: String)
        ensures
            r@ == words_or(self.damage_class, Seq::empty()),
    {
        words_or_empty(&self.damage_class)
    }

    /// The short effect of the first English effect entry, or the empty string.
    pub fn get_renderable_effect_entry(&self) -> (r: String)
        ensures
            r@ == effect_entry_text(self.effect_entries),
    {
        first_english_effect(&self.effect_entries)
    }
}

} // verus!
