use vstd::prelude::*;

use crate::models::{label, label_text, name_of, words_or, words_or_empty, NamedApiResource};
use crate::text::{among_dashed, decimal, int_text, is_among_dashed, chars_of, string_of};

verus! {

/// One version in which a creature may hold an item, and how often.
#[derive(Debug)]
pub struct PokemonHeldItemVersion {
    pub rarity: Option<i32>,
    pub version: Option<NamedApiResource>,
}

/// The rarity as a percentage, or nothing.
pub open spec fn rarity_text(o: Option<i32>) -> Seq<char> {
    match o {
        Some(n) => decimal(n as int).push('%'),
        None => Seq::empty(),
    }
}

impl PokemonHeldItemVersion {
    /// The rarity followed by `%`, or the empty string.
    pub fn get_renderable_rarity(&self) -> (r: String)
        ensures
            r@ == rarity_text(self.rarity),
    {
        match self.rarity {
            Some(n) => {
                let mut v = chars_of(int_text(n).as_str());
                v.push('%');
                string_of(&v)
            },
            None => String::new(),
        }
    }

    /// The version's name as capitalized words, or the empty string.
    pub fn get_renderable_version(&self) -> (r: String)
        ensures
            r@ == words_or(self.version, Seq::empty()),
    {
        words_or_empty(&self.version)
    }
}

/// An item a creature may hold, by version.
#[derive(Debug)]
pub struct PokemonHeldItem {
    pub item: Option<NamedApiResource>,
    pub version_details: Option<Vec<PokemonHeldItemVersion>>,
}

/// The item's name as a label, or nothing.
pub open spec fn item_label(o: Option<NamedApiResource>) -> Seq<char> {
    match o {
        Some(r) => label_text(r.name),
        None => Seq::empty(),
    }
}

/// Whether a version detail belongs to the version group named `group`.
pub open spec fn held_in_group(d: PokemonHeldItemVersion, group: Seq<char>) -> bool {
    d.version is Some && among_dashed(group, name_of(d.version))
}

/// The rows of the held item for the details of one version group, in order.
pub open spec fn held_rows(
    item: Option<NamedApiResource>,
    ds: Seq<PokemonHeldItemVersion>,
    group: Seq<char>,
) -> Seq<Seq<Seq<char>>>
    decreases ds.len(),
{
    if ds.len() == 0 {
        Seq::empty()
    } else {
        let rest = held_rows(item, ds.drop_last(), group);
        let d = ds.last();
        if held_in_group(d, group) {
            rest.push(seq![item_label(item), rarity_text(d.rarity), words_or(d.version, Seq::empty())])
        } else {
            rest
        }
    }
}

impl PokemonHeldItem {
    /// The item's name as a label, or the empty string.
    pub fn get_renderable_item_name(&self) -> (r: String)
        ensures
            r@ == item_label(self.item),
    {
        match &self.item {
            Some(i) => label(&i.name),
            None => String::new(),
        }
    }

    /// The rows of the item for the versions of the version group named
    /// `selected_version_group`: name, rarity and version.
    pub fn get_renderable_as_rows(&self, selected_version_group: &str) -> (r: Vec<Vec<String>>)
        ensures
            r@.map_values(|row: Vec<String>| row@.map_values(|c: String| c@)) == match self.version_details {
                Some(ds) => held_rows(self.item, ds@, selected_version_group@),
                None => Seq::empty(),
            },
    {
        let mut r: Vec<Vec<String>> = Vec::new();
        match &self.version_details {
            None => {},
            Some(ds) => {
                let mut i: usize = 0;
                while i < ds.len()
                    invariant
                        i <= ds@.len(),
                        r@.map_values(|row: Vec<String>| row@.map_values(|c: String| c@))
                            == held_rows(self.item, ds@.take(i as int), selected_version_group@),
                    decreases ds@.len() - i,
                {
                    let d = &ds[i];
                    assert(ds@.take(i + 1).drop_last() =~= ds@.take(i as int));
                    let keep = match &d.version {
                        Some(v) => {
                            let n = v.get_name_or_stub();
                            is_among_dashed(selected_version_group, n.as_str())
                        },
                        None => false,
                    };
                    if keep {
                        let mut row: Vec<String> = Vec::new();
                        row.push(self.get_renderable_item_name());
                        row.push(d.get_renderable_rarity());
                        row.push(d.get_renderable_version());
                        let ghost cells = seq![item_label(self.item), rarity_text(d.rarity), words_or(d.version, Seq::empty())];
                        assert(row@.map_values(|c: String| c@) =~= cells);
                        r.push(row);
                        assert(r@.map_values(|row: Vec<String>| row@.map_values(|c: String| c@))
                            =~= held_rows(self.item, ds@.take(i as int), selected_version_group@).push(cells));
                    }
                    i = i + 1;
                }
                assert(ds@.take(ds@.len() as int) =~= ds@);
            },
        }
        r
    }
}

} // verus!
