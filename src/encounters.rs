use vstd::prelude::*;

use crate::models::{name_of, number_or, number_or_empty, same_text, text_or_empty, NamedApiResource};
use crate::text::{
    among_dashed, append_padding, chars_of, decimal, int_text_then, interleaved, is_among_dashed,
    join_texts, split_capitalize, split_capitalized, string_of, PADDING,
};

verus! {

/// One way of meeting a creature, with its levels and chance.
#[derive(Debug)]
pub struct PokemonEncounterDetail {
    pub chance: Option<i32>,
    pub max_level: Option<i32>,
    pub min_level: Option<i32>,
    pub method: Option<NamedApiResource>,
}

/// The ways of meeting a creature in one version.
#[derive(Debug)]
pub struct PokemonEncounterVersionDetail {
    pub max_chance: Option<i32>,
    pub version: Option<NamedApiResource>,
    pub encounter_details: Option<Vec<PokemonEncounterDetail>>,
}

/// A reference's name, or the empty string, as capitalized words; nothing
/// where the reference is missing.
pub open spec fn ref_words(o: Option<NamedApiResource>) -> Seq<char> {
    match o {
        Some(r) => split_capitalized(text_or_empty(r.name)),
        None => Seq::empty(),
    }
}

/// The methods of the details, as capitalized words, each once, in the
/// order of their first occurrence.
pub open spec fn distinct_methods(ds: Seq<PokemonEncounterDetail>) -> Seq<Seq<char>>
    decreases ds.len(),
{
    if ds.len() == 0 {
        Seq::empty()
    } else {
        let rest = distinct_methods(ds.drop_last());
        let d = ds.last();
        if d.method is Some && !rest.contains(ref_words(d.method)) {
            rest.push(ref_words(d.method))
        } else {
            rest
        }
    }
}

/// The lower of two levels, where a missing level is lower than any.
pub open spec fn lower(a: Option<i32>, b: Option<i32>) -> Option<i32> {
    match (a, b) {
        (Some(x), Some(y)) => Some(if x <= y { x } else { y }),
        _ => None,
    }
}

/// The higher of two levels, where a missing level is lower than any.
pub open spec fn higher(a: Option<i32>, b: Option<i32>) -> Option<i32> {
    match (a, b) {
        (Some(x), Some(y)) => Some(if x >= y { x } else { y }),
        (Some(x), None) => Some(x),
        (None, y) => y,
    }
}

/// The lowest minimum level of non-empty details.
pub open spec fn lowest(ds: Seq<PokemonEncounterDetail>) -> Option<i32>
    decreases ds.len(),
{
    if ds.len() <= 1 {
        ds[0].min_level
    } else {
        lower(lowest(ds.drop_last()), ds.last().min_level)
    }
}

/// The highest maximum level of non-empty details.
pub open spec fn highest(ds: Seq<PokemonEncounterDetail>) -> Option<i32>
    decreases ds.len(),
{
    if ds.len() <= 1 {
        ds[0].max_level
    } else {
        higher(highest(ds.drop_last()), ds.last().max_level)
    }
}

/// A level, or zero where there is none.
pub open spec fn level_or_zero(o: Option<i32>) -> int {
    match o {
        Some(n) => n as int,
        None => 0,
    }
}

/// The level range of the details: lowest minimum and highest maximum,
/// zero where there is no such level.
pub open spec fn levels_text(o: Option<Vec<PokemonEncounterDetail>>) -> Seq<char> {
    match o {
        Some(ds) if ds@.len() > 0 => decimal(level_or_zero(lowest(ds@))) + " - "@ + decimal(
            level_or_zero(highest(ds@)),
        ),
        _ => decimal(0) + " - "@ + decimal(0),
    }
}

fn ref_words_text(o: &Option<NamedApiResource>) -> (r: String)
    ensures
        r@ == ref_words(*o),
{
    match o {
        Some(res) => split_capitalize(res.get_name_or_stub().as_str()),
        None => String::new(),
    }
}

impl PokemonEncounterVersionDetail {
    /// The version's name as capitalized words, or the empty string.
    pub fn get_renderable_version(&self) -> (r: String)
        ensures
            r@ == ref_words(self.version),
    {
        ref_words_text(&self.version)
    }

    /// The highest chance of meeting the creature, or the empty string.
    pub fn get_renderable_max_chance(&self) -> (r: String)
        ensures
            r@ == number_or(self.max_chance, Seq::empty()),
    {
        number_or_empty(self.max_chance)
    }

    /// The methods, each once, separated by a comma and a space; the empty
    /// string where there are no details.
    pub fn get_renderable_methods(&self) -> (r: String)
        ensures
            r@ == match self.encounter_details {
                Some(ds) => interleaved(distinct_methods(ds@), ", "@),
                None => Seq::empty(),
            },
    {
        match &self.encounter_details {
            None => String::new(),
            Some(ds) => {
                let mut items: Vec<String> = Vec::new();
                let mut i: usize = 0;
                while i < ds.len()
                    invariant
                        i <= ds@.len(),
                        items@.map_values(|s: String| s@) == distinct_methods(ds@.take(i as int)),
                    decreases ds@.len() - i,
                {
                    let d = &ds[i];
                    assert(ds@.take(i + 1).drop_last() =~= ds@.take(i as int));
                    if d.method.is_some() {
                        let w = ref_words_text(&d.method);
                        let ghost seen = items@.map_values(|s: String| s@);
                        let mut found = false;
                        let mut k: usize = 0;
                        while k < items.len()
                            invariant
                                k <= items@.len(),
                                seen == items@.map_values(|s: String| s@),
                                found == exists|j: int| 0 <= j < k && seen[j] == w@,
                            decreases items@.len() - k,
                        {
                            let same = same_text(items[k].as_str(), w.as_str());
                            assert(seen[k as int] == items@[k as int]@);
                            if same {
                                found = true;
                            }
                            k = k + 1;
                            if same {
                                assert(0 <= k - 1 < k && seen[k - 1] == w@);
                            } else {
                                assert(forall|j: int| 0 <= j < k && seen[j] == w@ ==> 0 <= j < k - 1);
                            }
                        }
                        proof {
                            if seen.contains(w@) {
                                let j = choose|j: int| 0 <= j < seen.len() && seen[j] == w@;
                            }
                        }
                        if !found {
                            items.push(w);
                            assert(items@.map_values(|s: String| s@) =~= seen.push(ref_words(d.method)));
                        }
                    }
                    i = i + 1;
                }
                assert(ds@.take(ds@.len() as int) =~= ds@);
                join_texts(&items, ", ")
            },
        }
    }

    /// The lowest minimum level and the highest maximum level of the
    /// details, as `min - max`.
    pub fn get_renderable_levels(&self) -> (r: String)
        ensures
            r@ == levels_text(self.encounter_details),
    {
        let mut lo: Option<i32> = None;
        let mut hi: Option<i32> = None;
        match &self.encounter_details {
            Some(ds) => {
                if ds.len() > 0 {
                    lo = ds[0].min_level;
                    hi = ds[0].max_level;
                    let mut i: usize = 1;
                    while i < ds.len()
                        invariant
                            1 <= i <= ds@.len(),
                            lo == lowest(ds@.take(i as int)),
                            hi == highest(ds@.take(i as int)),
                        decreases ds@.len() - i,
                    {
                        assert(ds@.take(i + 1).drop_last() =~= ds@.take(i as int));
                        let d = &ds[i];
                        lo = match (lo, d.min_level) {
                            (Some(x), Some(y)) => Some(if x <= y { x } else { y }),
                            _ => None,
                        };
                        hi = match (hi, d.max_level) {
                            (Some(x), Some(y)) => Some(if x >= y { x } else { y }),
                            (Some(x), None) => Some(x),
                            (None, y) => y,
                        };
                        i = i + 1;
                    }
                    assert(ds@.take(ds@.len() as int) =~= ds@);
                }
            },
            None => {},
        }
        let low: i32 = match lo { Some(n) => n, None => 0 };
        let high: i32 = match hi { Some(n) => n, None => 0 };
        let first = int_text_then(low, " - ");
        let second = int_text_then(high, "");
        let mut v = chars_of(first.as_str());
        let w = chars_of(second.as_str());
        let ghost start = v@;
        let mut i: usize = 0;
        while i < w.len()
            invariant
                i <= w@.len(),
                v@ == start + w@.take(i as int),
            decreases w@.len() - i,
        {
            v.push(w[i]);
            i = i + 1;
            assert(v@ =~= start + w@.take(i as int));
        }
        assert(w@.take(w@.len() as int) =~= w@);
        proof {
            assert(""@ =~= Seq::<char>::empty()) by {
                reveal_strlit("");
            }
        }
        assert(v@ =~= decimal(low as int) + " - "@ + decimal(high as int));
        string_of(&v)
    }
}

/// Where and how a creature can be met, by version.
#[derive(Debug)]
pub struct PokemonEncounter {
    pub location_area: Option<NamedApiResource>,
    pub version_details: Option<Vec<PokemonEncounterVersionDetail>>,
}

/// The location's name as a label, or nothing.
pub open spec fn location_text(o: Option<NamedApiResource>) -> Seq<char> {
    match o {
        Some(r) => seq![PADDING] + split_capitalized(text_or_empty(r.name)),
        None => Seq::empty(),
    }
}

/// Whether a version detail belongs to the version group named `group`.
pub open spec fn met_in_group(d: PokemonEncounterVersionDetail, group: Seq<char>) -> bool {
    d.version is Some && among_dashed(group, name_of(d.version))
}

/// The cells of an encounter's row for one version.
pub open spec fn encounter_row(loc: Option<NamedApiResource>, d: PokemonEncounterVersionDetail) -> Seq<Seq<char>> {
    seq![
        location_text(loc),
        match d.encounter_details {
            Some(ds) => interleaved(distinct_methods(ds@), ", "@),
            None => Seq::empty(),
        },
        ref_words(d.version),
        number_or(d.max_chance, Seq::empty()),
        levels_text(d.encounter_details),
    ]
}

/// The rows of an encounter for the versions of one version group, in order.
pub open spec fn encounter_rows(
    loc: Option<NamedApiResource>,
    ds: Seq<PokemonEncounterVersionDetail>,
    group: Seq<char>,
) -> Seq<Seq<Seq<char>>>
    decreases ds.len(),
{
    if ds.len() == 0 {
        Seq::empty()
    } else {
        let rest = encounter_rows(loc, ds.drop_last(), group);
        if met_in_group(ds.last(), group) {
            rest.push(encounter_row(loc, ds.last()))
        } else {
            rest
        }
    }
}

impl PokemonEncounter {
    /// The location's name as a label, or the empty string.
    pub fn get_renderable_location_area(&self) -> (r: String)
        ensures
            r@ == location_text(self.location_area),
    {
        match &self.location_area {
            Some(l) => append_padding(split_capitalize(l.get_name_or_stub().as_str()).as_str()),
            None => String::new(),
        }
    }

    /// The rows of the encounter for the versions of the version group named
    /// `selected_version_group`: location, methods, version, chance and
    /// levels.
    pub fn get_renderable_as_rows(&self, selected_version_group: &str) -> (r: Vec<Vec<String>>)
        ensures
            r@.map_values(|row: Vec<String>| row@.map_values(|c: String| c@)) == match self.version_details {
                Some(ds) => encounter_rows(self.location_area, ds@, selected_version_group@),
                None => Seq::empty(),
            },
    {
        let mut r: Vec<Vec<String>> = Vec::new();
        match &self.version_details {
            None => {},
            Some(ds) => {
                let mut i: usize = 0;
                while i < ds.len()
                    invariant
                        i <= ds@.len(),
                        r@.map_values(|row: Vec<String>| row@.map_values(|c: String| c@))
                            == encounter_rows(self.location_area, ds@.take(i as int), selected_version_group@),
                    decreases ds@.len() - i,
                {
                    let d = &ds[i];
                    assert(ds@.take(i + 1).drop_last() =~= ds@.take(i as int));
                    let keep = match &d.version {
                        Some(v) => {
                            let n = v.get_name_or_stub();
                            is_among_dashed(selected_version_group, n.as_str())
                        },
                        None => false,
                    };
                    if keep {
                        let mut row: Vec<String> = Vec::new();
                        row.push(self.get_renderable_location_area());
                        row.push(d.get_renderable_methods());
                        row.push(d.get_renderable_version());
                        row.push(d.get_renderable_max_chance());
                        row.push(d.get_renderable_levels());
                        let ghost cells = encounter_row(self.location_area, *d);
                        assert(row@.map_values(|c: String| c@) =~= cells);
                        r.push(row);
                        assert(r@.map_values(|row: Vec<String>| row@.map_values(|c: String| c@))
                            =~= encounter_rows(self.location_area, ds@.take(i as int), selected_version_group@).push(cells));
                    }
                    i = i + 1;
                }
                assert(ds@.take(ds@.len() as int) =~= ds@);
            },
        }
        r
    }
}

} // verus!
