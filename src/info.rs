use vstd::prelude::*;

use crate::abilities::{ability_row, yes_no, PokemonAbility, PokemonAbilityExt};
use crate::creature::{shown_types, words_text, Pokemon};
use crate::encounters::{encounter_rows, PokemonEncounter};
use crate::models::{
    name_of, number_or, same_text, text_or_empty, words_or,
    NamedApiResource,
};
use crate::creature::type_color;
use crate::moves::{
    details_in_group, move_cells, move_row_view, MoveRow, PokemonMove, PokemonMoveExt,
    PokemonMoveVersion,
};
use crate::species::PokemonSpecies;
use crate::text::{append_padding, chars_of, interleaved, join_texts, PADDING};

verus! {

/// A creature with the resources it refers to: the details of its abilities
/// and moves, its species, and where it can be met.
#[derive(Debug)]
pub struct ExtendedPokemonInfo {
    pub pokemon: Pokemon,
    pub abilities: Vec<PokemonAbilityExt>,
    pub moves: Vec<PokemonMoveExt>,
    pub species: PokemonSpecies,
    pub encounters: Vec<PokemonEncounter>,
}

/// The first details in `exts` of the ability named `name`.
pub open spec fn first_ability_named(exts: Seq<PokemonAbilityExt>, name: Seq<char>) -> Option<PokemonAbilityExt>
    decreases exts.len(),
{
    if exts.len() == 0 {
        None
    } else if text_or_empty(exts[0].name) == name {
        Some(exts[0])
    } else {
        first_ability_named(exts.drop_first(), name)
    }
}

/// The details that belong to an ability reference: matched by name.
pub open spec fn details_of(a: PokemonAbility, exts: Seq<PokemonAbilityExt>) -> Option<PokemonAbilityExt> {
    if a.ability is Some {
        first_ability_named(exts, name_of(a.ability))
    } else {
        None
    }
}

/// The rows of the abilities whose details were fetched, in the order of
/// the creature's own list.
pub open spec fn ability_rows(abilities: Seq<PokemonAbility>, exts: Seq<PokemonAbilityExt>) -> Seq<Seq<Seq<char>>>
    decreases abilities.len(),
{
    if abilities.len() == 0 {
        Seq::empty()
    } else {
        let rest = ability_rows(abilities.drop_last(), exts);
        match details_of(abilities.last(), exts) {
            Some(e) => rest.push(ability_row(abilities.last(), e)),
            None => rest,
        }
    }
}

/// The rows of every encounter for one version group, encounter by encounter.
pub open spec fn all_encounter_rows(es: Seq<PokemonEncounter>, group: Seq<char>) -> Seq<Seq<Seq<char>>>
    decreases es.len(),
{
    if es.len() == 0 {
        Seq::empty()
    } else {
        all_encounter_rows(es.drop_last(), group) + match es.last().version_details {
            Some(ds) => encounter_rows(es.last().location_area, ds@, group),
            None => Seq::empty(),
        }
    }
}

fn find_ability<'a>(exts: &'a Vec<PokemonAbilityExt>, name: &str) -> (r: Option<&'a PokemonAbilityExt>)
    ensures
        r.is_some() == first_ability_named(exts@, name@).is_some(),
        r matches Some(e) ==> *e == first_ability_named(exts@, name@).unwrap(),
{
    let mut i: usize = 0;
    assert(exts@.subrange(0, exts@.len() as int) =~= exts@);
    while i < exts.len()
        invariant
            i <= exts@.len(),
            first_ability_named(exts@, name@) == first_ability_named(
                exts@.subrange(i as int, exts@.len() as int),
                name@,
            ),
        decreases exts@.len() - i,
    {
        let e = &exts[i];
        assert(exts@.subrange(i as int, exts@.len() as int)[0] == exts@[i as int]);
        let matched = match &e.name {
            Some(n) => same_text(n.as_str(), name),
            None => chars_of(name).len() == 0,
        };
        assert(matched == (text_or_empty(e.name) =~= name@));
        if matched {
            assert(text_or_empty(exts@[i as int].name) =~= name@);
            assert(first_ability_named(exts@.subrange(i as int, exts@.len() as int), name@)
                == Some(exts@[i as int]));
            return Some(e);
        }
        assert(exts@.subrange(i as int, exts@.len() as int).drop_first() =~= exts@.subrange(
            i + 1,
            exts@.len() as int,
        ));
        i = i + 1;
    }
    None
}

impl ExtendedPokemonInfo {
    /// One row per ability of the creature whose details were fetched, in
    /// the creature's order, matched to the details by name: name, effect and
    /// whether the ability is hidden.
    pub fn get_renderable_abilities(&self) -> (r: Vec<Vec<String>>)
        ensures
            r@.map_values(|row: Vec<String>| row@.map_values(|c: String| c@)) == match self.pokemon.abilities {
                Some(v) => ability_rows(v@, self.abilities@),
                None => Seq::empty(),
            },
    {
        let mut r: Vec<Vec<String>> = Vec::new();
        match &self.pokemon.abilities {
            None => {},
            Some(v) => {
                let mut i: usize = 0;
                while i < v.len()
                    invariant
                        i <= v@.len(),
                        r@.map_values(|row: Vec<String>| row@.map_values(|c: String| c@))
                            == ability_rows(v@.take(i as int), self.abilities@),
                    decreases v@.len() - i,
                {
                    let a = &v[i];
                    assert(v@.take(i + 1).drop_last() =~= v@.take(i as int));
                    match &a.ability {
                        Some(res) => {
                            let name = res.get_name_or_stub();
                            match find_ability(&self.abilities, name.as_str()) {
                                Some(e) => {
                                    let row = a.get_renderable_as_row(Some(e));
                                    let row = row.unwrap();
                                    let ghost prior = r@.map_values(|row: Vec<String>| row@.map_values(|c: String| c@));
                                    r.push(row);
                                    assert(r@.map_values(|row: Vec<String>| row@.map_values(|c: String| c@))
                                        =~= prior.push(ability_row(*a, *e)));
                                },
                                None => {},
                            }
                        },
                        None => {},
                    }
                    i = i + 1;
                }
                assert(v@.take(v@.len() as int) =~= v@);
            },
        }
        r
    }

    /// The rows of every encounter for the version group named
    /// `selected_version_group`, encounter by encounter.
    pub fn get_renderable_encounters(&self, selected_version_group: &str) -> (r: Vec<Vec<String>>)
        ensures
            r@.map_values(|row: Vec<String>| row@.map_values(|c: String| c@)) == all_encounter_rows(
                self.encounters@,
                selected_version_group@,
            ),
    {
        let mut r: Vec<Vec<String>> = Vec::new();
        let mut i: usize = 0;
        while i < self.encounters.len()
            invariant
                i <= self.encounters@.len(),
                r@.map_values(|row: Vec<String>| row@.map_values(|c: String| c@)) == all_encounter_rows(
                    self.encounters@.take(i as int),
                    selected_version_group@,
                ),
            decreases self.encounters@.len() - i,
        {
            let mut rows = self.encounters[i].get_renderable_as_rows(selected_version_group);
            assert(self.encounters@.take(i + 1).drop_last() =~= self.encounters@.take(i as int));
            let ghost prior = r@;
            let ghost added = rows@;
            r.append(&mut rows);
            assert(r@.map_values(|row: Vec<String>| row@.map_values(|c: String| c@)) =~= prior.map_values(
                |row: Vec<String>| row@.map_values(|c: String| c@),
            ) + added.map_values(|row: Vec<String>| row@.map_values(|c: String| c@)));
            i = i + 1;
        }
        assert(self.encounters@.take(self.encounters@.len() as int) =~= self.encounters@);
        r
    }
}

/// The order of two learning levels: lower first; equal where one is not
/// known.
pub open spec fn level_order(a: Option<i32>, b: Option<i32>) -> int {
    match (a, b) {
        (Some(x), Some(y)) => if x < y { -1 } else if x > y { 1 } else { 0 },
        _ => 0,
    }
}

/// The order of two texts, character by character, a prefix first.
pub open spec fn text_order(a: Seq<char>, b: Seq<char>) -> int
    decreases a.len(),
{
    if a.len() == 0 && b.len() == 0 {
        0
    } else if a.len() == 0 {
        -1
    } else if b.len() == 0 {
        1
    } else if (a[0] as u32) < (b[0] as u32) {
        -1
    } else if (a[0] as u32) > (b[0] as u32) {
        1
    } else {
        text_order(a.drop_first(), b.drop_first())
    }
}

/// The order of two learning methods, by name; equal where one is missing.
pub open spec fn method_order(a: Option<NamedApiResource>, b: Option<NamedApiResource>) -> int {
    match (a, b) {
        (Some(x), Some(y)) => text_order(text_or_empty(x.name), text_or_empty(y.name)),
        _ => 0,
    }
}

/// The order in which moves are listed: by the level at which they are
/// learnt, then by the learning method.
pub open spec fn learn_order(a: PokemonMoveVersion, b: PokemonMoveVersion) -> int {
    let l = level_order(a.level_learned_at, b.level_learned_at);
    if l != 0 {
        l
    } else {
        method_order(a.move_learn_method, b.move_learn_method)
    }
}

/// The moves learnt in the version group `g`, each with its first learning
/// detail there, in the creature's order.
pub open spec fn moves_in_group(ms: Seq<PokemonMove>, g: Seq<char>) -> Seq<(PokemonMove, PokemonMoveVersion)>
    decreases ms.len(),
{
    if ms.len() == 0 {
        Seq::empty()
    } else {
        let rest = moves_in_group(ms.drop_last(), g);
        let m = ms.last();
        match m.version_group_details {
            Some(ds) => {
                let f = details_in_group(ds@, g);
                if f.len() > 0 {
                    rest.push((m, f[0]))
                } else {
                    rest
                }
            },
            None => rest,
        }
    }
}

/// `s` with `x` put after the last entry that does not come after it, the
/// entries that come after it moving up behind it.
pub open spec fn insert_in_order(
    s: Seq<(PokemonMove, PokemonMoveVersion)>,
    x: (PokemonMove, PokemonMoveVersion),
) -> Seq<(PokemonMove, PokemonMoveVersion)>
    decreases s.len(),
{
    if s.len() == 0 {
        seq![x]
    } else if learn_order(s.last().1, x.1) > 0 {
        insert_in_order(s.drop_last(), x).push(s.last())
    } else {
        s.push(x)
    }
}

/// The entries in the order in which moves are listed, entries that are in
/// no order to each other keeping theirs.
pub open spec fn in_learn_order(s: Seq<(PokemonMove, PokemonMoveVersion)>) -> Seq<(PokemonMove, PokemonMoveVersion)>
    decreases s.len(),
{
    if s.len() == 0 {
        s
    } else {
        insert_in_order(in_learn_order(s.drop_last()), s.last())
    }
}

/// Whether no entry comes after the one that follows it.
pub open spec fn ordered_pairs(s: Seq<(PokemonMove, PokemonMoveVersion)>) -> bool {
    forall|k: int| 0 <= k < s.len() - 1 ==> learn_order(#[trigger] s[k].1, s[k + 1].1) <= 0
}

proof fn lemma_text_order_antisymmetric(a: Seq<char>, b: Seq<char>)
    ensures
        text_order(a, b) == -text_order(b, a),
    decreases a.len(),
{
    if a.len() > 0 && b.len() > 0 && (a[0] as u32) == (b[0] as u32) {
        lemma_text_order_antisymmetric(a.drop_first(), b.drop_first());
    }
}

proof fn lemma_learn_order_antisymmetric(a: PokemonMoveVersion, b: PokemonMoveVersion)
    ensures
        learn_order(a, b) > 0 ==> learn_order(b, a) < 0,
{
    if let (Some(x), Some(y)) = (a.move_learn_method, b.move_learn_method) {
        lemma_text_order_antisymmetric(text_or_empty(x.name), text_or_empty(y.name));
    }
}

proof fn lemma_insert_in_order(s: Seq<(PokemonMove, PokemonMoveVersion)>, x: (PokemonMove, PokemonMoveVersion))
    requires
        ordered_pairs(s),
    ensures
        ordered_pairs(insert_in_order(s, x)),
        insert_in_order(s, x).len() == s.len() + 1,
        insert_in_order(s, x).last() == x || (s.len() > 0 && insert_in_order(s, x).last() == s.last()),
    decreases s.len(),
{
    if s.len() > 0 && learn_order(s.last().1, x.1) > 0 {
        let t = s.drop_last();
        assert(ordered_pairs(t)) by {
            assert forall|k: int| 0 <= k < t.len() - 1 implies learn_order(#[trigger] t[k].1, t[k + 1].1) <= 0 by {
                assert(t[k] == s[k] && t[k + 1] == s[k + 1]);
            }
        }
        lemma_insert_in_order(t, x);
        let r = insert_in_order(t, x);
        if r.last() == x {
            lemma_learn_order_antisymmetric(s.last().1, x.1);
        } else {
            assert(s[t.len() - 1] == t.last());
        }
        assert forall|k: int| 0 <= k < r.len() implies learn_order(#[trigger] r.push(s.last())[k].1, r.push(s.last())[k + 1].1) <= 0 by {
            if k < r.len() - 1 {
                assert(r.push(s.last())[k] == r[k] && r.push(s.last())[k + 1] == r[k + 1]);
            }
        }
    }
}

proof fn lemma_in_learn_order(s: Seq<(PokemonMove, PokemonMoveVersion)>)
    ensures
        ordered_pairs(in_learn_order(s)),
        in_learn_order(s).len() == s.len(),
    decreases s.len(),
{
    if s.len() > 0 {
        lemma_in_learn_order(s.drop_last());
        lemma_insert_in_order(in_learn_order(s.drop_last()), s.last());
    }
}

/// The first details in `exts` of the move named `name`.
pub open spec fn first_move_named(exts: Seq<PokemonMoveExt>, name: Seq<char>) -> Option<PokemonMoveExt>
    decreases exts.len(),
{
    if exts.len() == 0 {
        None
    } else if text_or_empty(exts[0].name) == name {
        Some(exts[0])
    } else {
        first_move_named(exts.drop_first(), name)
    }
}

/// The rows of the entries whose move details were fetched, matched by
/// name, each with the colour of the move's type.
pub open spec fn move_rows(s: Seq<(PokemonMove, PokemonMoveVersion)>, exts: Seq<PokemonMoveExt>) -> Seq<(Seq<Seq<char>>, Option<(u8, u8, u8)>)>
    decreases s.len(),
{
    if s.len() == 0 {
        Seq::empty()
    } else {
        let rest = move_rows(s.drop_last(), exts);
        let (m, d) = s.last();
        if m.de_move is Some && first_move_named(exts, name_of(m.de_move)) is Some {
            let e = first_move_named(exts, name_of(m.de_move)).unwrap();
            rest.push((move_cells(e, d), type_color(name_of(e.pk_type))))
        } else {
            rest
        }
    }
}

fn text_cmp(a: &str, b: &str) -> (r: i8)
    ensures
        r as int == text_order(a@, b@),
{
    let x = chars_of(a);
    let y = chars_of(b);
    let mut i: usize = 0;
    assert(x@.skip(0) =~= x@ && y@.skip(0) =~= y@);
    while i < x.len() && i < y.len()
        invariant
            x@ == a@,
            y@ == b@,
            i <= x@.len(),
            i <= y@.len(),
            text_order(a@, b@) == text_order(x@.skip(i as int), y@.skip(i as int)),
        decreases x@.len() - i,
    {
        let p = x[i] as u32;
        let q = y[i] as u32;
        assert(x@.skip(i as int)[0] == x@[i as int] && y@.skip(i as int)[0] == y@[i as int]);
        if p < q {
            return -1;
        }
        if p > q {
            return 1;
        }
        assert(x@.skip(i as int).drop_first() =~= x@.skip(i + 1));
        assert(y@.skip(i as int).drop_first() =~= y@.skip(i + 1));
        i = i + 1;
    }
    if x.len() == i && y.len() == i {
        0
    } else if x.len() == i {
        -1
    } else {
        1
    }
}

fn learn_cmp(a: &PokemonMoveVersion, b: &PokemonMoveVersion) -> (r: i8)
    ensures
        r as int == learn_order(*a, *b),
{
    let l: i8 = match (a.level_learned_at, b.level_learned_at) {
        (Some(x), Some(y)) => if x < y { -1 } else if x > y { 1 } else { 0 },
        _ => 0,
    };
    if l != 0 {
        return l;
    }
    match (&a.move_learn_method, &b.move_learn_method) {
        (Some(x), Some(y)) => {
            let p = x.get_name_or_stub();
            let q = y.get_name_or_stub();
            text_cmp(p.as_str(), q.as_str())
        },
        _ => 0,
    }
}

fn find_move<'a>(exts: &'a Vec<PokemonMoveExt>, name: &str) -> (r: Option<&'a PokemonMoveExt>)
    ensures
        r.is_some() == first_move_named(exts@, name@).is_some(),
        r matches Some(e) ==> *e == first_move_named(exts@, name@).unwrap(),
{
    let mut i: usize = 0;
    assert(exts@.subrange(0, exts@.len() as int) =~= exts@);
    while i < exts.len()
        invariant
            i <= exts@.len(),
            first_move_named(exts@, name@) == first_move_named(
                exts@.subrange(i as int, exts@.len() as int),
                name@,
            ),
        decreases exts@.len() - i,
    {
        let e = &exts[i];
        assert(exts@.subrange(i as int, exts@.len() as int)[0] == exts@[i as int]);
        let matched = match &e.name {
            Some(n) => same_text(n.as_str(), name),
            None => chars_of(name).len() == 0,
        };
        assert(matched == (text_or_empty(e.name) =~= name@));
        if matched {
            assert(first_move_named(exts@.subrange(i as int, exts@.len() as int), name@)
                == Some(exts@[i as int]));
            return Some(e);
        }
        assert(exts@.subrange(i as int, exts@.len() as int).drop_first() =~= exts@.subrange(
            i + 1,
            exts@.len() as int,
        ));
        i = i + 1;
    }
    None
}

/// The entries as the pairs they stand for.
pub open spec fn entries_view(v: Seq<(usize, &PokemonMoveVersion)>, ms: Seq<PokemonMove>) -> Seq<(PokemonMove, PokemonMoveVersion)> {
    v.map_values(|p: (usize, &PokemonMoveVersion)| (ms[p.0 as int], *p.1))
}

fn insert_entry<'a>(
    sorted: &mut Vec<(usize, &'a PokemonMoveVersion)>,
    x: (usize, &'a PokemonMoveVersion),
    Ghost(ms): Ghost<Seq<PokemonMove>>,
)
    requires
        x.0 < ms.len(),
        forall|j: int| 0 <= j < old(sorted)@.len() ==> old(sorted)@[j].0 < ms.len(),
    ensures
        forall|j: int| 0 <= j < final(sorted)@.len() ==> final(sorted)@[j].0 < ms.len(),
        entries_view(final(sorted)@, ms) == insert_in_order(entries_view(old(sorted)@, ms), (ms[x.0 as int], *x.1)),
{
    let ghost xv = (ms[x.0 as int], *x.1);
    let ghost whole = entries_view(sorted@, ms);
    let mut moved: Vec<(usize, &'a PokemonMoveVersion)> = Vec::new();
    while sorted.len() > 0 && learn_cmp(sorted[sorted.len() - 1].1, x.1) > 0
        invariant
            insert_in_order(whole, xv) == insert_in_order(entries_view(sorted@, ms), xv)
                + entries_view(moved@, ms).reverse(),
            xv == (ms[x.0 as int], *x.1),
            x.0 < ms.len(),
            forall|j: int| 0 <= j < sorted@.len() ==> sorted@[j].0 < ms.len(),
            forall|j: int| 0 <= j < moved@.len() ==> moved@[j].0 < ms.len(),
        decreases sorted@.len(),
    {
        let ghost before = entries_view(sorted@, ms);
        let ghost mv = entries_view(moved@, ms);
        let y = sorted.pop().unwrap();
        assert(before.drop_last() =~= entries_view(sorted@, ms));
        assert(before.last() == (ms[y.0 as int], *y.1));
        moved.push(y);
        assert(entries_view(moved@, ms) =~= mv.push((ms[y.0 as int], *y.1)));
        assert(entries_view(moved@, ms).reverse() =~= seq![(ms[y.0 as int], *y.1)] + mv.reverse());
        assert(insert_in_order(before, xv) == insert_in_order(entries_view(sorted@, ms), xv).push(
            (ms[y.0 as int], *y.1),
        ));
        assert(insert_in_order(entries_view(sorted@, ms), xv).push((ms[y.0 as int], *y.1)) + mv.reverse()
            =~= insert_in_order(entries_view(sorted@, ms), xv) + entries_view(moved@, ms).reverse());
    }
    let ghost base = entries_view(sorted@, ms);
    sorted.push(x);
    assert(entries_view(sorted@, ms) =~= base.push(xv));
    assert(insert_in_order(base, xv) == base.push(xv));
    while moved.len() > 0
        invariant
            insert_in_order(whole, xv) == entries_view(sorted@, ms) + entries_view(moved@, ms).reverse(),
            forall|j: int| 0 <= j < sorted@.len() ==> sorted@[j].0 < ms.len(),
            forall|j: int| 0 <= j < moved@.len() ==> moved@[j].0 < ms.len(),
        decreases moved@.len(),
    {
        let ghost s0 = entries_view(sorted@, ms);
        let ghost m0 = entries_view(moved@, ms);
        let y = moved.pop().unwrap();
        assert(m0.drop_last() =~= entries_view(moved@, ms));
        assert(m0.last() == (ms[y.0 as int], *y.1));
        sorted.push(y);
        assert(entries_view(sorted@, ms) =~= s0.push((ms[y.0 as int], *y.1)));
        assert(m0.reverse() =~= seq![(ms[y.0 as int], *y.1)] + entries_view(moved@, ms).reverse());
        assert(s0 + m0.reverse() =~= entries_view(sorted@, ms) + entries_view(moved@, ms).reverse());
    }
    assert(entries_view(moved@, ms).reverse() =~= Seq::<(PokemonMove, PokemonMoveVersion)>::empty());
    assert(entries_view(sorted@, ms) + entries_view(moved@, ms).reverse() =~= entries_view(sorted@, ms));
}

impl ExtendedPokemonInfo {
    /// The rows of the moves learnt in the version group named
    /// `selected_version_group`, each with its first learning detail there,
    /// ordered by level and then by learning method (moves in no order to
    /// each other keep the creature's order), for the moves whose details
    /// were fetched, matched by name.
    pub fn get_renderable_moves(&self, selected_version_group: &str) -> (r: Vec<MoveRow>)
        ensures
            ({
                let listed = match self.pokemon.moves {
                    Some(ms) => in_learn_order(moves_in_group(ms@, selected_version_group@)),
                    None => Seq::empty(),
                };
                &&& r@.map_values(|row: MoveRow| move_row_view(row)) == move_rows(listed, self.moves@)
                &&& ordered_pairs(listed)
            }),
    {
        let mut r: Vec<MoveRow> = Vec::new();
        let ms = match &self.pokemon.moves {
            Some(ms) => ms,
            None => {
                assert(ordered_pairs(Seq::<(PokemonMove, PokemonMoveVersion)>::empty()));
                return r;
            },
        };
        let ghost g = selected_version_group@;
        let mut sorted: Vec<(usize, &PokemonMoveVersion)> = Vec::new();
        let mut k: usize = 0;
        while k < ms.len()
            invariant
                g == selected_version_group@,
                k <= ms@.len(),
                forall|j: int| 0 <= j < sorted@.len() ==> sorted@[j].0 < ms@.len(),
                entries_view(sorted@, ms@) == in_learn_order(moves_in_group(ms@.take(k as int), g)),
            decreases ms@.len() - k,
        {
            assert(ms@.take(k + 1).drop_last() =~= ms@.take(k as int));
            assert(ms@.take(k + 1).last() == ms@[k as int]);
            let ghost prev = moves_in_group(ms@.take(k as int), g);
            let ghost next = moves_in_group(ms@.take(k + 1), g);
            let details = ms[k].get_renderable_version_group_details(selected_version_group);
            match details {
                Some(found) => {
                    let ghost f = details_in_group(ms@[k as int].version_group_details.unwrap()@, g);
                    assert(found@.map_values(|x: &PokemonMoveVersion| *x) == f);
                    assert(f.len() == found@.len());
                    if found.len() > 0 {
                        assert(f[0] == found@.map_values(|x: &PokemonMoveVersion| *x)[0]);
                        assert(next == prev.push((ms@[k as int], f[0])));
                        let ghost e = (ms@[k as int], f[0]);
                        let ghost before = entries_view(sorted@, ms@);
                        insert_entry(&mut sorted, (k, found[0]), Ghost(ms@));
                        assert(entries_view(sorted@, ms@) == insert_in_order(before, e));
                        assert(prev.push(e).drop_last() =~= prev);
                        assert(in_learn_order(next) == insert_in_order(in_learn_order(prev), e));
                    } else {
                        assert(next == prev);
                    }
                },
                None => {
                    assert(next == prev);
                },
            }
            k = k + 1;
        }
        assert(ms@.take(ms@.len() as int) =~= ms@);
        let ghost listed = entries_view(sorted@, ms@);
        proof {
            lemma_in_learn_order(moves_in_group(ms@, g));
        }
        let mut i: usize = 0;
        while i < sorted.len()
            invariant
                i <= sorted@.len(),
                listed == entries_view(sorted@, ms@),
                forall|j: int| 0 <= j < sorted@.len() ==> sorted@[j].0 < ms@.len(),
                r@.map_values(|row: MoveRow| move_row_view(row)) == move_rows(listed.take(i as int), self.moves@),
            decreases sorted@.len() - i,
        {
            let (mk, d) = sorted[i];
            assert(listed.take(i + 1).drop_last() =~= listed.take(i as int));
            assert(listed.take(i + 1).last() == (ms@[mk as int], *d));
            let m = &ms[mk];
            match &m.de_move {
                Some(mv) => {
                    let name = mv.get_name_or_stub();
                    match find_move(&self.moves, name.as_str()) {
                        Some(e) => {
                            let row = m.get_renderable_as_row(Some(e), d).unwrap();
                            let ghost prior = r@.map_values(|row: MoveRow| move_row_view(row));
                            let ghost shown = (move_cells(*e, *d), type_color(name_of(e.pk_type)));
                            r.push(row);
                            assert(r@.map_values(|row: MoveRow| move_row_view(row)) =~= prior.push(shown));
                        },
                        None => {},
                    }
                },
                None => {},
            }
            i = i + 1;
        }
        assert(listed.take(listed.len() as int) =~= listed);
        r
    }
}

/// The text of a creature's types, one after the other.
pub open spec fn types_text(p: Pokemon) -> Seq<char> {
    match p.types {
        Some(ts) => interleaved(shown_types(ts@).map_values(|t: (Seq<char>, (u8, u8, u8))| t.0), ""@),
        None => interleaved(Seq::empty(), ""@),
    }
}

/// The rows of the basic information: a label and a value each.
pub open spec fn basic_info_rows(info: ExtendedPokemonInfo) -> Seq<Seq<Seq<char>>> {
    let p = info.pokemon;
    let s = info.species;
    seq![
        seq![seq![PADDING] + "ID"@, number_or(p.id, Seq::empty())],
        seq![seq![PADDING] + "Order"@, number_or(p.order, Seq::empty())],
        seq![seq![PADDING] + "Name"@, words_text(p.name)],
        seq![seq![PADDING] + "Types"@, types_text(p)],
        seq![seq![PADDING] + "Height"@, number_or(p.height, Seq::empty())],
        seq![seq![PADDING] + "Weight"@, number_or(p.weight, Seq::empty())],
        seq![seq![PADDING] + "Base Experience"@, number_or(p.base_experience, Seq::empty())],
        seq![seq![PADDING] + "Base Happiness"@, number_or(s.base_happiness, Seq::empty())],
        seq![seq![PADDING] + "Capture Rate"@, number_or(s.capture_rate, Seq::empty())],
        seq![seq![PADDING] + "Color"@, words_or(s.color, Seq::empty())],
        seq![seq![PADDING] + "Is Legendary"@, match s.is_legendary {
            Some(b) => yes_no(b),
            None => Seq::empty(),
        }],
    ]
}

fn label_row(label: &str, value: String) -> (r: Vec<String>)
    ensures
        r@.map_values(|c: String| c@) == seq![seq![PADDING] + label@, value@],
{
    let mut r: Vec<String> = Vec::new();
    r.push(append_padding(label));
    r.push(value);
    assert(r@.map_values(|c: String| c@) =~= seq![seq![PADDING] + label@, value@]);
    r
}

impl ExtendedPokemonInfo {
    /// The rows of the basic information on the creature and its species:
    /// number, order, name, types, height, weight, base experience, base
    /// happiness, capture rate, colour, and whether it is legendary.
    pub fn get_renderable_basic_info_items(&self) -> (r: Vec<Vec<String>>)
        ensures
            r@.map_values(|row: Vec<String>| row@.map_values(|c: String| c@)) == basic_info_rows(*self),
    {
        let p = &self.pokemon;
        let s = &self.species;
        let shown = p.get_renderable_types();
        let mut texts: Vec<String> = Vec::new();
        let mut i: usize = 0;
        while i < shown.len()
            invariant
                i <= shown@.len(),
                texts@.map_values(|t: String| t@) == shown@.take(i as int).map_values(
                    |t: (String, (u8, u8, u8))| t.0@,
                ),
            decreases shown@.len() - i,
        {
            let ghost prior = shown@.take(i as int).map_values(|t: (String, (u8, u8, u8))| t.0@);
            let t = shown[i].0.clone();
            assert(t@ == shown@[i as int].0@);
            texts.push(t);
            assert(texts@.map_values(|t: String| t@) =~= prior.push(shown@[i as int].0@));
            assert(shown@.take(i + 1).map_values(|t: (String, (u8, u8, u8))| t.0@) =~= prior.push(
                shown@[i as int].0@,
            ));
            i = i + 1;
        }
        assert(shown@.take(shown@.len() as int) =~= shown@);
        proof {
            match &p.types {
                Some(ts) => {
                    assert(texts@.map_values(|t: String| t@) =~= shown_types(ts@).map_values(
                        |t: (Seq<char>, (u8, u8, u8))| t.0,
                    ));
                },
                None => {
                    assert(texts@.map_values(|t: String| t@) =~= Seq::<Seq<char>>::empty());
                },
            }
        }
        let types = join_texts(&texts, "");
        let mut r: Vec<Vec<String>> = Vec::new();
        r.push(label_row("ID", p.get_renderable_id()));
        r.push(label_row("Order", p.get_renderable_order()));
        r.push(label_row("Name", p.get_renderable_name()));
        r.push(label_row("Types", types));
        r.push(label_row("Height", p.get_renderable_height()));
        r.push(label_row("Weight", p.get_renderable_weight()));
        r.push(label_row("Base Experience", p.get_renderable_base_experience()));
        r.push(label_row("Base Happiness", s.get_renderable_base_happiness()));
        r.push(label_row("Capture Rate", s.get_renderable_capture_rate()));
        r.push(label_row("Color", s.get_renderable_color()));
        r.push(label_row("Is Legendary", s.get_renderable_is_legendary()));
        assert(r@.map_values(|row: Vec<String>| row@.map_values(|c: String| c@)) =~~= basic_info_rows(*self));
        r
    }
}

} // verus!
