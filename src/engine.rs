use vstd::prelude::*;

use crate::abilities::{PokemonAbility, PokemonAbilityExt};
use crate::creature::Pokemon;
use crate::encounters::PokemonEncounter;
use crate::info::ExtendedPokemonInfo;
use crate::models::{text_or_empty, ListWrapper, NamedApiResource};
use crate::moves::{PokemonMove, PokemonMoveExt};
use crate::selection::{kept, lemma_kept_is_filter, StatefulList};
use crate::species::{is_unknown, PokemonSpecies};
use crate::table_state::SwitchableTableState;
use crate::text::{append_chars, chars_of, lower_of, lowercase, string_of};

verus! {

/// The root of the remote API.
pub const POKEAPI_DEFAULT_URL: &'static str = "https://pokeapi.co/api/v2/";

/// The query that asks for a whole listing in one page.
pub const DEFAULT_LIST_QUERY_PARAMS: &'static str = "?limit=100000&offset=0";

/// The address of the whole listing of the kind `list_name`.
pub fn list_url(list_name: &str) -> (r: String)
    ensures
        r@ == POKEAPI_DEFAULT_URL@ + list_name@ + DEFAULT_LIST_QUERY_PARAMS@,
{
    let mut v: Vec<char> = Vec::new();
    append_chars(&mut v, POKEAPI_DEFAULT_URL);
    append_chars(&mut v, list_name);
    append_chars(&mut v, DEFAULT_LIST_QUERY_PARAMS);
    string_of(&v)
}

/// The entries of a fetched listing page; none where the page could not be
/// fetched or has no results.
pub fn list_results(page: Option<ListWrapper>) -> (r: Vec<NamedApiResource>)
    ensures
        r@ == match page {
            Some(w) => match w.results {
                Some(v) => v@,
                None => Seq::empty(),
            },
            None => Seq::empty(),
        },
{
    match page {
        Some(w) => match w.results {
            Some(v) => v,
            None => Vec::new(),
        },
        None => Vec::new(),
    }
}

/// Which part of the screen takes the keys.
#[derive(Clone, Copy, Debug, PartialEq, Eq, Structural)]
pub enum SelectedPart {
    List,
    Main,
}

/// What the main part of the screen shows.
#[derive(Clone, Copy, Debug, PartialEq, Eq, Structural)]
pub enum CurrentMainPageState {
    BasicInfo,
    VersionGroupSelection,
}

/// Whether `needle` occurs in `hay` as a run of consecutive characters.
pub open spec fn contains_text(hay: Seq<char>, needle: Seq<char>) -> bool {
    exists|i: int| 0 <= i <= hay.len() - needle.len() && #[trigger] hay.subrange(i, i + needle.len()) == needle
}

/// Whether an entry's name holds the search text, both in lower case.
pub open spec fn name_matches(p: NamedApiResource, search: Seq<char>) -> bool {
    contains_text(lower_of(text_or_empty(p.name)), lower_of(search))
}

/// Whether a result answers the latest request: only such a result is
/// applied.
pub open spec fn applies(ticket: u64, latest: u64) -> bool {
    ticket == latest
}

/// Of two requests made one after the other, the result of the later one is
/// applied and that of the earlier one never is, in whatever order they come
/// back.
pub proof fn lemma_only_latest_applies(first: u64, second: u64)
    requires
        first < second,
    ensures
        applies(second, second),
        !applies(first, second),
{
}

/// The address a reference gives, or nothing.
pub open spec fn url_of_ref(o: Option<NamedApiResource>) -> Seq<char> {
    match o {
        Some(r) => text_or_empty(r.url),
        None => Seq::empty(),
    }
}

/// The addresses among `urls` that are not empty: a reference without an
/// address is not fetched.
pub open spec fn present(urls: Seq<Seq<char>>) -> Seq<Seq<char>> {
    urls.filter(|u: Seq<char>| u.len() > 0)
}

/// The addresses of a creature's abilities, in its order, leaving out the
/// references that give none.
pub open spec fn ability_urls(p: Pokemon) -> Seq<Seq<char>> {
    match p.abilities {
        Some(v) => present(v@.map_values(|a: PokemonAbility| url_of_ref(a.ability))),
        None => Seq::empty(),
    }
}

/// The addresses of a creature's moves, in its order, leaving out the
/// references that give none.
pub open spec fn move_urls(p: Pokemon) -> Seq<Seq<char>> {
    match p.moves {
        Some(v) => present(v@.map_values(|m: PokemonMove| url_of_ref(m.de_move))),
        None => Seq::empty(),
    }
}

fn contains_chars(hay: &Vec<char>, needle: &Vec<char>) -> (r: bool)
    ensures
        r == contains_text(hay@, needle@),
{
    if needle.len() > hay.len() {
        return false;
    }
    let hl = hay.len();
    let last = hl - needle.len();
    let mut i: usize = 0;
    while i <= last
        invariant
            needle@.len() <= hay@.len(),
            hl == hay@.len(),
            last == hay@.len() - needle@.len(),
            forall|j: int| 0 <= j < i ==> #[trigger] hay@.subrange(j, j + needle@.len()) != needle@,
        decreases last + 1 - i,
    {
        let mut k: usize = 0;
        let mut same = true;
        while k < needle.len()
            invariant
                i <= last,
                needle@.len() <= hay@.len(),
                hl == hay@.len(),
                last == hay@.len() - needle@.len(),
                k <= needle@.len(),
                same == forall|m: int| 0 <= m < k ==> hay@[i + m] == needle@[m],
            decreases needle@.len() - k,
        {
            assert(i + k < hay@.len());
            if hay[i + k] != needle[k] {
                same = false;
            }
            k = k + 1;
        }
        if same {
            assert(hay@.subrange(i as int, i + needle@.len()) =~= needle@);
            return true;
        }
        let ghost m = choose|m: int| 0 <= m < needle@.len() && hay@[i + m] != needle@[m];
        assert(hay@.subrange(i as int, i + needle@.len())[m] != needle@[m]);
        if i == last {
            return false;
        }
        i = i + 1;
    }
    false
}

fn name_holds(p: &NamedApiResource, query: &Vec<char>) -> (r: bool)
    ensures
        r == contains_text(lower_of(text_or_empty(p.name)), query@),
{
    let n = p.get_name_or_stub();
    let l = lowercase(n.as_str());
    contains_chars(&chars_of(l.as_str()), query)
}

fn url_or_empty(o: &Option<NamedApiResource>) -> (r: String)
    ensures
        r@ == url_of_ref(*o),
{
    match o {
        Some(res) => res.get_url_or_stub(),
        None => String::new(),
    }
}

/// The address of a creature's species, where it gives one.
pub fn species_url(p: &Pokemon) -> (r: Option<String>)
    ensures
        r.is_some() == (p.species matches Some(s) && s.url is Some),
        r matches Some(u) ==> u@ == url_of_ref(p.species),
{
    match &p.species {
        Some(s) => match &s.url {
            Some(u) => Some(u.clone()),
            None => None,
        },
        None => None,
    }
}

/// A request for a creature: the address to fetch it and its species from,
/// and the ticket its result must carry.
pub struct ResolveRequest {
    pub ticket: u64,
    pub url: String,
}

/// A request for the resources a creature refers to: one batch of addresses
/// for its abilities and one for its moves, in its order and leaving out the
/// references that give no address, and where it can be met; with the
/// ticket their results must carry.
pub struct DetailsRequest {
    pub ticket: u64,
    pub ability_urls: Vec<String>,
    pub move_urls: Vec<String>,
    pub encounters_url: Option<String>,
}

/// Hands out the tickets of requests, each larger than the one before.
pub struct RequestCounter {
    issued: u64,
}

impl RequestCounter {
    /// The ticket handed out last; zero before the first.
    pub closed spec fn latest(&self) -> u64 {
        self.issued
    }

    /// No ticket handed out yet.
    pub fn new() -> (r: Self)
        ensures
            r.latest() == 0,
    {
        RequestCounter { issued: 0 }
    }

    /// Whether a result with this ticket answers the latest request.
    pub fn is_latest(&self, ticket: u64) -> (r: bool)
        ensures
            r == applies(ticket, self.latest()),
    {
        ticket == self.issued
    }

    /// Whether another ticket can be handed out.
    pub fn can_issue(&self) -> (r: bool)
        ensures
            r == (self.latest() < u64::MAX),
    {
        self.issued < u64::MAX
    }

    /// Hands out the next ticket.
    pub fn issue(&mut self) -> (r: u64)
        requires
            old(self).latest() < u64::MAX,
        ensures
            r == final(self).latest(),
            final(self).latest() == old(self).latest() + 1,
    {
        self.issued = self.issued + 1;
        self.issued
    }
}

/// The state of the browser: the list of creatures with its search text, the
/// list of version groups, and the creature on show.
pub struct App {
    pub search: String,
    pub loading: bool,
    pub pokemon_list: StatefulList<NamedApiResource>,
    pub selected_part: SelectedPart,
    pub version_groups: StatefulList<NamedApiResource>,
    pub current_pokemon: Option<ExtendedPokemonInfo>,
    pub selected_version_group: Option<NamedApiResource>,
    pub rendered_moves_count: Option<usize>,
    pub current_main_page_state: CurrentMainPageState,
    pub pokemon_moves_list_state: SwitchableTableState,
    pub requests: RequestCounter,
}

/// Whether two states agree on the search text and on both lists.
pub open spec fn keeps_catalogue(a: App, b: App) -> bool {
    &&& a.search == b.search
    &&& a.pokemon_list == b.pokemon_list
    &&& a.version_groups == b.version_groups
}

/// Whether two states agree on the part that takes the keys, the chosen
/// version group and the page on show.
pub open spec fn keeps_page(a: App, b: App) -> bool {
    &&& a.selected_part == b.selected_part
    &&& a.selected_version_group == b.selected_version_group
    &&& a.current_main_page_state == b.current_main_page_state
}

/// Whether two states agree on the moves table: how many rows it had and
/// which is highlighted.
pub open spec fn keeps_moves_table(a: App, b: App) -> bool {
    &&& a.rendered_moves_count == b.rendered_moves_count
    &&& a.pokemon_moves_list_state == b.pokemon_moves_list_state
}

impl App {
    /// Both lists keep their cursors on visible entries.
    pub open spec fn wf(&self) -> bool {
        self.pokemon_list.wf() && self.version_groups.wf()
    }

    /// The ticket of the latest request.
    pub open spec fn latest_ticket(&self) -> u64 {
        self.requests.latest()
    }

    /// Empty lists, no search text and nothing on show.
    pub fn new() -> (r: Self)
        ensures
            r.wf(),
            r.search@.len() == 0,
            !r.loading,
            r.pokemon_list.all().len() == 0,
            r.pokemon_list.visible().len() == 0,
            r.pokemon_list.cursor() is None,
            r.version_groups.all().len() == 0,
            r.version_groups.visible().len() == 0,
            r.version_groups.cursor() is None,
            r.selected_part == SelectedPart::List,
            r.current_pokemon is None,
            r.selected_version_group is None,
            r.rendered_moves_count is None,
            r.current_main_page_state == CurrentMainPageState::VersionGroupSelection,
            r.pokemon_moves_list_state.selected() is None,
            r.latest_ticket() == 0,
    {
        App {
            search: String::new(),
            loading: false,
            pokemon_list: StatefulList::with_items(Vec::new()),
            selected_part: SelectedPart::List,
            version_groups: StatefulList::with_items(Vec::new()),
            current_pokemon: None,
            selected_version_group: None,
            rendered_moves_count: None,
            current_main_page_state: CurrentMainPageState::VersionGroupSelection,
            pokemon_moves_list_state: SwitchableTableState::new(),
            requests: RequestCounter::new(),
        }
    }

    /// Fills both lists, showing every entry with the cursor on the first.
    pub fn set_pokemon_list_and_version_groups(
        &mut self,
        pokemon_list: Vec<NamedApiResource>,
        version_groups: Vec<NamedApiResource>,
    )
        ensures
            final(self).wf(),
            final(self).pokemon_list.all() == pokemon_list@,
            final(self).pokemon_list.visible() == pokemon_list@,
            final(self).pokemon_list.cursor() == (if pokemon_list@.len() > 0 {
                Some(0usize)
            } else {
                None::<usize>
            }),
            final(self).version_groups.all() == version_groups@,
            final(self).version_groups.visible() == version_groups@,
            final(self).version_groups.cursor() == (if version_groups@.len() > 0 {
                Some(0usize)
            } else {
                None::<usize>
            }),
            final(self).search == old(self).search,
            final(self).loading == old(self).loading,
            final(self).current_pokemon == old(self).current_pokemon,
            keeps_page(*final(self), *old(self)),
            keeps_moves_table(*final(self), *old(self)),
            final(self).requests == old(self).requests,
    {
        self.pokemon_list = StatefulList::with_items(pokemon_list);
        self.version_groups = StatefulList::with_items(version_groups);
    }

    /// Nothing on show: back to the list and to choosing a version group.
    pub fn reset_current_pokemon(&mut self)
        ensures
            final(self).current_pokemon is None,
            final(self).current_main_page_state == CurrentMainPageState::VersionGroupSelection,
            final(self).selected_part == SelectedPart::List,
            final(self).selected_version_group is None,
            keeps_catalogue(*final(self), *old(self)),
            final(self).loading == old(self).loading,
            keeps_moves_table(*final(self), *old(self)),
            final(self).requests == old(self).requests,
    {
        self.current_pokemon = None;
        self.current_main_page_state = CurrentMainPageState::VersionGroupSelection;
        self.selected_part = SelectedPart::List;
        self.selected_version_group = None;
    }

    /// Shows the creatures whose names hold the search text, ignoring case,
    /// in the catalogue's order, with the cursor on the first of them.
    pub fn filter_list(&mut self)
        requires
            old(self).wf(),
        ensures
            final(self).wf(),
            final(self).search == old(self).search,
            final(self).pokemon_list.all() == old(self).pokemon_list.all(),
            final(self).pokemon_list.visible() == old(self).pokemon_list.all().filter(
                |p: NamedApiResource| name_matches(p, old(self).search@),
            ),
            final(self).pokemon_list.cursor() == (if final(self).pokemon_list.visible().len() > 0 {
                Some(0usize)
            } else {
                None::<usize>
            }),
            final(self).version_groups == old(self).version_groups,
            final(self).loading == old(self).loading,
            final(self).current_pokemon == old(self).current_pokemon,
            keeps_page(*final(self), *old(self)),
            keeps_moves_table(*final(self), *old(self)),
            final(self).requests == old(self).requests,
    {
        let q = lowercase(self.search.as_str());
        let query = chars_of(q.as_str());
        let ghost all = self.pokemon_list.all();
        let ghost search = self.search@;
        let pred = |p: &NamedApiResource| -> (b: bool)
            ensures
                b == contains_text(lower_of(text_or_empty(p.name)), query@),
            { name_holds(p, &query) };
        self.pokemon_list.apply_filter(pred);
        proof {
            let keep = choose|keep: Seq<bool>|
                {
                    &&& keep.len() == all.len()
                    &&& forall|i: int|
                        0 <= i < keep.len() ==> pred.ensures((&all[i],), #[trigger] keep[i])
                    &&& self.pokemon_list.visible() == kept(all, keep)
                };
            let f = |p: NamedApiResource| name_matches(p, search);
            assert forall|i: int| 0 <= i < all.len() implies keep[i] == f(all[i]) by {
                assert(pred.ensures((&all[i],), keep[i]));
            }
            lemma_kept_is_filter(all, keep, f);
        }
    }

    /// Adds a character to the search text and filters again.
    pub fn on_search_append(&mut self, character: char)
        requires
            old(self).wf(),
        ensures
            final(self).wf(),
            final(self).search@ == old(self).search@.push(character),
            final(self).pokemon_list.all() == old(self).pokemon_list.all(),
            final(self).pokemon_list.visible() == old(self).pokemon_list.all().filter(
                |p: NamedApiResource| name_matches(p, final(self).search@),
            ),
            final(self).pokemon_list.cursor() == (if final(self).pokemon_list.visible().len() > 0 {
                Some(0usize)
            } else {
                None::<usize>
            }),
            final(self).version_groups == old(self).version_groups,
            final(self).loading == old(self).loading,
            final(self).current_pokemon == old(self).current_pokemon,
            keeps_page(*final(self), *old(self)),
            keeps_moves_table(*final(self), *old(self)),
            final(self).requests == old(self).requests,
    {
        let mut v = chars_of(self.search.as_str());
        v.push(character);
        self.search = string_of(&v);
        self.filter_list();
    }

    /// Takes the last character off the search text, if any, and filters
    /// again.
    pub fn on_search_remove(&mut self)
        requires
            old(self).wf(),
        ensures
            final(self).wf(),
            final(self).search@ == (if old(self).search@.len() > 0 {
                old(self).search@.drop_last()
            } else {
                old(self).search@
            }),
            final(self).pokemon_list.all() == old(self).pokemon_list.all(),
            final(self).pokemon_list.visible() == old(self).pokemon_list.all().filter(
                |p: NamedApiResource| name_matches(p, final(self).search@),
            ),
            final(self).pokemon_list.cursor() == (if final(self).pokemon_list.visible().len() > 0 {
                Some(0usize)
            } else {
                None::<usize>
            }),
            final(self).version_groups == old(self).version_groups,
            final(self).loading == old(self).loading,
            final(self).current_pokemon == old(self).current_pokemon,
            keeps_page(*final(self), *old(self)),
            keeps_moves_table(*final(self), *old(self)),
            final(self).requests == old(self).requests,
    {
        let mut v = chars_of(self.search.as_str());
        if v.len() > 0 {
            v.pop();
        }
        self.search = string_of(&v);
        self.filter_list();
    }

    /// Takes the version group under the cursor and turns to the creature's
    /// basic information.
    pub fn on_version_group_selected(&mut self)
        requires
            old(self).wf(),
        ensures
            final(self).wf(),
            final(self).selected_version_group == match old(self).version_groups.cursor() {
                Some(c) => Some(old(self).version_groups.visible()[c as int]),
                None => None,
            },
            final(self).current_main_page_state == CurrentMainPageState::BasicInfo,
            keeps_catalogue(*final(self), *old(self)),
            final(self).loading == old(self).loading,
            final(self).current_pokemon == old(self).current_pokemon,
            final(self).selected_part == old(self).selected_part,
            keeps_moves_table(*final(self), *old(self)),
            final(self).requests == old(self).requests,
    {
        self.selected_version_group = match self.version_groups.get_selected() {
            Some(g) => Some(g.clone()),
            None => None,
        };
        self.current_main_page_state = CurrentMainPageState::BasicInfo;
    }

    /// Starts resolving the creature under the cursor: what was on show is
    /// dropped, and a request with a new ticket is made for its address.
    /// Nothing is requested where no creature is under the cursor, where it
    /// has no address, or once every ticket has been used.
    pub fn on_pokemon_selected(&mut self) -> (r: Option<ResolveRequest>)
        requires
            old(self).wf(),
        ensures
            final(self).wf(),
            old(self).pokemon_list.cursor() is None ==> r is None && *final(self) == *old(self),
            old(self).pokemon_list.cursor() is Some ==> {
                &&& final(self).current_pokemon is None
                &&& final(self).selected_version_group is None
                &&& final(self).current_main_page_state == CurrentMainPageState::VersionGroupSelection
                &&& final(self).selected_part == if r is Some {
                    SelectedPart::List
                } else {
                    SelectedPart::Main
                }
                &&& final(self).loading == r is Some
                &&& keeps_catalogue(*final(self), *old(self))
                &&& keeps_moves_table(*final(self), *old(self))
            },
            r is None ==> final(self).requests == old(self).requests,
            r matches Some(req) ==> {
                let p = old(self).pokemon_list.visible()[old(self).pokemon_list.cursor().unwrap() as int];
                &&& req.url@ == url_of_ref(Some(p))
                &&& req.url@.len() > 0
                &&& req.ticket == final(self).latest_ticket()
                &&& final(self).latest_ticket() == old(self).latest_ticket() + 1
            },
            (old(self).pokemon_list.cursor() matches Some(c) && url_of_ref(
                Some(old(self).pokemon_list.visible()[c as int]),
            ).len() > 0 && old(self).latest_ticket() < u64::MAX) <==> r is Some,
    {
        let url = match self.pokemon_list.get_selected() {
            Some(p) => p.get_url_or_stub(),
            None => {
                return None;
            },
        };
        self.reset_current_pokemon();
        if chars_of(url.as_str()).len() == 0 || !self.requests.can_issue() {
            self.loading = false;
            self.selected_part = SelectedPart::Main;
            return None;
        }
        self.loading = true;
        let ticket = self.requests.issue();
        Some(ResolveRequest { ticket, url })
    }

    /// Applies the result of a request for a creature, fetched with its
    /// species, where it answers the latest request; the creature is then on
    /// show, with a species of which nothing is known where that could not
    /// be fetched, and nothing is on show where the creature could not be
    /// fetched. The result of an earlier request changes nothing.
    pub fn apply_pokemon(
        &mut self,
        ticket: u64,
        pokemon: Option<Pokemon>,
        species: Option<PokemonSpecies>,
    )
        requires
            old(self).wf(),
        ensures
            final(self).wf(),
            !applies(ticket, old(self).latest_ticket()) ==> *final(self) == *old(self),
            applies(ticket, old(self).latest_ticket()) ==> {
                &&& !final(self).loading
                &&& final(self).selected_part == SelectedPart::Main
                &&& final(self).current_pokemon is Some == pokemon is Some
                &&& (final(self).current_pokemon matches Some(info) ==> {
                    &&& info.pokemon == pokemon.unwrap()
                    &&& info.abilities@.len() == 0
                    &&& info.moves@.len() == 0
                    &&& info.encounters@.len() == 0
                    &&& species matches Some(s) ==> info.species == s
                    &&& species is None ==> is_unknown(info.species)
                })
                &&& keeps_catalogue(*final(self), *old(self))
                &&& final(self).selected_version_group == old(self).selected_version_group
                &&& final(self).current_main_page_state == old(self).current_main_page_state
                &&& keeps_moves_table(*final(self), *old(self))
                &&& final(self).requests == old(self).requests
            },
    {
        if !self.requests.is_latest(ticket) {
            return;
        }
        self.loading = false;
        self.selected_part = SelectedPart::Main;
        self.current_pokemon = match pokemon {
            Some(p) => Some(ExtendedPokemonInfo {
                pokemon: p,
                abilities: Vec::new(),
                moves: Vec::new(),
                species: match species {
                    Some(s) => s,
                    None => PokemonSpecies::unknown(),
                },
                encounters: Vec::new(),
            }),
            None => None,
        };
    }

    /// Opens the creature's moves and abilities: the highlighted row is
    /// dropped, and where their details have not been fetched yet, a request
    /// with a new ticket is made for them, in the creature's order.
    pub fn on_moves_and_abilities_open(&mut self) -> (r: Option<DetailsRequest>)
        requires
            old(self).wf(),
        ensures
            final(self).wf(),
            final(self).pokemon_moves_list_state.selected() is None,
            keeps_catalogue(*final(self), *old(self)),
            keeps_page(*final(self), *old(self)),
            final(self).current_pokemon == old(self).current_pokemon,
            r is None ==> {
                &&& final(self).loading == old(self).loading
                &&& final(self).rendered_moves_count == old(self).rendered_moves_count
                &&& final(self).requests == old(self).requests
            },
            r matches Some(req) ==> {
                let p = old(self).current_pokemon.unwrap().pokemon;
                &&& req.ability_urls@.map_values(|u: String| u@) == ability_urls(p)
                &&& req.move_urls@.map_values(|u: String| u@) == move_urls(p)
                &&& req.encounters_url.is_some() == p.location_area_encounters.is_some()
                &&& req.encounters_url matches Some(u) ==> u@ == text_or_empty(p.location_area_encounters)
                &&& req.ticket == final(self).latest_ticket()
                &&& final(self).latest_ticket() == old(self).latest_ticket() + 1
                &&& final(self).loading
                &&& final(self).rendered_moves_count is None
            },
            (old(self).current_pokemon matches Some(info) && info.abilities@.len() == 0
                && info.moves@.len() == 0 && old(self).latest_ticket() < u64::MAX) <==> r is Some,
    {
        self.pokemon_moves_list_state = SwitchableTableState::new();
        if !self.requests.can_issue() {
            return None;
        }
        let (ability_urls, move_urls, encounters_url) = match &self.current_pokemon {
            None => {
                return None;
            },
            Some(info) => {
                if info.abilities.len() > 0 || info.moves.len() > 0 {
                    return None;
                }
                let mut a: Vec<String> = Vec::new();
                match &info.pokemon.abilities {
                    Some(v) => {
                        let mut i: usize = 0;
                        while i < v.len()
                            invariant
                                i <= v@.len(),
                                a@.map_values(|u: String| u@) == present(v@.take(i as int).map_values(
                                    |x: PokemonAbility| url_of_ref(x.ability),
                                )),
                            decreases v@.len() - i,
                        {
                            let ghost prior = v@.take(i as int).map_values(|x: PokemonAbility| url_of_ref(x.ability));
                            let ghost kept_before = a@.map_values(|u: String| u@);
                            let u = url_or_empty(&v[i].ability);
                            let present_here = chars_of(u.as_str()).len() > 0;
                            if present_here {
                                a.push(u);
                                assert(a@.map_values(|u: String| u@) =~= kept_before.push(url_of_ref(v@[i as int].ability)));
                            }
                            proof {
                                let next = v@.take(i + 1).map_values(|x: PokemonAbility| url_of_ref(x.ability));
                                assert(next =~= prior.push(url_of_ref(v@[i as int].ability)));
                                assert(next.drop_last() =~= prior);
                                reveal(Seq::filter);
                            }
                            i = i + 1;
                        }
                        assert(v@.take(v@.len() as int) =~= v@);
                    },
                    None => {},
                }
                assert(a@.map_values(|u: String| u@) == ability_urls(info.pokemon));
                let mut m: Vec<String> = Vec::new();
                match &info.pokemon.moves {
                    Some(v) => {
                        let mut i: usize = 0;
                        while i < v.len()
                            invariant
                                i <= v@.len(),
                                m@.map_values(|u: String| u@) == present(v@.take(i as int).map_values(
                                    |x: PokemonMove| url_of_ref(x.de_move),
                                )),
                            decreases v@.len() - i,
                        {
                            let ghost prior = v@.take(i as int).map_values(|x: PokemonMove| url_of_ref(x.de_move));
                            let ghost kept_before = m@.map_values(|u: String| u@);
                            let u = url_or_empty(&v[i].de_move);
                            let present_here = chars_of(u.as_str()).len() > 0;
                            if present_here {
                                m.push(u);
                                assert(m@.map_values(|u: String| u@) =~= kept_before.push(url_of_ref(v@[i as int].de_move)));
                            }
                            proof {
                                let next = v@.take(i + 1).map_values(|x: PokemonMove| url_of_ref(x.de_move));
                                assert(next =~= prior.push(url_of_ref(v@[i as int].de_move)));
                                assert(next.drop_last() =~= prior);
                                reveal(Seq::filter);
                            }
                            i = i + 1;
                        }
                        assert(v@.take(v@.len() as int) =~= v@);
                    },
                    None => {},
                }
                assert(m@.map_values(|u: String| u@) == move_urls(info.pokemon));
                let e = match &info.pokemon.location_area_encounters {
                    Some(u) => Some(u.clone()),
                    None => None,
                };
                (a, m, e)
            },
        };
        self.loading = true;
        self.rendered_moves_count = None;
        let ticket = self.requests.issue();
        Some(DetailsRequest { ticket, ability_urls, move_urls, encounters_url })
    }

    /// Applies the fetched details of the creature on show, where they answer
    /// the latest request. The result of an earlier request changes nothing.
    pub fn apply_details(
        &mut self,
        ticket: u64,
        abilities: Vec<PokemonAbilityExt>,
        moves: Vec<PokemonMoveExt>,
        encounters: Vec<PokemonEncounter>,
    )
        requires
            old(self).wf(),
        ensures
            final(self).wf(),
            !applies(ticket, old(self).latest_ticket()) ==> *final(self) == *old(self),
            applies(ticket, old(self).latest_ticket()) ==> {
                &&& !final(self).loading
                &&& final(self).current_pokemon is Some == old(self).current_pokemon is Some
                &&& (final(self).current_pokemon matches Some(info) ==> {
                    let before = old(self).current_pokemon.unwrap();
                    &&& info.pokemon == before.pokemon
                    &&& info.species == before.species
                    &&& info.abilities == abilities
                    &&& info.moves == moves
                    &&& info.encounters == encounters
                })
                &&& keeps_catalogue(*final(self), *old(self))
                &&& keeps_page(*final(self), *old(self))
                &&& keeps_moves_table(*final(self), *old(self))
                &&& final(self).requests == old(self).requests
            },
    {
        if !self.requests.is_latest(ticket) {
            return;
        }
        self.loading = false;
        let current = self.current_pokemon.take();
        self.current_pokemon = match current {
            Some(info) => Some(ExtendedPokemonInfo {
                pokemon: info.pokemon,
                abilities,
                moves,
                species: info.species,
                encounters,
            }),
            None => None,
        };
    }
}

} // verus!
