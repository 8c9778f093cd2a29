use vstd::prelude::*;

use crate::text::{chars_of, split_capitalize, split_capitalized, append_padding, int_text, decimal, PADDING};

verus! {

/// The text in an optional string, or nothing.
pub open spec fn text_or_empty(o: Option<String>) -> Seq<char> {
    match o {
        Some(s) => s@,
        None => Seq::empty(),
    }
}

/// The code of the language whose entries are shown.
pub open spec fn english() -> Seq<char> {
    seq!['e', 'n']
}

/// Whether two strings hold the same characters.
pub fn same_text(a: &str, b: &str) -> (r: bool)
    ensures
        r == (a@ == b@),
{
    let x = chars_of(a);
    let y = chars_of(b);
    if x.len() != y.len() {
        return false;
    }
    let mut i: usize = 0;
    while i < x.len()
        invariant
            x@ == a@,
            y@ == b@,
            x@.len() == y@.len(),
            i <= x@.len(),
            forall|k: int| 0 <= k < i ==> x@[k] == y@[k],
        decreases x@.len() - i,
    {
        if x[i] != y[i] {
            assert(a@[i as int] != b@[i as int]);
            return false;
        }
        i = i + 1;
    }
    assert(x@ =~= y@);
    true
}

fn is_english(s: &str) -> (r: bool)
    ensures
        r == (s@ == english()),
{
    let c = chars_of(s);
    let r = c.len() == 2 && c[0] == 'e' && c[1] == 'n';
    assert(r ==> c@ =~= english());
    r
}

fn copy_text(o: &Option<String>) -> (r: Option<String>)
    ensures
        r == *o,
{
    match o {
        Some(s) => Some(s.clone()),
        None => None,
    }
}

/// A reference to another resource: its name and where it can be fetched.
#[derive(Debug)]
pub struct NamedApiResource {
    pub name: Option<String>,
    pub url: Option<String>,
}

impl Clone for NamedApiResource {
    fn clone(&self) -> (r: Self)
        ensures
            r == *self,
    {
        NamedApiResource { name: copy_text(&self.name), url: copy_text(&self.url) }
    }
}

impl NamedApiResource {
    /// The name, or the empty string where there is none.
    pub fn get_name_or_stub(&self) -> (r: String)
        ensures
            r@ == text_or_empty(self.name),
    {
        match &self.name {
            Some(n) => n.clone(),
            None => String::new(),
        }
    }

    /// The address, or the empty string where there is none.
    pub fn get_url_or_stub(&self) -> (r: String)
        ensures
            r@ == text_or_empty(self.url),
    {
        match &self.url {
            Some(u) => u.clone(),
            None => String::new(),
        }
    }
}

/// The name of an optional reference, or nothing.
pub open spec fn name_of(o: Option<NamedApiResource>) -> Seq<char> {
    match o {
        Some(r) => text_or_empty(r.name),
        None => Seq::empty(),
    }
}

fn name_or_empty(o: &Option<NamedApiResource>) -> (r: String)
    ensures
        r@ == name_of(*o),
{
    match o {
        Some(res) => res.get_name_or_stub(),
        None => String::new(),
    }
}

/// A reference to a resource by address alone.
#[derive(Debug)]
pub struct APIResource {
    pub url: String,
}

/// One page of a listing: its size and the references on it.
#[derive(Debug)]
pub struct ListWrapper {
    pub count: Option<i32>,
    pub results: Option<Vec<NamedApiResource>>,
}

/// One page of the listing of creatures.
#[derive(Debug)]
pub struct PokemonListWrapper {
    pub count: Option<i32>,
    pub results: Option<Vec<NamedApiResource>>,
}

/// A flavour text in one language and version group.
#[derive(Debug)]
pub struct FlavorTextEntry {
    pub flavor_text: Option<String>,
    pub version_group: Option<NamedApiResource>,
    pub language: Option<NamedApiResource>,
}

/// The index of a creature in one game version.
#[derive(Debug)]
pub struct VersionGameIndex {
    pub game_index: Option<i32>,
    pub version: Option<NamedApiResource>,
}

/// An effect text, long and short, in one language.
#[derive(Debug)]
pub struct VerboseEffect {
    pub effect: Option<String>,
    pub short_effect: Option<String>,
    pub language: Option<NamedApiResource>,
}

impl VerboseEffect {
    /// The code of the effect's language, or the empty string.
    pub fn get_language(&self) -> (r: String)
        ensures
            r@ == name_of(self.language),
    {
        name_or_empty(&self.language)
    }

    /// The long effect text, or the empty string.
    pub fn get_effect(&self) -> (r: String)
        ensures
            r@ == text_or_empty(self.effect),
    {
        match &self.effect {
            Some(e) => e.clone(),
            None => String::new(),
        }
    }

    /// The short effect text, or the empty string.
    pub fn get_short_effect(&self) -> (r: String)
        ensures
            r@ == text_or_empty(self.short_effect),
    {
        match &self.short_effect {
            Some(e) => e.clone(),
            None => String::new(),
        }
    }
}

/// The short effect of the first English entry, or nothing.
pub open spec fn english_short_effect(entries: Seq<VerboseEffect>) -> Seq<char>
    decreases entries.len(),
{
    if entries.len() == 0 {
        Seq::empty()
    } else if name_of(entries[0].language) == english() {
        text_or_empty(entries[0].short_effect)
    } else {
        english_short_effect(entries.drop_first())
    }
}

/// The short effect of the first English entry of an optional list, or
/// nothing.
pub open spec fn effect_entry_text(o: Option<Vec<VerboseEffect>>) -> Seq<char> {
    match o {
        Some(v) => english_short_effect(v@),
        None => Seq::empty(),
    }
}

/// The short effect of the first English entry, or the empty string.
pub fn first_english_effect(entries: &Option<Vec<VerboseEffect>>) -> (r: String)
    ensures
        r@ == effect_entry_text(*entries),
{
    match entries {
        None => String::new(),
        Some(v) => {
            let mut i: usize = 0;
            assert(v@.subrange(0, v@.len() as int) =~= v@);
            while i < v.len()
                invariant
                    i <= v@.len(),
                    effect_entry_text(*entries) == english_short_effect(v@),
                    english_short_effect(v@) == english_short_effect(v@.subrange(i as int, v@.len() as int)),
                decreases v@.len() - i,
            {
                let lang = v[i].get_language();
                assert(v@.subrange(i as int, v@.len() as int)[0] == v@[i as int]);
                if is_english(lang.as_str()) {
                    assert(name_of(v@[i as int].language) == english());
                    assert(english_short_effect(v@.subrange(i as int, v@.len() as int))
                        == text_or_empty(v@[i as int].short_effect));
                    let r = v[i].get_short_effect();
                    return r;
                }
                assert(v@.subrange(i as int, v@.len() as int).drop_first()
                    =~= v@.subrange(i + 1, v@.len() as int));
                i = i + 1;
            }
            String::new()
        },
    }
}

/// A name shown as a label: capitalized words behind a no-break space.
pub open spec fn label_text(o: Option<String>) -> Seq<char> {
    match o {
        Some(s) => seq![PADDING] + split_capitalized(s@),
        None => Seq::empty(),
    }
}

/// A number as text, or `fallback` where there is none.
pub open spec fn number_or(o: Option<i32>, fallback: Seq<char>) -> Seq<char> {
    match o {
        Some(n) => decimal(n as int),
        None => fallback,
    }
}

/// The name of an optional reference as capitalized words, or `fallback`.
pub open spec fn words_or(o: Option<NamedApiResource>, fallback: Seq<char>) -> Seq<char> {
    match o {
        Some(r) => match r.name {
            Some(n) => split_capitalized(n@),
            None => fallback,
        },
        None => fallback,
    }
}

pub(crate) fn label(o: &Option<String>) -> (r: String)
    ensures
        r@ == label_text(*o),
{
    match o {
        Some(s) => append_padding(split_capitalize(s.as_str()).as_str()),
        None => String::new(),
    }
}

pub(crate) fn number_or_dash(o: Option<i32>) -> (r: String)
    ensures
        r@ == number_or(o, seq!['-']),
{
    match o {
        Some(n) => int_text(n),
        None => crate::text::string_of(&vec!['-']),
    }
}

pub(crate) fn number_or_empty(o: Option<i32>) -> (r: String)
    ensures
        r@ == number_or(o, Seq::empty()),
{
    match o {
        Some(n) => int_text(n),
        None => String::new(),
    }
}

pub(crate) fn words_or_dash(o: &Option<NamedApiResource>) -> (r: String)
    ensures
        r@ == words_or(*o, seq!['-']),
{
    match o {
        Some(res) => match &res.name {
            Some(n) => split_capitalize(n.as_str()),
            None => crate::text::string_of(&vec!['-']),
        },
        None => crate::text::string_of(&vec!['-']),
    }
}

pub(crate) fn words_or_empty(o: &Option<NamedApiResource>) -> (r: String)
    ensures
        r@ == words_or(*o, Seq::empty()),
{
    match o {
        Some(res) => match &res.name {
            Some(n) => split_capitalize(n.as_str()),
            None => String::new(),
        },
        None => String::new(),
    }
}

} // verus!
