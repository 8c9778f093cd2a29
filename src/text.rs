use vstd::prelude::*;
use vstd::std_specs::iter::IteratorSpec;

verus! {

/// What `char::to_uppercase` yields for a character.
pub uninterp spec fn upper_of(c: char) -> Seq<char>;

/// What `str::to_lowercase` yields for a string.
pub uninterp spec fn lower_of(s: Seq<char>) -> Seq<char>;

/// The characters of the string, in order.
pub(crate) fn chars_of(s: &str) -> (r: Vec<char>)
    ensures
        r@ == s@,
{
    broadcast use vstd::string::group_string_axioms;

    let mut it = s.chars();
    let mut r: Vec<char> = Vec::new();
    loop
        invariant
            r@ + IteratorSpec::remaining(&it) == s@,
        ensures
            r@ == s@,
        decreases s@.len() - r@.len(),
    {
        match it.next() {
            Some(c) => {
                r.push(c);
                assert(r@ + IteratorSpec::remaining(&it) =~= s@);
            },
            None => {
                assert(r@ =~= s@);
                break;
            },
        }
    }
    r
}

/// Relies on `String`'s `FromIterator<char>`: the string made of these
/// characters, in order.
#[verifier::external_body]
pub(crate) fn string_of(v: &Vec<char>) -> (r: String)
    ensures
        r@ == v@,
{
    v.iter().collect()
}

/// Relies on `char::to_uppercase`: the characters of `c` in upper case.
#[verifier::external_body]
fn char_upper(c: char) -> (r: Vec<char>)
    ensures
        r@ == upper_of(c),
{
    c.to_uppercase().collect()
}

/// Relies on `str::to_lowercase`: the string in lower case; the empty string
/// stays empty.
#[verifier::external_body]
pub(crate) fn lowercase(s: &str) -> (r: String)
    ensures
        r@ == lower_of(s@),
        s@.len() == 0 ==> r@.len() == 0,
{
    s.to_lowercase()
}

/// Whether `piece` is one of the pieces of `s` between dashes.
pub open spec fn among_dashed(s: Seq<char>, piece: Seq<char>) -> bool {
    split_on(s, '-').contains(piece)
}

proof fn lemma_push_contains(s: Seq<Seq<char>>, y: Seq<char>)
    ensures
        forall|x: Seq<char>| s.push(y).contains(x) <==> (s.contains(x) || x == y),
{
    assert forall|x: Seq<char>| s.push(y).contains(x) <==> (s.contains(x) || x == y) by {
        if s.push(y).contains(x) {
            let k = choose|k: int| 0 <= k < s.push(y).len() && s.push(y)[k] == x;
            if k < s.len() {
                assert(s[k] == x);
            }
        }
        if s.contains(x) {
            let k = choose|k: int| 0 <= k < s.len() && s[k] == x;
            assert(s.push(y)[k] == x);
        }
        if x == y {
            assert(s.push(y)[s.len() as int] == x);
        }
    }
}

/// Whether `piece` is one of the pieces of `s` between dashes: a version is
/// part of a version group whose name is made of the versions' names.
pub fn is_among_dashed(s: &str, piece: &str) -> (r: bool)
    ensures
        r == among_dashed(s@, piece@),
{
    let c = chars_of(s);
    let p = chars_of(piece);
    let mut cur: Vec<char> = Vec::new();
    let ghost mut done: Seq<Seq<char>> = Seq::empty();
    let mut found = false;
    let mut i: usize = 0;
    while i < c.len()
        invariant
            c@ == s@,
            p@ == piece@,
            i <= c@.len(),
            split_on(c@.take(i as int), '-') == done.push(cur@),
            found == done.contains(p@),
        decreases c@.len() - i,
    {
        let ch = c[i];
        assert(c@.take(i + 1).drop_last() =~= c@.take(i as int));
        if ch == '-' {
            let same = eq_chars(&cur, &p);
            proof {
                lemma_push_contains(done, cur@);
                done = done.push(cur@);
            }
            found = found || same;
            cur = Vec::new();
            assert(split_on(c@.take(i + 1), '-') =~= done.push(cur@));
        } else {
            cur.push(ch);
            assert(split_on(c@.take(i + 1), '-') =~= done.push(cur@));
        }
        i = i + 1;
    }
    assert(c@.take(c@.len() as int) =~= c@);
    let last = eq_chars(&cur, &p);
    proof {
        lemma_push_contains(done, cur@);
    }
    found || last
}

fn eq_chars(a: &Vec<char>, b: &Vec<char>) -> (r: bool)
    ensures
        r == (a@ == b@),
{
    if a.len() != b.len() {
        return false;
    }
    let mut i: usize = 0;
    while i < a.len()
        invariant
            a@.len() == b@.len(),
            i <= a@.len(),
            forall|k: int| 0 <= k < i ==> a@[k] == b@[k],
        decreases a@.len() - i,
    {
        if a[i] != b[i] {
            return false;
        }
        i = i + 1;
    }
    assert(a@ =~= b@);
    true
}

/// Each of `parts` followed by the text `sep`.
pub open spec fn each_then(parts: Seq<Seq<char>>, sep: Seq<char>) -> Seq<char>
    decreases parts.len(),
{
    if parts.len() == 0 {
        Seq::empty()
    } else {
        each_then(parts.drop_last(), sep) + parts.last() + sep
    }
}

/// `parts` with the text `sep` between each two of them.
pub open spec fn interleaved(parts: Seq<Seq<char>>, sep: Seq<char>) -> Seq<char> {
    if parts.len() == 0 {
        Seq::empty()
    } else {
        each_then(parts.drop_last(), sep) + parts.last()
    }
}

pub(crate) fn append_chars(out: &mut Vec<char>, s: &str)
    ensures
        final(out)@ == old(out)@ + s@,
{
    let c = chars_of(s);
    let ghost start = out@;
    let mut i: usize = 0;
    while i < c.len()
        invariant
            c@ == s@,
            i <= c@.len(),
            out@ == start + c@.take(i as int),
        decreases c@.len() - i,
    {
        out.push(c[i]);
        i = i + 1;
        assert(out@ =~= start + c@.take(i as int));
    }
    assert(c@.take(c@.len() as int) =~= c@);
}

/// The texts of `parts` with `sep` between each two of them.
pub fn join_texts(parts: &Vec<String>, sep: &str) -> (r: String)
    ensures
        r@ == interleaved(parts@.map_values(|p: String| p@), sep@),
{
    let ghost views = parts@.map_values(|p: String| p@);
    let mut out: Vec<char> = Vec::new();
    if parts.len() == 0 {
        return string_of(&out);
    }
    let mut i: usize = 0;
    while i < parts.len() - 1
        invariant
            views == parts@.map_values(|p: String| p@),
            parts@.len() > 0,
            i < parts@.len(),
            out@ == each_then(views.take(i as int), sep@),
        decreases parts@.len() - i,
    {
        append_chars(&mut out, parts[i].as_str());
        append_chars(&mut out, sep);
        assert(views.take(i + 1).drop_last() =~= views.take(i as int));
        i = i + 1;
    }
    append_chars(&mut out, parts[i].as_str());
    assert(views.drop_last() =~= views.take(i as int));
    string_of(&out)
}

/// Text for a number followed by a few fixed characters.
pub fn int_text_then(n: i32, tail: &str) -> (r: String)
    ensures
        r@ == decimal(n as int) + tail@,
{
    let mut out: Vec<char> = Vec::new();
    append_chars(&mut out, int_text(n).as_str());
    append_chars(&mut out, tail);
    string_of(&out)
}

/// The no-break space put before a label to indent it.
pub const PADDING: char = '\u{A0}';

/// `s` with its first character in upper case.
pub open spec fn capitalized(s: Seq<char>) -> Seq<char> {
    if s.len() == 0 {
        s
    } else {
        upper_of(s[0]) + s.drop_first()
    }
}

/// The pieces of `s` between occurrences of `sep`: one more piece than
/// there are separators, empty pieces included.
pub open spec fn split_on(s: Seq<char>, sep: char) -> Seq<Seq<char>>
    decreases s.len(),
{
    if s.len() == 0 {
        seq![Seq::empty()]
    } else {
        let rest = split_on(s.drop_last(), sep);
        if s.last() == sep {
            rest.push(Seq::empty())
        } else {
            rest.update(rest.len() - 1, rest.last().push(s.last()))
        }
    }
}

/// Each of `parts` followed by `sep`.
pub open spec fn each_followed_by(parts: Seq<Seq<char>>, sep: char) -> Seq<char>
    decreases parts.len(),
{
    if parts.len() == 0 {
        Seq::empty()
    } else {
        each_followed_by(parts.drop_last(), sep) + parts.last().push(sep)
    }
}

/// `parts` with `sep` between each two of them.
pub open spec fn joined(parts: Seq<Seq<char>>, sep: char) -> Seq<char> {
    if parts.len() == 0 {
        Seq::empty()
    } else {
        each_followed_by(parts.drop_last(), sep) + parts.last()
    }
}

/// The words of a dashed identifier, each capitalized, with spaces between
/// them: `"x-y"` is shown as `"X Y"`.
pub open spec fn split_capitalized(s: Seq<char>) -> Seq<char> {
    joined(split_on(s, '-').map_values(|p: Seq<char>| capitalized(p)), ' ')
}

/// The decimal digit `d` as a character.
pub open spec fn digit_char(d: nat) -> char {
    if d == 0 { '0' }
    else if d == 1 { '1' }
    else if d == 2 { '2' }
    else if d == 3 { '3' }
    else if d == 4 { '4' }
    else if d == 5 { '5' }
    else if d == 6 { '6' }
    else if d == 7 { '7' }
    else if d == 8 { '8' }
    else { '9' }
}

/// The decimal digits of `n`, most significant first, without leading zeros.
pub open spec fn digits(n: nat) -> Seq<char>
    decreases n,
{
    if n < 10 {
        seq![digit_char(n)]
    } else {
        digits(n / 10).push(digit_char(n % 10))
    }
}

/// The decimal text of `n`, with a leading minus sign when it is negative.
pub open spec fn decimal(n: int) -> Seq<char> {
    if n < 0 {
        seq!['-'] + digits((-n) as nat)
    } else {
        digits(n as nat)
    }
}

fn digit(d: u32) -> (c: char)
    requires
        d < 10,
    ensures
        c == digit_char(d as nat),
{
    match d {
        0 => '0',
        1 => '1',
        2 => '2',
        3 => '3',
        4 => '4',
        5 => '5',
        6 => '6',
        7 => '7',
        8 => '8',
        _ => '9',
    }
}

fn push_digits(out: &mut Vec<char>, n: u32)
    ensures
        final(out)@ == old(out)@ + digits(n as nat),
    decreases n,
{
    if n < 10 {
        out.push(digit(n));
    } else {
        push_digits(out, n / 10);
        out.push(digit(n % 10));
    }
}

/// The decimal text of `n`.
pub fn int_text(n: i32) -> (r: String)
    ensures
        r@ == decimal(n as int),
{
    let mut out: Vec<char> = Vec::new();
    if n < 0 {
        out.push('-');
        let m: u32 = if n == i32::MIN { 2147483648u32 } else { (-n) as u32 };
        push_digits(&mut out, m);
    } else {
        push_digits(&mut out, n as u32);
    }
    string_of(&out)
}

fn capitalize_chars(s: &Vec<char>) -> (r: Vec<char>)
    ensures
        r@ == capitalized(s@),
{
    if s.len() == 0 {
        return Vec::new();
    }
    let mut r = char_upper(s[0]);
    let mut i: usize = 1;
    while i < s.len()
        invariant
            1 <= i <= s@.len(),
            r@ == upper_of(s@[0]) + s@.subrange(1, i as int),
        decreases s@.len() - i,
    {
        r.push(s[i]);
        i = i + 1;
        assert(r@ =~= upper_of(s@[0]) + s@.subrange(1, i as int));
    }
    assert(s@.subrange(1, s@.len() as int) =~= s@.drop_first());
    r
}

/// `s` with its first character in upper case; the empty string stays empty.
pub fn uppercase_first_letter(s: &str) -> (r: String)
    ensures
        r@ == capitalized(s@),
{
    string_of(&capitalize_chars(&chars_of(s)))
}

fn split_capitalize_chars(s: &Vec<char>) -> (r: Vec<char>)
    ensures
        r@ == split_capitalized(s@),
{
    let mut out: Vec<char> = Vec::new();
    let mut cur: Vec<char> = Vec::new();
    let ghost mut done: Seq<Seq<char>> = Seq::empty();
    let mut i: usize = 0;
    while i < s.len()
        invariant
            i <= s@.len(),
            split_on(s@.take(i as int), '-') == done.push(cur@),
            out@ == each_followed_by(done.map_values(|p: Seq<char>| capitalized(p)), ' '),
        decreases s@.len() - i,
    {
        let c = s[i];
        assert(s@.take(i + 1).drop_last() =~= s@.take(i as int));
        if c == '-' {
            let piece = capitalize_chars(&cur);
            let mut k: usize = 0;
            while k < piece.len()
                invariant
                    k <= piece@.len(),
                    out@ == each_followed_by(done.map_values(|p: Seq<char>| capitalized(p)), ' ')
                        + piece@.take(k as int),
                decreases piece@.len() - k,
            {
                out.push(piece[k]);
                k = k + 1;
                assert(out@ =~= each_followed_by(done.map_values(|p: Seq<char>| capitalized(p)), ' ')
                    + piece@.take(k as int));
            }
            out.push(' ');
            proof {
                let mapped = done.push(cur@).map_values(|p: Seq<char>| capitalized(p));
                assert(mapped.drop_last() =~= done.map_values(|p: Seq<char>| capitalized(p)));
                assert(piece@.take(piece@.len() as int) =~= piece@);
                assert(out@ =~= each_followed_by(mapped, ' '));
                done = done.push(cur@);
            }
            cur = Vec::new();
            assert(split_on(s@.take(i + 1), '-') =~= done.push(cur@));
        } else {
            cur.push(c);
            assert(split_on(s@.take(i + 1), '-') =~= done.push(cur@));
        }
        i = i + 1;
    }
    assert(s@.take(s@.len() as int) =~= s@);
    let last = capitalize_chars(&cur);
    let mut k: usize = 0;
    while k < last.len()
        invariant
            k <= last@.len(),
            out@ == each_followed_by(done.map_values(|p: Seq<char>| capitalized(p)), ' ')
                + last@.take(k as int),
        decreases last@.len() - k,
    {
        out.push(last[k]);
        k = k + 1;
        assert(out@ =~= each_followed_by(done.map_values(|p: Seq<char>| capitalized(p)), ' ')
            + last@.take(k as int));
    }
    proof {
        let mapped = done.push(cur@).map_values(|p: Seq<char>| capitalized(p));
        assert(mapped.drop_last() =~= done.map_values(|p: Seq<char>| capitalized(p)));
        assert(last@.take(last@.len() as int) =~= last@);
    }
    out
}

/// The words of a dashed identifier, each capitalized, with spaces between
/// them.
pub fn split_capitalize(s: &str) -> (r: String)
    ensures
        r@ == split_capitalized(s@),
{
    string_of(&split_capitalize_chars(&chars_of(s)))
}

/// `s` behind one no-break space.
pub fn append_padding(s: &str) -> (r: String)
    ensures
        r@ == seq![PADDING] + s@,
{
    let mut v: Vec<char> = Vec::new();
    v.push(PADDING);
    let c = chars_of(s);
    let mut i: usize = 0;
    while i < c.len()
        invariant
            i <= c@.len(),
            c@ == s@,
            v@ == seq![PADDING] + c@.take(i as int),
        decreases c@.len() - i,
    {
        v.push(c[i]);
        i = i + 1;
        assert(v@ =~= seq![PADDING] + c@.take(i as int));
    }
    assert(c@.take(c@.len() as int) =~= c@);
    string_of(&v)
}

/// The two ways a text is prepared for the screen.
pub trait PrepareForDisplay: Sized {
    /// The words of a dashed identifier, each capitalized, with spaces
    /// between them.
    fn split_capitalize(self) -> Self;

    /// The text behind one no-break space.
    fn append_padding(self) -> Self;
}

impl PrepareForDisplay for String {
    fn split_capitalize(self) -> (r: String)
        ensures
            r@ == split_capitalized(self@),
    {
        split_capitalize(self.as_str())
    }

    fn append_padding(self) -> (r: String)
        ensures
            r@ == seq![PADDING] + self@,
    {
        append_padding(self.as_str())
    }
}

} // verus!
