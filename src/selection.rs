use vstd::prelude::*;

verus! {

/// Where the cursor of a list of `len` visible entries goes on a step forward:
/// one place on, and from the last entry back to the first. Nothing moves in an
/// empty list.
pub open spec fn cursor_after_next(c: Option<usize>, len: nat) -> Option<usize> {
    if len == 0 {
        c
    } else {
        match c {
            Some(i) => if i >= len - 1 { Some(0usize) } else { Some((i + 1) as usize) },
            None => Some(0usize),
        }
    }
}

/// Where the cursor goes on a step back: one place back, and from the first
/// entry to the last. Nothing moves in an empty list.
pub open spec fn cursor_after_previous(c: Option<usize>, len: nat) -> Option<usize> {
    if len == 0 {
        c
    } else {
        match c {
            Some(i) => if i == 0 { Some((len - 1) as usize) } else { Some((i - 1) as usize) },
            None => Some(0usize),
        }
    }
}

/// The cursor after `k` steps forward.
pub open spec fn cursor_after_steps(c: Option<usize>, len: nat, k: nat) -> Option<usize>
    decreases k,
{
    if k == 0 {
        c
    } else {
        cursor_after_next(cursor_after_steps(c, len, (k - 1) as nat), len)
    }
}

/// The entries of `s` whose mark in `keep` is `true`, in their order.
pub open spec fn kept<T>(s: Seq<T>, keep: Seq<bool>) -> Seq<T>
    decreases s.len(),
{
    if s.len() == 0 {
        Seq::empty()
    } else {
        let rest = kept(s.drop_last(), keep.drop_last());
        if keep.last() {
            rest.push(s.last())
        } else {
            rest
        }
    }
}

/// Stepping forward through a non-empty list as many times as it has visible
/// entries brings the cursor back to where it started.
pub proof fn lemma_next_cycles(c: usize, len: nat)
    requires
        c < len <= usize::MAX,
    ensures
        cursor_after_steps(Some(c), len, len) == Some(c),
{
    lemma_steps_offset(c, len, len);
}

proof fn lemma_steps_offset(c: usize, len: nat, k: nat)
    requires
        c < len <= usize::MAX,
        k <= len,
    ensures
        cursor_after_steps(Some(c), len, k) == Some(
            (if c + k < len { c + k } else { c + k - len }) as usize,
        ),
    decreases k,
{
    if k > 0 {
        lemma_steps_offset(c, len, (k - 1) as nat);
    }
}

/// A step back undoes a step forward: on a non-empty list, `previous` after
/// `next` puts the cursor where it was (neither step changes the entries).
pub proof fn lemma_previous_undoes_next(c: usize, len: nat)
    requires
        c < len <= usize::MAX,
    ensures
        cursor_after_previous(cursor_after_next(Some(c), len), len) == Some(c),
{
}

/// Keeping every entry keeps the sequence as it is.
pub proof fn lemma_keep_all<T>(s: Seq<T>, keep: Seq<bool>)
    requires
        keep.len() == s.len(),
        forall|i: int| 0 <= i < keep.len() ==> keep[i],
    ensures
        kept(s, keep) == s,
    decreases s.len(),
{
    if s.len() > 0 {
        lemma_keep_all(s.drop_last(), keep.drop_last());
        assert(s.drop_last().push(s.last()) =~= s);
    }
}

/// Keeping the entries whose mark is what `f` says of them is filtering by `f`.
pub proof fn lemma_kept_is_filter<T>(s: Seq<T>, keep: Seq<bool>, f: spec_fn(T) -> bool)
    requires
        keep.len() == s.len(),
        forall|i: int| 0 <= i < s.len() ==> keep[i] == f(s[i]),
    ensures
        kept(s, keep) == s.filter(f),
    decreases s.len(),
{
    reveal(Seq::filter);
    if s.len() > 0 {
        lemma_kept_is_filter(s.drop_last(), keep.drop_last(), f);
    }
}

/// A list over a fixed backing sequence, of which a filtered part is visible,
/// with a cursor on the visible part.
pub struct StatefulList<T> {
    items: Vec<T>,
    shown: Vec<usize>,
    selected: Option<usize>,
}

impl<T> StatefulList<T> {
    /// The backing sequence, in the order it was given.
    pub closed spec fn all(&self) -> Seq<T> {
        self.items@
    }

    /// The visible entries, in order.
    pub closed spec fn visible(&self) -> Seq<T> {
        self.shown@.map_values(|i: usize| self.items@[i as int])
    }

    /// The cursor: an index into `visible()`.
    pub closed spec fn cursor(&self) -> Option<usize> {
        self.selected
    }

    /// The cursor is on a visible entry exactly when there is one.
    pub closed spec fn wf(&self) -> bool {
        &&& forall|k: int| 0 <= k < self.shown@.len() ==> self.shown@[k] < self.items@.len()
        &&& match self.selected {
            Some(c) => c < self.shown@.len(),
            None => self.shown@.len() == 0,
        }
    }

    /// Under the invariant, the cursor is on a visible entry exactly when
    /// there is one.
    pub proof fn lemma_cursor_in_range(&self)
        requires
            self.wf(),
        ensures
            match self.cursor() {
                Some(c) => c < self.visible().len(),
                None => self.visible().len() == 0,
            },
    {
    }

    /// A list showing all of `items`, with the cursor on the first one.
    pub fn with_items(items: Vec<T>) -> (r: Self)
        ensures
            r.wf(),
            r.all() == items@,
            r.visible() == items@,
            r.cursor() == (if items@.len() > 0 { Some(0usize) } else { None::<usize> }),
    {
        let mut shown: Vec<usize> = Vec::new();
        let n = items.len();
        let mut i: usize = 0;
        while i < n
            invariant
                n == items@.len(),
                i <= n,
                shown@.len() == i,
                forall|k: int| 0 <= k < i ==> shown@[k] == k,
            decreases n - i,
        {
            shown.push(i);
            i = i + 1;
        }
        let selected = if n > 0 { Some(0usize) } else { None };
        let r = StatefulList { items, shown, selected };
        assert(r.visible() =~= r.all());
        r
    }

    /// Moves the cursor one entry on, from the last back to the first.
    pub fn next(&mut self)
        requires
            old(self).wf(),
        ensures
            final(self).wf(),
            final(self).all() == old(self).all(),
            final(self).visible() == old(self).visible(),
            final(self).cursor() == cursor_after_next(old(self).cursor(), old(self).visible().len()),
    {
        let len = self.shown.len();
        if len > 0 {
            self.selected = match self.selected {
                Some(i) => if i >= len - 1 { Some(0) } else { Some(i + 1) },
                None => Some(0),
            };
        }
    }

    /// Moves the cursor one entry back, from the first to the last.
    pub fn previous(&mut self)
        requires
            old(self).wf(),
        ensures
            final(self).wf(),
            final(self).all() == old(self).all(),
            final(self).visible() == old(self).visible(),
            final(self).cursor() == cursor_after_previous(
                old(self).cursor(),
                old(self).visible().len(),
            ),
    {
        let len = self.shown.len();
        if len > 0 {
            self.selected = match self.selected {
                Some(i) => if i == 0 { Some(len - 1) } else { Some(i - 1) },
                None => Some(0),
            };
        }
    }

    /// The visible entry under the cursor, if any.
    pub fn get_selected(&self) -> (r: Option<&T>)
        requires
            self.wf(),
        ensures
            r.is_some() == self.cursor().is_some(),
            r matches Some(x) ==> *x == self.visible()[self.cursor().unwrap() as int],
    {
        match self.selected {
            Some(c) => Some(&self.items[self.shown[c]]),
            None => None,
        }
    }

    /// The cursor's position among the visible entries.
    pub fn selected(&self) -> (r: Option<usize>)
        ensures
            r == self.cursor(),
    {
        self.selected
    }

    /// How many entries are visible.
    pub fn visible_len(&self) -> (r: usize)
        ensures
            r == self.visible().len(),
    {
        self.shown.len()
    }

    /// The `k`-th visible entry.
    pub fn visible_at(&self, k: usize) -> (r: &T)
        requires
            self.wf(),
            k < self.visible().len(),
        ensures
            *r == self.visible()[k as int],
    {
        &self.items[self.shown[k]]
    }

    /// How many entries the backing sequence holds.
    pub fn all_len(&self) -> (r: usize)
        ensures
            r == self.all().len(),
    {
        self.items.len()
    }

    /// The `k`-th entry of the backing sequence.
    pub fn all_at(&self, k: usize) -> (r: &T)
        requires
            k < self.all().len(),
        ensures
            *r == self.all()[k as int],
    {
        &self.items[k]
    }

    /// Shows the entries of the backing sequence on which `pred` holds, in their
    /// order, and puts the cursor on the first of them. The backing sequence is
    /// left as it is. Where `pred` holds of every entry, all of them are shown.
    pub fn apply_filter<F: Fn(&T) -> bool>(&mut self, pred: F)
        requires
            old(self).wf(),
            forall|x: &T| pred.requires((x,)),
        ensures
            final(self).wf(),
            final(self).all() == old(self).all(),
            exists|keep: Seq<bool>|
                {
                    &&& keep.len() == old(self).all().len()
                    &&& forall|i: int|
                        0 <= i < keep.len() ==> pred.ensures((&old(self).all()[i],), #[trigger] keep[i])
                    &&& final(self).visible() == kept(old(self).all(), keep)
                },
            (forall|x: &T, b: bool| pred.ensures((x,), b) ==> b) ==> final(self).visible()
                == old(self).all(),
            final(self).cursor() == (if final(self).visible().len() > 0 {
                Some(0usize)
            } else {
                None::<usize>
            }),
    {
        let ghost all = self.items@;
        let mut shown: Vec<usize> = Vec::new();
        let ghost mut keep: Seq<bool> = Seq::empty();
        let n = self.items.len();
        let mut i: usize = 0;
        while i < n
            invariant
                n == all.len(),
                self.items@ == all,
                i <= n,
                keep.len() == i,
                forall|j: int| 0 <= j < i ==> pred.ensures((&all[j],), #[trigger] keep[j]),
                forall|k: int| 0 <= k < shown@.len() ==> shown@[k] < i,
                shown@.map_values(|j: usize| all[j as int]) == kept(all.take(i as int), keep),
                forall|x: &T| pred.requires((x,)),
            decreases n - i,
        {
            let b = pred(&self.items[i]);
            proof {
                assert(all.take(i + 1).drop_last() =~= all.take(i as int));
                assert(keep.push(b).drop_last() =~= keep);
            }
            if b {
                shown.push(i);
                assert(shown@.map_values(|j: usize| all[j as int]) =~= kept(all.take(i as int), keep).push(all[i as int]));
            }
            proof {
                keep = keep.push(b);
            }
            i = i + 1;
        }
        assert(all.take(n as int) =~= all);
        self.shown = shown;
        self.selected = if self.shown.len() > 0 { Some(0) } else { None };
        assert(self.visible() == kept(all, keep));
        proof {
            if forall|x: &T, b: bool| pred.ensures((x,), b) ==> b {
                assert forall|j: int| 0 <= j < keep.len() implies keep[j] by {
                    assert(pred.ensures((&all[j],), keep[j]));
                }
                lemma_keep_all(all, keep);
            }
        }
    }
}

} // verus!
