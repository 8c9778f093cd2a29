use vstd::prelude::*;

verus! {

/// Where the highlighted row of a table of `count` rows goes on a step down:
/// one row on, from the last (or beyond) back to the first, and to the first
/// where none was highlighted. Nothing moves in a table that has no rows.
pub open spec fn row_after_next(c: Option<usize>, count: Option<usize>) -> Option<usize> {
    match count {
        Some(n) if n > 0 => match c {
            Some(i) => if i >= n - 1 { Some(0usize) } else { Some((i + 1) as usize) },
            None => Some(0usize),
        },
        _ => c,
    }
}

/// Where the highlighted row goes on a step up: one row back, from the first
/// to the last, and to the first where none was highlighted. Nothing moves
/// in a table that has no rows.
pub open spec fn row_after_previous(c: Option<usize>, count: Option<usize>) -> Option<usize> {
    match count {
        Some(n) if n > 0 => match c {
            Some(i) => if i != 0 { Some((i - 1) as usize) } else { Some((n - 1) as usize) },
            None => Some(0usize),
        },
        _ => c,
    }
}

/// The highlighted row of a table whose number of rows is known only when it
/// is drawn.
pub struct SwitchableTableState {
    selected: Option<usize>,
}

impl SwitchableTableState {
    /// No row highlighted.
    pub fn new() -> (r: Self)
        ensures
            r.selected() is None,
    {
        SwitchableTableState { selected: None }
    }

    /// The highlighted row.
    pub closed spec fn selected(&self) -> Option<usize> {
        self.selected
    }

    /// The highlighted row.
    pub fn get_selected(&self) -> (r: Option<usize>)
        ensures
            r == self.selected(),
    {
        self.selected
    }

    /// Steps down through `items_count` rows.
    pub fn next(&mut self, items_count: Option<usize>)
        ensures
            final(self).selected() == row_after_next(old(self).selected(), items_count),
    {
        let n: usize = match items_count {
            Some(n) => n,
            None => 0,
        };
        if n > 0 {
            self.selected = Some(match self.selected {
                Some(i) => if i >= n - 1 { 0 } else { i + 1 },
                None => 0,
            });
        }
    }

    /// Steps up through `items_count` rows.
    pub fn previous(&mut self, items_count: Option<usize>)
        ensures
            final(self).selected() == row_after_previous(old(self).selected(), items_count),
    {
        let n: usize = match items_count {
            Some(n) => n,
            None => 0,
        };
        if n > 0 {
            self.selected = Some(match self.selected {
                Some(i) => if i != 0 { i - 1 } else { n - 1 },
                None => 0,
            });
        }
    }
}

} // verus!
