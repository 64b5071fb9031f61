use vstd::prelude::*;

verus! {

/// A cursor movement requested by the operator.
#[derive(Debug, Clone, Copy, PartialEq, Eq, Structural)]
pub enum Navigate {
    Left,
    Right,
    Up,
    Down,
}

/// Whether a navigation moved a cursor.
#[derive(Debug, Clone, Copy, PartialEq, Eq, Structural)]
pub enum Navigated {
    Happen,
    DoesNotHappen,
}

/// Index after moving forward by one in a cyclic list of `len` items.
pub open spec fn spec_inc(current: int, len: int) -> int {
    if len <= 0 {
        0
    } else {
        (current + 1) % len
    }
}

/// Index after moving back by one in a cyclic list of `len` items.
pub open spec fn spec_dec(current: int, len: int) -> int {
    if len <= 0 {
        0
    } else if current == 0 {
        len - 1
    } else {
        current - 1
    }
}

/// Index after moving forward from an optional selection.
pub open spec fn spec_inc_opt(current: Option<usize>, len: int) -> int {
    match current {
        Some(c) => spec_inc(c as int, len),
        None => 0,
    }
}

/// Index after moving back from an optional selection: from no selection
/// the last item is taken.
pub open spec fn spec_dec_opt(current: Option<usize>, len: int) -> int {
    match current {
        Some(c) => spec_dec(c as int, len),
        None => if len <= 0 {
            0
        } else {
            len - 1
        },
    }
}

impl Navigate {
    pub fn inc(current: usize, len: usize) -> (r: usize)
        ensures
            r == spec_inc(current as int, len as int),
            len > 0 ==> r < len,
    {
        if len == 0 {
            0
        } else {
            let c: usize = current % len;
            proof {
                vstd::arithmetic::div_mod::lemma_add_mod_noop(current as int, 1, len as int);
                if len == 1 {
                    assert(1int % 1int == 0);
                } else {
                    vstd::arithmetic::div_mod::lemma_small_mod(1, len as nat);
                }
            }
            (c + 1) % len
        }
    }

    pub fn inc_opt(current: Option<usize>, len: usize) -> (r: usize)
        ensures
            r == spec_inc_opt(current, len as int),
            len > 0 ==> r < len,
    {
        match current {
            Some(current) => Navigate::inc(current, len),
            None => 0,
        }
    }

    pub fn dec(current: usize, len: usize) -> (r: usize)
        ensures
            r == spec_dec(current as int, len as int),
            len > 0 && current < len ==> r < len,
    {
        if len == 0 {
            return 0;
        }
        if current == 0 {
            len - 1
        } else {
            current - 1
        }
    }

    pub fn dec_opt(current: Option<usize>, len: usize) -> (r: usize)
        ensures
            r == spec_dec_opt(current, len as int),
            len > 0 && (current matches Some(c) ==> c < len) ==> r < len,
    {
        match current {
            Some(current) => Navigate::dec(current, len),
            None => {
                if len == 0 {
                    0
                } else {
                    len - 1
                }
            },
        }
    }
}

/// Selection of a list or table: the index of the highlighted row, if any.
#[derive(Debug, Clone, Copy, PartialEq, Eq, Structural)]
pub struct Cursor {
    pub selected: Option<usize>,
}

/// Selection after applying `navigate` to a list of `len` rows: `Up` and
/// `Down` wrap around, other directions and an empty list leave it as it is.
pub open spec fn spec_apply(selected: Option<usize>, navigate: Navigate, len: int) -> Option<usize> {
    if len <= 0 {
        selected
    } else {
        match navigate {
            Navigate::Up => Some(spec_dec_opt(selected, len) as usize),
            Navigate::Down => Some(spec_inc_opt(selected, len) as usize),
            _ => selected,
        }
    }
}

impl Cursor {
    pub fn new(selected: Option<usize>) -> (r: Cursor)
        ensures
            r.selected == selected,
    {
        Cursor { selected }
    }

    pub fn selected(&self) -> (r: Option<usize>)
        ensures
            r == self.selected,
    {
        self.selected
    }

    pub fn select(&mut self, index: Option<usize>)
        ensures
            final(self).selected == index,
    {
        self.selected = index;
    }

    /// Moves the selection of a list of `len` rows.
    pub fn apply(&mut self, navigate: Navigate, len: usize) -> (r: Navigated)
        ensures
            final(self).selected == spec_apply(old(self).selected, navigate, len as int),
            r == (if len > 0 && (navigate == Navigate::Up || navigate == Navigate::Down) {
                Navigated::Happen
            } else {
                Navigated::DoesNotHappen
            }),
    {
        if len == 0 {
            return Navigated::DoesNotHappen;
        }
        match navigate {
            Navigate::Up => {
                let next = Navigate::dec_opt(self.selected, len);
                self.selected = Some(next);
                Navigated::Happen
            },
            Navigate::Down => {
                let next = Navigate::inc_opt(self.selected, len);
                self.selected = Some(next);
                Navigated::Happen
            },
            _ => Navigated::DoesNotHappen,
        }
    }
}

/// Moving down from the last row of a non-empty list selects the first row,
/// moving up from the first row selects the last, and an empty list keeps
/// its selection.
pub proof fn lemma_cursor_wraps(n: usize, selected: Option<usize>)
    ensures
        n > 0 ==> spec_apply(Some((n - 1) as usize), Navigate::Down, n as int) == Some(0usize),
        n > 0 ==> spec_apply(Some(0usize), Navigate::Up, n as int) == Some((n - 1) as usize),
        n == 0 ==> spec_apply(selected, Navigate::Up, 0) == selected
            && spec_apply(selected, Navigate::Down, 0) == selected,
{
    if n > 0 {
        assert(((n - 1) as int + 1) % (n as int) == 0) by {
            vstd::arithmetic::div_mod::lemma_mod_self_0(n as int);
        }
    }
}

} // verus!
