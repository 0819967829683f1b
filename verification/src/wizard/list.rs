//! Selection in a vertical list: Up and Down move the highlight within the list.

use vstd::prelude::*;

verus! {

/// The selection after Up: one row higher, unless already at the top.
pub open spec fn list_up(sel: Option<usize>) -> Option<usize> {
    match sel {
        Some(i) => if i > 0 { Some((i - 1) as usize) } else { sel },
        None => None,
    }
}

/// The selection after Down in a list of `len` rows: one row lower, unless
/// already at the bottom.
pub open spec fn list_down(sel: Option<usize>, len: nat) -> Option<usize> {
    match sel {
        Some(i) => if i + 1 < len { Some((i + 1) as usize) } else { sel },
        None => None,
    }
}

/// Up then Down, and Down then Up, return a highlight on a middle row of a
/// list of `len` rows to where it was.
pub proof fn lemma_up_down_round_trip(i: usize, len: nat)
    requires
        0 < i,
        i + 1 < len,
        len <= usize::MAX,
    ensures
        list_down(list_up(Some(i)), len) == Some(i),
        list_up(list_down(Some(i), len)) == Some(i),
        list_up(Some(i)) == Some((i - 1) as usize),
        list_down(Some(i), len) == Some((i + 1) as usize),
{
}

pub fn select_up(sel: Option<usize>) -> (r: Option<usize>)
    ensures
        r == list_up(sel),
        sel matches Some(i) ==> r == Some((if i > 0 { i - 1 } else { i as int }) as usize),
        sel is None ==> r is None,
{
    match sel {
        Some(i) => if i > 0 { Some(i - 1) } else { sel },
        None => None,
    }
}

pub fn select_down(sel: Option<usize>, len: usize) -> (r: Option<usize>)
    requires
        sel matches Some(i) ==> i < usize::MAX,
    ensures
        r == list_down(sel, len as nat),
        sel matches Some(i) ==> r == Some((if i + 1 < len { i + 1 } else { i as int }) as usize),
        sel is None ==> r is None,
{
    match sel {
        Some(i) => if i + 1 < len { Some(i + 1) } else { sel },
        None => None,
    }
}

} // verus!
