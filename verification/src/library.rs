//! The saved macro list as the editor holds it: after the list is read
//! again, the macro that was open stays selected wherever it now stands.

use vstd::prelude::*;
use crate::text::str_eq;

verus! {

/// Whether `k` is the first position in `ids` holding `id`.
pub open spec fn is_first_id(ids: Seq<String>, id: Seq<char>, k: int) -> bool {
    &&& 0 <= k < ids.len()
    &&& ids[k]@ == id
    &&& forall|j: int| 0 <= j < k ==> (#[trigger] ids[j])@ != id
}

/// The first position of `id` among `ids`.
pub open spec fn first_position(ids: Seq<String>, id: Seq<char>) -> Option<int> {
    if exists|k: int| is_first_id(ids, id, k) {
        Some(choose|k: int| is_first_id(ids, id, k))
    } else {
        None
    }
}

/// The selection after the macro list (the macros' ids, in order) is read
/// again: the position of the macro that was open, `None` when none was or
/// it is gone.
pub open spec fn reselected(ids: Seq<String>, current: Option<Seq<char>>) -> Option<int> {
    match current {
        Some(id) => first_position(ids, id),
        None => None,
    }
}

/// The first position of `id` is the only one.
proof fn lemma_first_id_unique(ids: Seq<String>, id: Seq<char>, a: int, b: int)
    requires
        is_first_id(ids, id, a),
        is_first_id(ids, id, b),
    ensures
        a == b,
{
    if a < b {
        assert(ids[a]@ != id);
    } else if b < a {
        assert(ids[b]@ != id);
    }
}

/// Where the open macro (`current_id`) stands in the reread list `ids`
/// (see [`reselected`]).
pub fn selected_after_reload(ids: &Vec<String>, current_id: Option<&str>) -> (r: Option<usize>)
    ensures
        match reselected(ids@, match current_id {
            Some(s) => Some(s@),
            None => None,
        }) {
            Some(k) => r == Some(k as usize),
            None => r is None,
        },
{
    let id = match current_id {
        Some(id) => id,
        None => return None,
    };
    let n = ids.len();
    let mut k: usize = 0;
    while k < n
        invariant
            n == ids@.len(),
            k <= n,
            current_id == Some(id),
            forall|j: int| 0 <= j < k ==> (#[trigger] ids@[j])@ != id@,
        decreases n - k,
    {
        if str_eq(ids[k].as_str(), id) {
            proof {
                assert(is_first_id(ids@, id@, k as int));
                let c = choose|c: int| is_first_id(ids@, id@, c);
                lemma_first_id_unique(ids@, id@, c, k as int);
                assert(first_position(ids@, id@) == Some(k as int));
            }
            return Some(k);
        }
        k += 1;
    }
    None
}

/// The macro that was open is selected again after a reread whenever it is
/// still in the list, at a position that holds it.
pub proof fn lemma_open_macro_stays_selected(ids: Seq<String>, id: Seq<char>, i: int)
    requires
        0 <= i < ids.len(),
        ids[i]@ == id,
    ensures
        reselected(ids, Some(id)) matches Some(k) && 0 <= k <= i && ids[k]@ == id,
{
    let find = |k: int| 0 <= k <= i && ids[k]@ == id;
    let m = choose_first(i, find);
    assert forall|j: int| 0 <= j < m implies (#[trigger] ids[j])@ != id by {
        assert(!find(j));
    }
    assert(is_first_id(ids, id, m));
    let c = choose|c: int| is_first_id(ids, id, c);
    lemma_first_id_unique(ids, id, c, m);
}

/// The least `k <= i` satisfying `p`, given that `i` does.
proof fn choose_first(i: int, p: spec_fn(int) -> bool) -> (m: int)
    requires
        p(i),
        0 <= i,
    ensures
        p(m),
        m <= i,
        forall|j: int| 0 <= j < m ==> !#[trigger] p(j),
    decreases i,
{
    if i == 0 {
        0
    } else if exists|j: int| 0 <= j < i && #[trigger] p(j) {
        let j = choose|j: int| 0 <= j < i && #[trigger] p(j);
        choose_first(j, p)
    } else {
        i
    }
}

} // verus!
