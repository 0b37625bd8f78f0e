//! Finding a factor among the factors of a set by its type identity.
//!
//! A set of factors is declared as a list of fields, each of some factor
//! type. Looking a factor type up picks the first field of that type.
use vstd::prelude::*;

verus! {

/// `i` is the first position in `ids` that holds `id`.
pub open spec fn is_first_index(ids: Seq<u64>, id: u64, i: int) -> bool {
    &&& 0 <= i < ids.len()
    &&& ids[i] == id
    &&& forall|j: int| 0 <= j < i ==> ids[j] != id
}

/// The first position in `ids` that holds `id`, if any position does.
pub open spec fn first_index(ids: Seq<u64>, id: u64) -> Option<int> {
    if ids.contains(id) {
        Some(choose|i: int| is_first_index(ids, id, i))
    } else {
        None
    }
}

/// At most one position is the first to hold `id`.
pub proof fn lemma_first_index_unique(ids: Seq<u64>, id: u64, i: int, j: int)
    requires
        is_first_index(ids, id, i),
        is_first_index(ids, id, j),
    ensures
        i == j,
{
}

/// When `ids` holds `id`, `first_index` names the first position holding it.
pub proof fn lemma_first_index_is_first(ids: Seq<u64>, id: u64)
    ensures
        ids.contains(id) ==> (first_index(ids, id) matches Some(i) && is_first_index(ids, id, i)),
        !ids.contains(id) ==> first_index(ids, id) is None,
    decreases ids.len(),
{
    if ids.contains(id) {
        if ids[0] == id {
            assert(is_first_index(ids, id, 0));
        } else {
            let rest = ids.drop_first();
            let k = choose|k: int| 0 <= k < ids.len() && ids[k] == id;
            assert(rest[k - 1] == id);
            assert(rest.contains(id));
            lemma_first_index_is_first(rest, id);
            let i = first_index(rest, id)->0;
            assert forall|j: int| 0 <= j < i + 1 implies ids[j] != id by {
                if j > 0 {
                    assert(ids[j] == rest[j - 1]);
                }
            }
            assert(is_first_index(ids, id, i + 1));
        }
    }
}

/// Position of the first entry of `ids` equal to `id`.
pub fn first_position(ids: &Vec<u64>, id: u64) -> (r: Option<usize>)
    ensures
        match r {
            Some(i) => first_index(ids@, id) == Some(i as int),
            None => first_index(ids@, id) is None,
        },
{
    let n = ids.len();
    let mut i: usize = 0;
    while i < n
        invariant
            n == ids@.len(),
            i <= n,
            forall|j: int| 0 <= j < i ==> ids@[j] != id,
        decreases n - i,
    {
        if ids[i] == id {
            assert(is_first_index(ids@, id, i as int));
            proof {
                let k = choose|k: int| is_first_index(ids@, id, k);
                lemma_first_index_unique(ids@, id, i as int, k);
            }
            return Some(i);
        }
        i = i + 1;
    }
    None
}

/// The positions of the first entries of `ids` equal to `first` and to
/// `second`, when `ids` holds both and they are two different positions.
pub fn first_positions2(ids: &Vec<u64>, first: u64, second: u64) -> (r: Option<(usize, usize)>)
    ensures
        match (first_index(ids@, first), first_index(ids@, second)) {
            (Some(i), Some(j)) => if i != j {
                r == Some((i as usize, j as usize))
            } else {
                r is None
            },
            _ => r is None,
        },
{
    match (first_position(ids, first), first_position(ids, second)) {
        (Some(i), Some(j)) => if i != j {
            Some((i, j))
        } else {
            None
        },
        _ => None,
    }
}

} // verus!
