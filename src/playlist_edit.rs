//! Turning a reordering of a playlist into the single move that the
//! catalogue's edit call takes: which track moved, and before which one it
//! now stands.

use vstd::prelude::*;
use crate::tracklist::{is_identity, is_permutation};

verus! {

/// The move a reordering makes: `moved_index` is the old index of the track
/// that moved; `insert_before` is one more than the old index of the track it
/// now precedes, or the length plus one when it ends the list.
#[derive(Debug, Clone, Copy, PartialEq, Eq, Structural)]
pub struct MovedIndexOutput {
    pub moved_index: usize,
    pub insert_before: usize,
}

/// The new position of the track that stood at `old` in `perm`.
pub open spec fn new_position(perm: Seq<usize>, old: int) -> int {
    choose|k: int| 0 <= k < perm.len() && perm[k] == old
}

/// How far the track at `old` moved.
pub open spec fn displacement(perm: Seq<usize>, old: int) -> int {
    new_position(perm, old) - old
}

pub open spec fn abs(x: int) -> int {
    if x < 0 {
        -x
    } else {
        x
    }
}

/// Track `a` moved more than track `b`; on a tie, one moved down beats one
/// that did not.
pub open spec fn moved_more(perm: Seq<usize>, a: int, b: int) -> bool {
    let da = displacement(perm, a);
    let db = displacement(perm, b);
    abs(da) > abs(db) || (abs(da) == abs(db) && da > 0 && db <= 0)
}

/// The track that moved most among the old indices `0..k`, the earliest
/// among equals.
pub open spec fn most_moved(perm: Seq<usize>, k: int) -> int
    decreases k,
{
    if k <= 1 {
        0
    } else {
        let m = most_moved(perm, k - 1);
        if moved_more(perm, k - 1, m) {
            k - 1
        } else {
            m
        }
    }
}

/// The move of a non-identity permutation.
pub open spec fn moved_of(perm: Seq<usize>) -> MovedIndexOutput {
    let n = perm.len() as int;
    let m = most_moved(perm, n);
    let p = new_position(perm, m);
    MovedIndexOutput {
        moved_index: m as usize,
        insert_before: (if p + 1 < n { perm[p + 1] + 1 } else { n + 1 }) as usize,
    }
}

/// Some position of `perm` holds `v`.
pub open spec fn is_image(perm: Seq<usize>, v: int) -> bool {
    exists|k: int| 0 <= k < perm.len() && perm[k] == v
}

/// Every index below `n` has a new position in a permutation of `0..n`.
proof fn lemma_onto(perm: Seq<usize>, n: int)
    requires
        is_permutation(perm, n),
    ensures
        forall|v: int| 0 <= v < n ==> #[trigger] is_image(perm, v),
{
    let s = perm.map_values(|x: usize| x as int);
    assert(s.no_duplicates()) by {
        assert forall|a: int, b: int| 0 <= a < s.len() && 0 <= b < s.len() && a != b implies s[a] != s[b] by {
            if a < b {
                assert(perm[a] != perm[b]);
            } else {
                assert(perm[b] != perm[a]);
            }
        }
    }
    s.unique_seq_to_set();
    let range = vstd::set_lib::set_int_range(0, n);
    vstd::set_lib::lemma_int_range(0, n);
    assert(s.to_set().subset_of(range)) by {
        assert forall|v: int| s.to_set().contains(v) implies range.contains(v) by {
            let k = choose|k: int| 0 <= k < s.len() && s[k] == v;
        }
    }
    vstd::set_lib::lemma_subset_equality(s.to_set(), range);
    assert forall|v: int| 0 <= v < n implies #[trigger] is_image(perm, v) by {
        assert(range.contains(v));
        assert(s.to_set().contains(v));
        let k = choose|k: int| 0 <= k < s.len() && s[k] == v;
        assert(perm[k] == v);
    }
}

/// The single move that `perm` makes, or `None` when it changes nothing.
pub fn moved_index(perm: &Vec<usize>) -> (r: Option<MovedIndexOutput>)
    requires
        is_permutation(perm@, perm@.len() as int),
        perm@.len() < usize::MAX,
    ensures
        is_identity(perm@) ==> r is None,
        !is_identity(perm@) ==> r == Some(moved_of(perm@)),
{
    if crate::tracklist::check_identity(perm) {
        return None;
    }
    let n = perm.len();
    proof {
        lemma_onto(perm@, n as int);
    }
    let mut inv: Vec<usize> = Vec::new();
    let mut i: usize = 0;
    while i < n
        invariant
            n == perm@.len(),
            0 <= i <= n,
            inv@.len() == i,
        decreases n - i,
    {
        inv.push(0);
        i = i + 1;
    }
    let mut k: usize = 0;
    while k < n
        invariant
            n == perm@.len(),
            is_permutation(perm@, n as int),
            inv@.len() == n,
            0 <= k <= n,
            forall|a: int| 0 <= a < k ==> inv@[perm@[a] as int] == a,
        decreases n - k,
    {
        inv.set(perm[k], k);
        k = k + 1;
    }
    assert forall|v: int| 0 <= v < n implies inv@[v] == new_position(perm@, v) && inv@[v] < n by {
        assert(is_image(perm@, v));
        let k = choose|k: int| 0 <= k < n && perm@[k] == v;
        assert(inv@[v] == k);
        assert(perm@[new_position(perm@, v)] == v);
        if new_position(perm@, v) != k {
            let p = new_position(perm@, v);
            if p < k {
                assert(perm@[p] != perm@[k]);
            } else {
                assert(perm@[k] != perm@[p]);
            }
        }
    }
    let mut moved: usize = 0;
    let mut old_idx: usize = 1;
    while old_idx < n
        invariant
            n == perm@.len(),
            n >= 1,
            1 <= old_idx <= n,
            inv@.len() == n,
            forall|v: int| 0 <= v < n ==> inv@[v] == new_position(perm@, v) && inv@[v] < n,
            moved == most_moved(perm@, old_idx as int),
            moved < old_idx,
        decreases n - old_idx,
    {
        let disp: i128 = inv[old_idx] as i128 - old_idx as i128;
        let cur: i128 = inv[moved] as i128 - moved as i128;
        let ad: i128 = if disp < 0 { -disp } else { disp };
        let ac: i128 = if cur < 0 { -cur } else { cur };
        if ad > ac || (ad == ac && disp > 0 && cur <= 0) {
            moved = old_idx;
        }
        old_idx = old_idx + 1;
    }
    let p = inv[moved];
    let insert_before = if p + 1 < n { perm[p + 1] + 1 } else { n + 1 };
    proof {
        if p + 1 < n {
            assert(perm@[p + 1] < n);
        }
    }
    Some(MovedIndexOutput { moved_index: moved, insert_before })
}

} // verus!
