//! Lists of process identifiers.
use vstd::prelude::*;

use crate::request::Pid;

verus! {

/// `pids` with every identifier kept only where it first occurs.
pub open spec fn first_occurrences(pids: Seq<Pid>) -> Seq<Pid>
    decreases pids.len(),
{
    if pids.len() == 0 {
        Seq::empty()
    } else {
        let kept = first_occurrences(pids.drop_last());
        if kept.contains(pids.last()) {
            kept
        } else {
            kept.push(pids.last())
        }
    }
}

/// Dropping repetitions loses no identifier, adds none, and leaves none twice.
pub proof fn law_first_occurrences_same_pids(pids: Seq<Pid>)
    ensures
        first_occurrences(pids).no_duplicates(),
        first_occurrences(pids).to_set() == pids.to_set(),
        forall|pid: Pid| first_occurrences(pids).contains(pid) <==> #[trigger] pids.contains(pid),
        first_occurrences(pids).len() <= pids.len(),
    decreases pids.len(),
{
    if pids.len() > 0 {
        let rest = pids.drop_last();
        let last = pids.last();
        let kept = first_occurrences(rest);
        law_first_occurrences_same_pids(rest);
        assert(pids =~= rest.push(last));
        assert forall|pid: Pid|
            first_occurrences(pids).contains(pid) <==> #[trigger] pids.contains(pid) by {
            assert(rest.push(last)[rest.len() as int] == last);
            assert(kept.push(last)[kept.len() as int] == last);
            if rest.contains(pid) {
                let i = choose|i: int| 0 <= i < rest.len() && rest[i] == pid;
                assert(pids[i] == pid);
                let j = choose|j: int| 0 <= j < kept.len() && kept[j] == pid;
                assert(kept.push(last)[j] == pid);
            }
        }
    }
    assert(first_occurrences(pids).to_set() =~= pids.to_set());
}

/// Whether `i` is the first place where `pid` stands in `pids`.
pub open spec fn first_at(pids: Seq<Pid>, pid: Pid, i: int) -> bool {
    &&& 0 <= i < pids.len()
    &&& pids[i] == pid
    &&& forall|j: int| 0 <= j < i ==> pids[j] != pid
}

/// An identifier of the list has a first place in it.
proof fn lemma_first_place(pids: Seq<Pid>, pid: Pid) -> (i: int)
    requires
        pids.contains(pid),
    ensures
        first_at(pids, pid, i),
    decreases pids.len(),
{
    let rest = pids.drop_last();
    if rest.contains(pid) {
        let i = lemma_first_place(rest, pid);
        assert forall|j: int| 0 <= j < i implies pids[j] != pid by {
            assert(rest[j] == pids[j]);
        }
        i
    } else {
        let k = choose|k: int| 0 <= k < pids.len() && pids[k] == pid;
        assert forall|j: int| 0 <= j < rest.len() implies pids[j] != pid by {
            assert(rest[j] == pids[j]);
        }
        assert(k == rest.len());
        k
    }
}

/// Dropping repetitions keeps the identifiers in the order in which they first occur: of two
/// identifiers that are kept, the one that comes first in the list comes first in what is kept.
pub proof fn law_first_occurrences_keep_order(pids: Seq<Pid>, i: int, j: int, a: int, b: int)
    requires
        0 <= i < first_occurrences(pids).len(),
        0 <= j < first_occurrences(pids).len(),
        first_at(pids, first_occurrences(pids)[i], a),
        first_at(pids, first_occurrences(pids)[j], b),
    ensures
        i < j <==> a < b,
    decreases pids.len(),
{
    let rest = pids.drop_last();
    let last = pids.last();
    let kept = first_occurrences(rest);
    law_first_occurrences_same_pids(pids);
    law_first_occurrences_same_pids(rest);
    assert(pids =~= rest.push(last));
    let n = kept.len() as int;
    if i < n {
        lemma_first_place_in_front(pids, kept[i], a);
    } else {
        lemma_first_place_at_end(pids, a);
    }
    if j < n {
        lemma_first_place_in_front(pids, kept[j], b);
    } else {
        lemma_first_place_at_end(pids, b);
    }
    if i < n && j < n {
        law_first_occurrences_keep_order(rest, i, j, a, b);
    }
}

/// An identifier that occurs before the end has its first place there.
proof fn lemma_first_place_in_front(pids: Seq<Pid>, pid: Pid, a: int)
    requires
        first_occurrences(pids.drop_last()).contains(pid),
        first_at(pids, pid, a),
    ensures
        a < pids.len() - 1,
        first_at(pids.drop_last(), pid, a),
{
    let rest = pids.drop_last();
    law_first_occurrences_same_pids(rest);
    assert(rest.contains(pid));
    let i = lemma_first_place(rest, pid);
    assert(pids[i] == rest[i]);
    assert forall|j: int| 0 <= j < a implies rest[j] != pid by {
        assert(rest[j] == pids[j]);
    }
}

/// The last identifier, where it is new, has its first place at the end.
proof fn lemma_first_place_at_end(pids: Seq<Pid>, a: int)
    requires
        pids.len() > 0,
        !first_occurrences(pids.drop_last()).contains(pids.last()),
        first_at(pids, pids.last(), a),
    ensures
        a == pids.len() - 1,
{
    let rest = pids.drop_last();
    law_first_occurrences_same_pids(rest);
    assert(!rest.contains(pids.last()));
    if a < rest.len() {
        assert(rest[a] == pids[a]);
    }
}

/// A list without repetitions is left as it is.
pub proof fn law_first_occurrences_of_distinct(pids: Seq<Pid>)
    requires
        pids.no_duplicates(),
    ensures
        first_occurrences(pids) == pids,
    decreases pids.len(),
{
    if pids.len() > 0 {
        law_first_occurrences_of_distinct(pids.drop_last());
        assert(pids =~= pids.drop_last().push(pids.last()));
    }
}

/// Dropping repetitions a second time changes nothing.
pub proof fn law_first_occurrences_idempotent(pids: Seq<Pid>)
    ensures
        first_occurrences(first_occurrences(pids)) == first_occurrences(pids),
{
    law_first_occurrences_same_pids(pids);
    law_first_occurrences_of_distinct(first_occurrences(pids));
}

/// Whether `pid` is in the list.
pub fn contains_pid(pids: &[Pid], pid: Pid) -> (r: bool)
    ensures
        r == pids@.contains(pid),
{
    let mut i: usize = 0;
    while i < pids.len()
        invariant
            i <= pids@.len(),
            forall|j: int| 0 <= j < i ==> pids@[j] != pid,
        decreases pids@.len() - i,
    {
        if pids[i] == pid {
            return true;
        }
        i += 1;
    }
    false
}

/// Wherever an identifier stands in the list, those that are kept before it are listed before
/// that place.
pub proof fn law_kept_before_is_listed_before(pids: Seq<Pid>, i: int, j: int, b: int)
    requires
        0 <= i < j < first_occurrences(pids).len(),
        0 <= b < pids.len(),
        pids[b] == first_occurrences(pids)[j],
    ensures
        pids.take(b).contains(first_occurrences(pids)[i]),
{
    let kept = first_occurrences(pids);
    law_first_occurrences_same_pids(pids);
    assert(kept.contains(kept[i]));
    assert(kept.contains(kept[j]));
    assert(pids.contains(kept[i]));
    assert(pids.contains(kept[j]));
    let first = lemma_first_place(pids, kept[i]);
    let second = lemma_first_place(pids, kept[j]);
    law_first_occurrences_keep_order(pids, i, j, first, second);
    assert(pids.take(b)[first] == kept[i]);
}

} // verus!
