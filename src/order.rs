use vstd::prelude::*;
use crate::entry::{TodoEntry, entries_view};

verus! {

/// The view of a row as a storage backend hands it back: an id and a text.
pub open spec fn rows_view(rows: Seq<(i64, String)>) -> Seq<(i64, Seq<char>)> {
    rows.map_values(|r: (i64, String)| (r.0, r.1@))
}

/// Ids never decrease along the sequence.
pub open spec fn sorted_by_id(s: Seq<(i64, Seq<char>)>) -> bool {
    forall|i: int, j: int| 0 <= i < j < s.len() ==> #[trigger] s[i].0 <= #[trigger] s[j].0
}

/// Puts the rows read from the table into entries ordered by ascending id,
/// whatever order the backend returned them in, keeping every row.
pub fn entries_in_id_order(rows: &Vec<(i64, String)>) -> (r: Vec<TodoEntry>)
    ensures
        sorted_by_id(entries_view(r@)),
        entries_view(r@).to_multiset() == rows_view(rows@).to_multiset(),
{
    broadcast use vstd::seq_lib::group_to_multiset_ensures;

    let mut out: Vec<TodoEntry> = Vec::new();
    let mut i: usize = 0;
    while i < rows.len()
        invariant
            i <= rows.len(),
            sorted_by_id(entries_view(out@)),
            entries_view(out@).to_multiset() == rows_view(rows@.take(i as int)).to_multiset(),
        decreases rows.len() - i,
    {
        let id = rows[i].0;
        let entry = TodoEntry::new(id, rows[i].1.clone());
        let mut k: usize = 0;
        while k < out.len() && out[k].id <= id
            invariant
                k <= out.len(),
                forall|m: int| 0 <= m < k ==> (#[trigger] out@[m]).id <= id,
            decreases out.len() - k,
        {
            k = k + 1;
        }
        let ghost before = entries_view(out@);
        proof {
            let after = entries_view(out@.insert(k as int, entry));
            assert(after =~= before.insert(k as int, entry@));
            assert forall|a: int, b: int| 0 <= a < b < after.len() implies #[trigger] after[a].0
                <= #[trigger] after[b].0 by {
                if b < k {
                    assert(after[a] == before[a] && after[b] == before[b]);
                } else if b == k {
                    assert(after[a] == before[a]);
                } else if a < k {
                    assert(after[a] == before[a] && after[b] == before[b - 1]);
                    assert(before[k as int].0 > id);
                } else if a == k {
                    assert(after[b] == before[b - 1]);
                    if b - 1 > k {
                        assert(before[k as int].0 <= before[b - 1].0);
                    }
                } else {
                    assert(after[a] == before[a - 1] && after[b] == before[b - 1]);
                }
            }
            assert(rows_view(rows@.take(i + 1)) =~= rows_view(rows@.take(i as int)).push(
                entry@,
            ));
        }
        out.insert(k, entry);
        proof {
            assert(entries_view(out@) =~= before.insert(k as int, entry@));
            vstd::seq_lib::to_multiset_insert(before, k as int, entry@);
            vstd::seq_lib::to_multiset_build(rows_view(rows@.take(i as int)), entry@);
        }
        i = i + 1;
    }
    assert(rows@.take(rows.len() as int) =~= rows@);
    out
}

} // verus!
