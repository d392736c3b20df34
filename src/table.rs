use vstd::prelude::*;

verus! {

/// The abstract contents of the to-do table: its rows in ascending id order,
/// and the largest id ever handed out (ids are never reused). The spec
/// functions below state what the schema, insert, delete and select
/// statements of `sqlite` do to it.
pub struct TableModel {
    pub rows: Seq<(i64, Seq<char>)>,
    pub last_id: i64,
}

/// A table that has never held a row.
pub open spec fn empty_table() -> TableModel {
    TableModel { rows: Seq::empty(), last_id: 0 }
}

/// Ids strictly increase along the sequence, so they are also distinct.
pub open spec fn ids_ascending(rows: Seq<(i64, Seq<char>)>) -> bool {
    forall|i: int, j: int| 0 <= i < j < rows.len() ==> #[trigger] rows[i].0 < #[trigger] rows[j].0
}

/// Some row of the table carries `id`.
pub open spec fn has_id(rows: Seq<(i64, Seq<char>)>, id: i64) -> bool {
    exists|i: int| 0 <= i < rows.len() && #[trigger] rows[i].0 == id
}

pub open spec fn table_wf(t: TableModel) -> bool {
    &&& t.last_id >= 0
    &&& ids_ascending(t.rows)
    &&& forall|i: int| 0 <= i < t.rows.len() ==> 1 <= #[trigger] t.rows[i].0 <= t.last_id
}

/// An insert succeeds while the id counter has room for one more id.
pub open spec fn can_add(t: TableModel) -> bool {
    t.last_id < i64::MAX
}

/// The table after inserting `text`: the row gets the next id and goes last.
pub open spec fn add_row(t: TableModel, text: Seq<char>) -> TableModel
    recommends
        can_add(t),
{
    TableModel { rows: t.rows.push(((t.last_id + 1) as i64, text)), last_id: (t.last_id + 1) as i64 }
}

/// Holds of the rows that a delete of `id` keeps.
pub open spec fn other_id(id: i64) -> spec_fn((i64, Seq<char>)) -> bool {
    |r: (i64, Seq<char>)| r.0 != id
}

/// The table after deleting the rows whose id is `id` (there is at most one).
pub open spec fn delete_row(t: TableModel, id: i64) -> TableModel {
    TableModel { rows: t.rows.filter(other_id(id)), last_id: t.last_id }
}

/// What a listing of the table returns: every row, ascending by id.
pub open spec fn listing(t: TableModel) -> Seq<(i64, Seq<char>)> {
    t.rows
}

/// The table after inserting each text in turn.
pub open spec fn add_all(t: TableModel, texts: Seq<Seq<char>>) -> TableModel
    decreases texts.len(),
{
    if texts.len() == 0 {
        t
    } else {
        add_row(add_all(t, texts.drop_last()), texts.last())
    }
}

/// An insert keeps the table well formed.
pub proof fn lemma_add_keeps_wf(t: TableModel, text: Seq<char>)
    requires
        table_wf(t),
        can_add(t),
    ensures
        table_wf(add_row(t, text)),
{
    let u = add_row(t, text);
    assert forall|i: int, j: int| 0 <= i < j < u.rows.len() implies #[trigger] u.rows[i].0
        < #[trigger] u.rows[j].0 by {
        if j == t.rows.len() {
            assert(u.rows[i] == t.rows[i]);
        } else {
            assert(u.rows[i] == t.rows[i] && u.rows[j] == t.rows[j]);
        }
    }
    assert forall|i: int| 0 <= i < u.rows.len() implies 1 <= #[trigger] u.rows[i].0
        <= u.last_id by {
        if i < t.rows.len() {
            assert(u.rows[i] == t.rows[i]);
        }
    }
}

proof fn lemma_filter_keeps_ascending(rows: Seq<(i64, Seq<char>)>, id: i64)
    requires
        ids_ascending(rows),
    ensures
        ids_ascending(rows.filter(other_id(id))),
    decreases rows.len(),
{
    reveal(Seq::filter);
    broadcast use vstd::seq::Seq::lemma_filter_contains_rev;

    if rows.len() > 0 {
        let rest = rows.drop_last();
        assert forall|i: int, j: int| 0 <= i < j < rest.len() implies #[trigger] rest[i].0
            < #[trigger] rest[j].0 by {
            assert(rest[i] == rows[i] && rest[j] == rows[j]);
        }
        lemma_filter_keeps_ascending(rest, id);
        let f = rows.filter(other_id(id));
        let g = rest.filter(other_id(id));
        if other_id(id)(rows.last()) {
            assert(f == g.push(rows.last()));
            assert forall|i: int, j: int| 0 <= i < j < f.len() implies #[trigger] f[i].0
                < #[trigger] f[j].0 by {
                if j == g.len() {
                    assert(f[i] == g[i]);
                    assert(g.contains(g[i]));
                    assert(rest.contains(g[i]));
                    let k = choose|k: int| 0 <= k < rest.len() && rest[k] == g[i];
                    assert(rows[k] == rest[k]);
                } else {
                    assert(f[i] == g[i] && f[j] == g[j]);
                }
            }
        }
    }
}

proof fn lemma_filter_keeps_all(rows: Seq<(i64, Seq<char>)>, id: i64)
    requires
        !has_id(rows, id),
    ensures
        rows.filter(other_id(id)) == rows,
    decreases rows.len(),
{
    reveal(Seq::filter);
    if rows.len() > 0 {
        let rest = rows.drop_last();
        assert(!has_id(rest, id)) by {
            if has_id(rest, id) {
                let k = choose|k: int| 0 <= k < rest.len() && #[trigger] rest[k].0 == id;
                assert(rows[k] == rest[k]);
            }
        }
        lemma_filter_keeps_all(rest, id);
        assert(rows.last() == rows[rows.len() - 1]);
        assert(rest.push(rows.last()) =~= rows);
    }
}

/// Deleting a row keeps the table well formed.
pub proof fn lemma_delete_keeps_wf(t: TableModel, id: i64)
    requires
        table_wf(t),
    ensures
        table_wf(delete_row(t, id)),
{
    broadcast use vstd::seq::Seq::lemma_filter_contains_rev;

    lemma_filter_keeps_ascending(t.rows, id);
    let f = delete_row(t, id).rows;
    assert forall|i: int| 0 <= i < f.len() implies 1 <= #[trigger] f[i].0 <= t.last_id by {
        assert(f.contains(f[i]));
        assert(t.rows.contains(f[i]));
    }
}

/// After a run of inserts, one after another, into a well-formed table,
/// every earlier row is still there, each text is stored unaltered under its
/// own fresh id, those ids follow the earlier ones in ascending order, and
/// the table stays well formed. Nothing is lost.
pub proof fn lemma_adds_are_kept(t: TableModel, texts: Seq<Seq<char>>)
    requires
        table_wf(t),
        t.last_id + texts.len() <= i64::MAX,
    ensures
        table_wf(add_all(t, texts)),
        add_all(t, texts).last_id == t.last_id + texts.len(),
        listing(add_all(t, texts)).len() == t.rows.len() + texts.len(),
        listing(add_all(t, texts)).take(t.rows.len() as int) == listing(t),
        forall|i: int|
            0 <= i < texts.len() ==> #[trigger] listing(add_all(t, texts))[t.rows.len() + i] == (
            (t.last_id + 1 + i) as i64,
            texts[i],
        ),
    decreases texts.len(),
{
    if texts.len() > 0 {
        let prefix = texts.drop_last();
        lemma_adds_are_kept(t, prefix);
        let u = add_all(t, prefix);
        lemma_add_keeps_wf(u, texts.last());
        let v = add_all(t, texts);
        assert(v == add_row(u, texts.last()));
        assert(v.rows.take(t.rows.len() as int) =~= u.rows.take(t.rows.len() as int));
        assert forall|i: int| 0 <= i < texts.len() implies #[trigger] v.rows[t.rows.len() + i]
            == ((t.last_id + 1 + i) as i64, texts[i]) by {
            if i < prefix.len() {
                assert(u.rows[t.rows.len() + i] == ((t.last_id + 1 + i) as i64, prefix[i]));
            }
        }
    }
}

/// Inserting texts one after another into an empty table and then listing
/// it gives exactly those texts, in the order they were added, under the
/// distinct ascending ids 1, 2, 3, and so on.
pub proof fn lemma_adds_from_empty(texts: Seq<Seq<char>>)
    requires
        texts.len() <= i64::MAX,
    ensures
        listing(add_all(empty_table(), texts)).len() == texts.len(),
        ids_ascending(listing(add_all(empty_table(), texts))),
        forall|i: int|
            0 <= i < texts.len() ==> #[trigger] listing(add_all(empty_table(), texts))[i] == (
            (i + 1) as i64,
            texts[i],
        ),
{
    lemma_adds_are_kept(empty_table(), texts);
    assert forall|i: int| 0 <= i < texts.len() implies #[trigger] listing(
        add_all(empty_table(), texts),
    )[i] == ((i + 1) as i64, texts[i]) by {
        assert(listing(add_all(empty_table(), texts))[0 + i] == ((0 + 1 + i) as i64, texts[i]));
    }
}

/// Deleting an id that no row carries leaves the table as it was.
pub proof fn lemma_delete_absent_id(t: TableModel, id: i64)
    requires
        !has_id(t.rows, id),
    ensures
        delete_row(t, id) == t,
{
    lemma_filter_keeps_all(t.rows, id);
}

/// Deleting an id removes the row that carries it and no other: the listing
/// afterwards holds exactly the earlier rows with another id.
pub proof fn lemma_delete_removes_only_that_id(t: TableModel, id: i64)
    requires
        table_wf(t),
    ensures
        table_wf(delete_row(t, id)),
        !has_id(listing(delete_row(t, id)), id),
        forall|r: (i64, Seq<char>)|
            #[trigger] listing(delete_row(t, id)).contains(r) <==> (listing(t).contains(r) && r.0
                != id),
{
    broadcast use vstd::seq::Seq::lemma_filter_contains_rev;
    broadcast use vstd::seq::Seq::lemma_filter_pred;

    lemma_delete_keeps_wf(t, id);
    let f = delete_row(t, id).rows;
    assert(!has_id(f, id)) by {
        if has_id(f, id) {
            let k = choose|k: int| 0 <= k < f.len() && #[trigger] f[k].0 == id;
            assert(other_id(id)(f[k]));
        }
    }
    assert forall|r: (i64, Seq<char>)| #[trigger] f.contains(r) <==> (t.rows.contains(r) && r.0
        != id) by {
        if t.rows.contains(r) && r.0 != id {
            let k = choose|k: int| 0 <= k < t.rows.len() && t.rows[k] == r;
            t.rows.lemma_filter_contains(other_id(id), k);
        }
        if f.contains(r) {
            let k = choose|k: int| 0 <= k < f.len() && f[k] == r;
            assert(other_id(id)(f[k]));
        }
    }
}

/// An insert followed by a listing shows the text exactly as it was given,
/// under the new id.
pub proof fn lemma_added_text_is_listed(t: TableModel, text: Seq<char>)
    requires
        can_add(t),
    ensures
        listing(add_row(t, text)).contains(((t.last_id + 1) as i64, text)),
{
    let l = listing(add_row(t, text));
    assert(l[l.len() - 1] == ((t.last_id + 1) as i64, text));
}

/// Deleting an id a second time changes nothing more.
pub proof fn lemma_delete_twice_is_once(t: TableModel, id: i64)
    requires
        table_wf(t),
    ensures
        delete_row(delete_row(t, id), id) == delete_row(t, id),
{
    lemma_delete_removes_only_that_id(t, id);
    lemma_delete_absent_id(delete_row(t, id), id);
}

/// Deleting the row that an insert just made brings the rows back to what
/// they were, but its id stays used up.
pub proof fn lemma_add_then_delete(t: TableModel, text: Seq<char>)
    requires
        table_wf(t),
        can_add(t),
    ensures
        delete_row(add_row(t, text), (t.last_id + 1) as i64) == (TableModel {
            rows: t.rows,
            last_id: (t.last_id + 1) as i64,
        }),
{
    reveal(Seq::filter);
    let id = (t.last_id + 1) as i64;
    let u = add_row(t, text);
    assert(u.rows.drop_last() =~= t.rows);
    assert(!has_id(t.rows, id));
    lemma_filter_keeps_all(t.rows, id);
}

proof fn lemma_filters_commute(rows: Seq<(i64, Seq<char>)>, j: i64, k: i64)
    ensures
        rows.filter(other_id(j)).filter(other_id(k)) == rows.filter(other_id(k)).filter(
            other_id(j),
        ),
    decreases rows.len(),
{
    reveal(Seq::filter);
    if rows.len() > 0 {
        let rest = rows.drop_last();
        let x = rows.last();
        lemma_filters_commute(rest, j, k);
        let fj = rows.filter(other_id(j));
        let fk = rows.filter(other_id(k));
        if other_id(j)(x) {
            assert(fj.drop_last() =~= rest.filter(other_id(j)));
            assert(fj.last() == x);
        } else {
            assert(fj == rest.filter(other_id(j)));
        }
        if other_id(k)(x) {
            assert(fk.drop_last() =~= rest.filter(other_id(k)));
            assert(fk.last() == x);
        } else {
            assert(fk == rest.filter(other_id(k)));
        }
    }
}

/// Two deletes give the same table in either order.
pub proof fn lemma_deletes_commute(t: TableModel, j: i64, k: i64)
    ensures
        delete_row(delete_row(t, j), k) == delete_row(delete_row(t, k), j),
{
    lemma_filters_commute(t.rows, j, k);
}

} // verus!
