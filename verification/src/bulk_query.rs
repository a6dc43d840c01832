//! The SQL statement that writes a batch of "set to" aggregate values: each
//! user's row is locked (skipping rows another writer holds) and then updated
//! with the new value and the time of the batch.

use vstd::prelude::*;
use std::collections::HashMap;
use vstd::std_specs::iter::IteratorSpec;
use crate::ids::{uuid_text, uuid_to_text};
use crate::clock::{UtcTime, now_with_rfc3339, rfc3339_text};

verus! {

broadcast use vstd::std_specs::hash::group_hash_axioms;

/// The statement up to the list of locked `(user_id, name)` pairs.
pub const QUERY_HEAD: &'static str = "\n        WITH\n        locked_rows (user_id, name) AS (\n            SELECT user_id, name\n            FROM aggregates\n            WHERE (user_id, name) IN ( ";

/// The statement between the locked pairs and the list of updates.
pub const QUERY_MIDDLE: &'static str = " )\n            FOR UPDATE SKIP LOCKED\n        ),\n        updates (user_id, value, updated_at, name) AS ( VALUES ";

/// The statement after the list of updates.
pub const QUERY_TAIL: &'static str = " )\n        UPDATE aggregates\n            SET\n                value =  to_jsonb(updates.value::double precision),\n                updated_at = updates.updated_at\n        FROM updates\n        JOIN locked_rows ON locked_rows.user_id = updates.user_id AND locked_rows.name = updates.name\n        WHERE\n            aggregates.user_id = updates.user_id\n            AND aggregates.name = updates.name\n        ";

/// One user's pending value: the user id, the aggregate's name and the
/// value's JSON text.
pub type SetToRow = (u128, String, String);

/// `('<user id>'::uuid, '<name>')`
pub open spec fn lock_row(id: u128, name: Seq<char>) -> Seq<char> {
    "('"@ + uuid_text(id) + "'::uuid, '"@ + name + "')"@
}

/// `('<user id>'::uuid, '<value>'::jsonb, '<time>'::timestamptz, '<name>')`
pub open spec fn update_row(id: u128, name: Seq<char>, value: Seq<char>, at: Seq<char>) -> Seq<char> {
    "('"@ + uuid_text(id) + "'::uuid, '"@ + value + "'::jsonb, '"@ + at + "'::timestamptz, '"@
        + name + "')"@
}

/// The items of `rows` separated by commas.
pub open spec fn join_rows(rows: Seq<Seq<char>>) -> Seq<char>
    decreases rows.len(),
{
    if rows.len() == 0 {
        Seq::empty()
    } else if rows.len() == 1 {
        rows[0]
    } else {
        join_rows(rows.drop_last()) + seq![','] + rows.last()
    }
}

pub open spec fn lock_rows(rows: Seq<SetToRow>) -> Seq<Seq<char>> {
    rows.map_values(|r: SetToRow| lock_row(r.0, r.1@))
}

pub open spec fn update_rows(rows: Seq<SetToRow>, at: Seq<char>) -> Seq<Seq<char>> {
    rows.map_values(|r: SetToRow| update_row(r.0, r.1@, r.2@, at))
}

/// The whole statement for `rows`, all updated at the time `at`.
pub open spec fn bulk_query_text(rows: Seq<SetToRow>, at: Seq<char>) -> Seq<char> {
    QUERY_HEAD@ + join_rows(lock_rows(rows)) + QUERY_MIDDLE@ + join_rows(update_rows(rows, at))
        + QUERY_TAIL@
}

/// `rows` lists the entries of `calls`, each once, in some order.
pub open spec fn lists_entries(calls: Map<u128, (String, String)>, rows: Seq<SetToRow>) -> bool {
    &&& rows.len() == calls.dom().len()
    &&& forall|i: int| #![trigger rows[i]] 0 <= i < rows.len() ==> {
        &&& calls.contains_key(rows[i].0)
        &&& rows[i].1@ == calls[rows[i].0].0@
        &&& rows[i].2@ == calls[rows[i].0].1@
    }
    &&& forall|i: int, j: int|
        0 <= i < rows.len() && 0 <= j < rows.len() && i != j ==> #[trigger] rows[i].0 != #[trigger] rows[j].0
    &&& forall|k: u128| #[trigger] calls.contains_key(k) ==> exists|i: int| 0 <= i < rows.len() && rows[i].0 == k
}

fn push_lock_row(out: &mut String, row: &SetToRow)
    ensures
        final(out)@ == old(out)@ + lock_row(row.0, row.1@),
{
    let id_text = uuid_to_text(row.0);
    out.append("('");
    out.append(id_text.as_str());
    out.append("'::uuid, '");
    out.append(row.1.as_str());
    out.append("')");
}

fn push_update_row(out: &mut String, row: &SetToRow, at: &str)
    ensures
        final(out)@ == old(out)@ + update_row(row.0, row.1@, row.2@, at@),
{
    let id_text = uuid_to_text(row.0);
    out.append("('");
    out.append(id_text.as_str());
    out.append("'::uuid, '");
    out.append(row.2.as_str());
    out.append("'::jsonb, '");
    out.append(at);
    out.append("'::timestamptz, '");
    out.append(row.1.as_str());
    out.append("')");
}

proof fn lemma_join_push(rows: Seq<Seq<char>>, r: Seq<char>)
    ensures
        join_rows(rows.push(r)) == if rows.len() == 0 {
            r
        } else {
            join_rows(rows) + seq![','] + r
        },
{
    assert(rows.push(r).drop_last() =~= rows);
}

/// `part` occurs in `whole` as a contiguous stretch.
pub open spec fn occurs_in(part: Seq<char>, whole: Seq<char>) -> bool {
    exists|k: int| 0 <= k && k + part.len() <= whole.len() && #[trigger] whole.subrange(k, k + part.len()) == part
}

/// Each item of `rows` occurs in the items joined with commas.
pub proof fn lemma_joined_rows_hold_each(rows: Seq<Seq<char>>, i: int)
    requires
        0 <= i < rows.len(),
    ensures
        occurs_in(rows[i], join_rows(rows)),
    decreases rows.len(),
{
    let j = join_rows(rows);
    let r = rows[i];
    if rows.len() == 1 {
        let k = 0int;
        assert(j.subrange(k, k + r.len()) =~= r);
    } else if i == rows.len() - 1 {
        let k = j.len() - r.len();
        assert(j =~= join_rows(rows.drop_last()) + seq![','] + r);
        assert(j.subrange(k, k + r.len()) =~= r);
    } else {
        lemma_joined_rows_hold_each(rows.drop_last(), i);
        let front = join_rows(rows.drop_last());
        let k = choose|k: int| 0 <= k && k + r.len() <= front.len() && #[trigger] front.subrange(k, k + r.len()) == r;
        assert(j =~= front + (seq![','] + rows.last()));
        assert(j.subrange(k, k + r.len()) =~= front.subrange(k, k + r.len()));
    }
}

/// The statement for `rows` locks every row (its IN list holds the row's
/// `(user_id, name)` tuple) and updates every row (its VALUES list holds the
/// row's tuple with the value and the time `at`).
pub proof fn lemma_statement_holds_every_row(rows: Seq<SetToRow>, at: Seq<char>)
    ensures
        exists|locks: Seq<char>, values: Seq<char>|
            {
                &&& bulk_query_text(rows, at) == QUERY_HEAD@ + locks + QUERY_MIDDLE@ + values + QUERY_TAIL@
                &&& forall|i: int|
                    #![trigger rows[i]]
                    0 <= i < rows.len() ==> {
                        &&& occurs_in(
                            "('"@ + uuid_text(rows[i].0) + "'::uuid, '"@ + rows[i].1@ + "')"@,
                            locks,
                        )
                        &&& occurs_in(
                            "('"@ + uuid_text(rows[i].0) + "'::uuid, '"@ + rows[i].2@ + "'::jsonb, '"@ + at
                                + "'::timestamptz, '"@ + rows[i].1@ + "')"@,
                            values,
                        )
                    }
            },
{
    let locks = join_rows(lock_rows(rows));
    let values = join_rows(update_rows(rows, at));
    assert forall|i: int|
        #![trigger rows[i]]
        0 <= i < rows.len() implies {
        &&& occurs_in("('"@ + uuid_text(rows[i].0) + "'::uuid, '"@ + rows[i].1@ + "')"@, locks)
        &&& occurs_in(
            "('"@ + uuid_text(rows[i].0) + "'::uuid, '"@ + rows[i].2@ + "'::jsonb, '"@ + at
                + "'::timestamptz, '"@ + rows[i].1@ + "')"@,
            values,
        )
    } by {
        lemma_joined_rows_hold_each(lock_rows(rows), i);
        lemma_joined_rows_hold_each(update_rows(rows, at), i);
    }
    assert(bulk_query_text(rows, at) == QUERY_HEAD@ + locks + QUERY_MIDDLE@ + values + QUERY_TAIL@);
}

/// The statement that writes `rows`, every row stamped with the time `at`.
pub fn bulk_query(rows: &Vec<SetToRow>, at: &str) -> (q: String)
    ensures
        q@ == bulk_query_text(rows@, at@),
        // Every row is locked (in the IN list) and updated (in the VALUES list).
        exists|locks: Seq<char>, values: Seq<char>|
            #![trigger QUERY_HEAD@ + locks + QUERY_MIDDLE@ + values + QUERY_TAIL@]
            {
                &&& q@ == QUERY_HEAD@ + locks + QUERY_MIDDLE@ + values + QUERY_TAIL@
                &&& forall|i: int|
                    #![trigger rows@[i]]
                    0 <= i < rows@.len() ==> {
                        &&& occurs_in(
                            "('"@ + uuid_text(rows@[i].0) + "'::uuid, '"@ + rows@[i].1@ + "')"@,
                            locks,
                        )
                        &&& occurs_in(
                            "('"@ + uuid_text(rows@[i].0) + "'::uuid, '"@ + rows@[i].2@ + "'::jsonb, '"@ + at@
                                + "'::timestamptz, '"@ + rows@[i].1@ + "')"@,
                            values,
                        )
                    }
            },
{
    let mut q = String::from_str(QUERY_HEAD);
    let n = rows.len();
    let mut i: usize = 0;
    while i < n
        invariant
            n == rows@.len(),
            i <= n,
            q@ == QUERY_HEAD@ + join_rows(lock_rows(rows@.take(i as int))),
        decreases n - i,
    {
        proof {
            assert(lock_rows(rows@.take(i + 1)) =~= lock_rows(rows@.take(i as int)).push(
                lock_row(rows@[i as int].0, rows@[i as int].1@),
            ));
            lemma_join_push(lock_rows(rows@.take(i as int)), lock_row(rows@[i as int].0, rows@[i as int].1@));
        }
        let ghost before = q@;
        if i > 0 {
            q.append(",");
            proof {
                reveal_strlit(",");
                assert(q@ =~= before + seq![',']);
            }
        }
        push_lock_row(&mut q, &rows[i]);
        proof {
            assert(q@ =~= QUERY_HEAD@ + join_rows(lock_rows(rows@.take(i + 1))));
        }
        i = i + 1;
    }
    assert(rows@.take(n as int) =~= rows@);
    q.append(QUERY_MIDDLE);
    let ghost head = q@;
    let mut i: usize = 0;
    while i < n
        invariant
            n == rows@.len(),
            i <= n,
            q@ == head + join_rows(update_rows(rows@.take(i as int), at@)),
        decreases n - i,
    {
        proof {
            assert(update_rows(rows@.take(i + 1), at@) =~= update_rows(rows@.take(i as int), at@).push(
                update_row(rows@[i as int].0, rows@[i as int].1@, rows@[i as int].2@, at@),
            ));
            lemma_join_push(
                update_rows(rows@.take(i as int), at@),
                update_row(rows@[i as int].0, rows@[i as int].1@, rows@[i as int].2@, at@),
            );
        }
        let ghost before = q@;
        if i > 0 {
            q.append(",");
            proof {
                reveal_strlit(",");
                assert(q@ =~= before + seq![',']);
            }
        }
        push_update_row(&mut q, &rows[i], at);
        proof {
            assert(q@ =~= head + join_rows(update_rows(rows@.take(i + 1), at@)));
        }
        i = i + 1;
    }
    q.append(QUERY_TAIL);
    proof {
        lemma_statement_holds_every_row(rows@, at@);
    }
    q
}

/// The entries of `calls` as rows, in the order in which the map walks them.
pub fn rows_of(calls: &HashMap<u128, (String, String)>) -> (rows: Vec<SetToRow>)
    ensures
        lists_entries(calls@, rows@),
{
    let mut rows: Vec<SetToRow> = Vec::new();
    for entry in it: calls.iter()
        invariant
            it.seq() == vstd::std_specs::hash::spec_hash_map_iter(calls).remaining(),
            rows@.len() == it.index(),
            forall|i: int| #![trigger rows@[i]] 0 <= i < rows@.len() ==> {
                &&& rows@[i].0 == *it.seq()[i].0
                &&& rows@[i].1@ == it.seq()[i].1.0@
                &&& rows@[i].2@ == it.seq()[i].1.1@
            },
    {
        let (k, v) = entry;
        rows.push((*k, v.0.clone(), v.1.clone()));
    }
    let ghost seq = vstd::std_specs::hash::spec_hash_map_iter(calls).remaining();
    assert forall|i: int, j: int|
        0 <= i < rows@.len() && 0 <= j < rows@.len() && i != j implies #[trigger] rows@[i].0
        != #[trigger] rows@[j].0 by {
        if rows@[i].0 == rows@[j].0 {
            assert(calls@.contains_key(*seq[i].0));
            assert(seq[i] == seq[j]);
        }
    }
    assert forall|k: u128| #[trigger] calls@.contains_key(k) implies exists|i: int|
        0 <= i < rows@.len() && rows@[i].0 == k by {
        assert(seq.contains((&k, &calls@[k])));
        let i = choose|i: int| 0 <= i < seq.len() && seq[i] == (&k, &calls@[k]);
        assert(rows@[i].0 == k);
    }
    rows
}

/// Rows `r1` and `r2` give the same lock row and the same update row.
pub open spec fn same_row_text(r1: SetToRow, r2: SetToRow, at: Seq<char>) -> bool {
    &&& lock_row(r1.0, r1.1@) == lock_row(r2.0, r2.1@)
    &&& update_row(r1.0, r1.1@, r1.2@, at) == update_row(r2.0, r2.1@, r2.2@, at)
}

/// Some row of `rows` gives the same lock row and update row as `r`.
pub open spec fn has_same_row_text(r: SetToRow, rows: Seq<SetToRow>, at: Seq<char>) -> bool {
    exists|j: int| 0 <= j < rows.len() && #[trigger] same_row_text(r, rows[j], at)
}

/// Two listings of the same pending values give statements with the same
/// rows up to order: both have one row per user, and every row of one gives
/// the same lock row and update row as some row of the other.
pub proof fn lemma_listings_give_the_same_rows(
    calls: Map<u128, (String, String)>,
    rows1: Seq<SetToRow>,
    rows2: Seq<SetToRow>,
    at: Seq<char>,
)
    requires
        lists_entries(calls, rows1),
        lists_entries(calls, rows2),
    ensures
        rows1.len() == rows2.len(),
        forall|i: int| 0 <= i < rows1.len() ==> #[trigger] has_same_row_text(rows1[i], rows2, at),
        forall|j: int| 0 <= j < rows2.len() ==> #[trigger] has_same_row_text(rows2[j], rows1, at),
{
    assert forall|i: int| 0 <= i < rows1.len() implies #[trigger] has_same_row_text(rows1[i], rows2, at) by {
        let j = lemma_row_of_user(calls, rows2, rows1[i].0);
        assert(same_row_text(rows1[i], rows2[j], at));
    }
    assert forall|j: int| 0 <= j < rows2.len() implies #[trigger] has_same_row_text(rows2[j], rows1, at) by {
        let i = lemma_row_of_user(calls, rows1, rows2[j].0);
        assert(same_row_text(rows2[j], rows1[i], at));
    }
}

/// A listing of `calls` has a row for each user in `calls`.
proof fn lemma_row_of_user(calls: Map<u128, (String, String)>, rows: Seq<SetToRow>, k: u128) -> (j: int)
    requires
        lists_entries(calls, rows),
        calls.contains_key(k),
    ensures
        0 <= j < rows.len(),
        rows[j].0 == k,
        rows[j].1@ == calls[k].0@,
        rows[j].2@ == calls[k].1@,
{
    choose|j: int| 0 <= j < rows.len() && rows[j].0 == k
}

/// The statement that writes the pending values `calls` (user id to the
/// aggregate's name and the value's JSON text), one row per user in the
/// order in which the map walks them, all stamped with the RFC 3339 text of
/// the current instant.
pub fn set_to_aggregates_create_bulk_query(calls: HashMap<u128, (String, String)>) -> (q: String)
    ensures
        exists|rows: Seq<SetToRow>, now: UtcTime|
            now.wf() && lists_entries(calls@, rows) && q@ == bulk_query_text(
                rows,
                rfc3339_text(now.secs, now.nanos),
            ),
        // Every pending user's pair is locked and its value written, all at
        // one instant read from the clock.
        exists|locks: Seq<char>, values: Seq<char>, now: UtcTime|
            {
                &&& now.wf()
                &&& q@ == QUERY_HEAD@ + locks + QUERY_MIDDLE@ + values + QUERY_TAIL@
                &&& forall|k: u128|
                    #[trigger] calls@.contains_key(k) ==> {
                        &&& occurs_in("('"@ + uuid_text(k) + "'::uuid, '"@ + calls@[k].0@ + "')"@, locks)
                        &&& occurs_in(
                            "('"@ + uuid_text(k) + "'::uuid, '"@ + calls@[k].1@ + "'::jsonb, '"@
                                + rfc3339_text(now.secs, now.nanos) + "'::timestamptz, '"@ + calls@[k].0@
                                + "')"@,
                            values,
                        )
                    }
            },
{
    let rows = rows_of(&calls);
    let (now, at) = now_with_rfc3339();
    let q = bulk_query(&rows, at.as_str());
    assert(lists_entries(calls@, rows@) && q@ == bulk_query_text(rows@, rfc3339_text(now.secs, now.nanos)));
    proof {
        let locks = choose|locks: Seq<char>, values: Seq<char>|
            {
                &&& q@ == QUERY_HEAD@ + locks + QUERY_MIDDLE@ + values + QUERY_TAIL@
                &&& forall|i: int|
                    #![trigger rows@[i]]
                    0 <= i < rows@.len() ==> {
                        &&& occurs_in(
                            "('"@ + uuid_text(rows@[i].0) + "'::uuid, '"@ + rows@[i].1@ + "')"@,
                            locks,
                        )
                        &&& occurs_in(
                            "('"@ + uuid_text(rows@[i].0) + "'::uuid, '"@ + rows@[i].2@ + "'::jsonb, '"@ + at@
                                + "'::timestamptz, '"@ + rows@[i].1@ + "')"@,
                            values,
                        )
                    }
            };
        assert forall|k: u128| #[trigger] calls@.contains_key(k) implies {
            &&& occurs_in("('"@ + uuid_text(k) + "'::uuid, '"@ + calls@[k].0@ + "')"@, locks.0)
            &&& occurs_in(
                "('"@ + uuid_text(k) + "'::uuid, '"@ + calls@[k].1@ + "'::jsonb, '"@
                    + rfc3339_text(now.secs, now.nanos) + "'::timestamptz, '"@ + calls@[k].0@ + "')"@,
                locks.1,
            )
        } by {
            let i = lemma_row_of_user(calls@, rows@, k);
            assert(rows@[i].0 == k);
        }
    }
    q
}

} // verus!
