//! The message store: write-once rows under store-assigned ids that are
//! never reused, kept in ascending id order, with insert, fetch-all and
//! delete-by-id, and the laws those operations obey together.
use vstd::prelude::*;

use crate::message::{records, FetchedMessage, Record, StoreError};

verus! {

/// The largest id the table assigns: ids are 32-bit serial keys.
pub const MAX_ID: i64 = 2147483647;

/// The mathematical value of a message table: its rows in storage order and
/// the id that the next insert will receive.
pub ghost struct TableState {
    pub rows: Seq<Record>,
    pub next_id: int,
}

/// Ids are strictly ascending, at least 1 and below `bound`.
pub open spec fn ascending_below(rows: Seq<Record>, bound: int) -> bool {
    &&& forall|i: int| 0 <= i < rows.len() ==> 1 <= #[trigger] rows[i].id < bound
    &&& forall|i: int, j: int| 0 <= i < j < rows.len() ==> #[trigger] rows[i].id < #[trigger] rows[j].id
}

/// Whether a row survives the deletion of `id`.
pub open spec fn kept_after_delete(id: int) -> spec_fn(Record) -> bool {
    |r: Record| r.id != id
}

impl TableState {
    /// Ids are assigned from 1 upwards, never reused, and rows are kept in
    /// ascending id order.
    pub open spec fn wf(self) -> bool {
        &&& 1 <= self.next_id <= MAX_ID + 1
        &&& ascending_below(self.rows, self.next_id)
    }

    /// Whether one more id can be assigned.
    pub open spec fn has_room(self) -> bool {
        self.next_id <= MAX_ID
    }

    /// The state after a successful insert: one new row, at the end, with
    /// the next id.
    pub open spec fn inserted(self, timestamp: Seq<char>, message: Seq<char>) -> TableState {
        TableState {
            rows: self.rows.push(Record { id: self.next_id, timestamp, message }),
            next_id: self.next_id + 1,
        }
    }

    /// The state after deleting `id`: every row with that id is gone, the rest
    /// keep their order, and the id counter is untouched.
    pub open spec fn deleted(self, id: int) -> TableState {
        TableState { rows: self.rows.filter(kept_after_delete(id)), next_id: self.next_id }
    }

    /// The state after inserting each (timestamp, message) pair in turn.
    pub open spec fn inserted_all(self, items: Seq<(Seq<char>, Seq<char>)>) -> TableState
        decreases items.len(),
    {
        if items.len() == 0 {
            self
        } else {
            self.inserted_all(items.drop_last()).inserted(items.last().0, items.last().1)
        }
    }
}

/// An insert keeps the table well formed.
pub proof fn lemma_inserted_wf(s: TableState, timestamp: Seq<char>, message: Seq<char>)
    requires
        s.wf(),
        s.has_room(),
    ensures
        s.inserted(timestamp, message).wf(),
{
    let n = s.inserted(timestamp, message);
    assert forall|i: int| 0 <= i < n.rows.len() implies 1 <= #[trigger] n.rows[i].id < n.next_id by {
        if i < s.rows.len() {
            assert(n.rows[i] == s.rows[i]);
        }
    }
    assert forall|i: int, j: int|
        0 <= i < j < n.rows.len() implies #[trigger] n.rows[i].id < #[trigger] n.rows[j].id by {
        assert(n.rows[i] == s.rows[i]);
        if j < s.rows.len() {
            assert(n.rows[j] == s.rows[j]);
        }
    }
}

/// Dropping rows keeps the rest ascending and within bounds.
pub proof fn lemma_filter_ascending(rows: Seq<Record>, bound: int, p: spec_fn(Record) -> bool)
    requires
        ascending_below(rows, bound),
    ensures
        ascending_below(rows.filter(p), bound),
    decreases rows.len(),
{
    reveal(Seq::filter);
    if rows.len() > 0 {
        let init = rows.drop_last();
        assert forall|i: int| 0 <= i < init.len() implies #[trigger] init[i] == rows[i] by {}
        lemma_filter_ascending(init, bound, p);
        let f = init.filter(p);
        if p(rows.last()) {
            assert forall|k: int| 0 <= k < f.len() implies #[trigger] f[k].id < rows.last().id by {
                assert(f.contains(f[k]));
                init.lemma_filter_contains_rev(p, f[k]);
                let j = choose|j: int| 0 <= j < init.len() && init[j] == f[k];
                assert(rows[j] == init[j]);
            }
            let g = f.push(rows.last());
            assert forall|i: int, j: int| 0 <= i < j < g.len() implies #[trigger] g[i].id < #[trigger] g[j].id by {
                assert(g[i] == f[i]);
                if j < f.len() {
                    assert(g[j] == f[j]);
                }
            }
            assert forall|i: int| 0 <= i < g.len() implies 1 <= #[trigger] g[i].id < bound by {
                if i < f.len() {
                    assert(g[i] == f[i]);
                }
            }
        }
    }
}

/// A delete keeps the table well formed.
pub proof fn lemma_deleted_wf(s: TableState, id: int)
    requires
        s.wf(),
    ensures
        s.deleted(id).wf(),
{
    lemma_filter_ascending(s.rows, s.next_id, kept_after_delete(id));
}

/// An in-memory message table with store-assigned, never reused ids.
pub struct MessageTable {
    rows: Vec<FetchedMessage>,
    next_id: i64,
}

impl View for MessageTable {
    type V = TableState;

    closed spec fn view(&self) -> TableState {
        TableState { rows: records(self.rows@), next_id: self.next_id as int }
    }
}

impl MessageTable {
    /// An empty table whose first insert receives id 1.
    pub fn new() -> (t: MessageTable)
        ensures
            t@.wf(),
            t@.rows.len() == 0,
            t@.next_id == 1,
    {
        MessageTable::resuming_at(1)
    }

    /// An empty table whose id sequence has already advanced: its first
    /// insert receives `next_id`, and a table resumed past `MAX_ID` accepts
    /// no insert.
    pub fn resuming_at(next_id: i64) -> (t: MessageTable)
        requires
            1 <= next_id <= MAX_ID + 1,
        ensures
            t@.wf(),
            t@.rows.len() == 0,
            t@.next_id == next_id,
    {
        let t = MessageTable { rows: Vec::new(), next_id };
        assert(t@.rows =~= Seq::<Record>::empty());
        t
    }
}

/// Appends a message with the next id. Fails, leaving the table as it was,
/// once every id has been used.
pub fn insert_data(table: &mut MessageTable, timestamp: &str, message: &str) -> (r: Result<(), StoreError>)
    requires
        old(table)@.wf(),
    ensures
        final(table)@.wf(),
        old(table)@.has_room() ==> r is Ok && final(table)@ == old(table)@.inserted(timestamp@, message@),
        !old(table)@.has_room() ==> r is Err && r->Err_0 is IdsExhausted && final(table)@ == old(table)@,
{
    if table.next_id > MAX_ID {
        return Err(StoreError::IdsExhausted);
    }
    let row = FetchedMessage {
        id: table.next_id as i32,
        timestamp: timestamp.to_owned(),
        message: message.to_owned(),
    };
    table.rows.push(row);
    table.next_id = table.next_id + 1;
    proof {
        lemma_inserted_wf(old(table)@, timestamp@, message@);
    }
    assert(final(table)@.rows =~= old(table)@.inserted(timestamp@, message@).rows);
    Ok(())
}

/// Every stored message, in ascending id order (the order of insertion).
pub fn fetch_all(table: &MessageTable) -> (r: Vec<FetchedMessage>)
    ensures
        records(r@) == table@.rows,
        r@.len() == table@.rows.len(),
        forall|i: int| 0 <= i < r@.len() ==> (#[trigger] r@[i])@ == table@.rows[i],
{
    let mut out: Vec<FetchedMessage> = Vec::new();
    let n = table.rows.len();
    for i in 0..n
        invariant
            n == table.rows@.len(),
            out@.len() == i,
            forall|k: int| 0 <= k < i ==> (#[trigger] out@[k])@ == table.rows@[k]@,
    {
        let m = table.rows[i].duplicate();
        out.push(m);
    }
    assert(records(out@) =~= records(table.rows@));
    out
}

/// Removes the message with the given id. Succeeds whether or not such a
/// message was stored; nothing tells the two apart.
pub fn delete_mesg(table: &mut MessageTable, id: i32)
    requires
        old(table)@.wf(),
    ensures
        final(table)@.wf(),
        final(table)@ == old(table)@.deleted(id as int),
{
    let ghost all = records(table.rows@);
    let ghost p = kept_after_delete(id as int);
    let mut kept: Vec<FetchedMessage> = Vec::new();
    let n = table.rows.len();
    for i in 0..n
        invariant
            n == table.rows@.len(),
            all == records(table.rows@),
            p == kept_after_delete(id as int),
            records(kept@) == all.take(i as int).filter(p),
    {
        let ghost before = kept@;
        if table.rows[i].id != id {
            let m = table.rows[i].duplicate();
            kept.push(m);
            assert(records(kept@) =~= records(before).push(all[i as int]));
        }
        proof {
            reveal(Seq::filter);
            assert(all.take(i + 1).drop_last() =~= all.take(i as int));
        }
    }
    assert(all.take(n as int) =~= all);
    table.rows = kept;
    proof {
        lemma_deleted_wf(old(table)@, id as int);
    }
}

/// After an insert, fetching yields the rows that were there before, in the
/// same order, followed by exactly one new row that holds the timestamp and
/// text unchanged under an id that no earlier row has.
pub proof fn lemma_round_trip(s: TableState, timestamp: Seq<char>, message: Seq<char>)
    requires
        s.wf(),
        s.has_room(),
    ensures
        s.inserted(timestamp, message).wf(),
        s.inserted(timestamp, message).rows.len() == s.rows.len() + 1,
        s.inserted(timestamp, message).rows.drop_last() == s.rows,
        s.inserted(timestamp, message).rows.last().timestamp == timestamp,
        s.inserted(timestamp, message).rows.last().message == message,
        forall|i: int|
            0 <= i < s.rows.len() ==> #[trigger] s.rows[i].id != s.inserted(timestamp, message).rows.last().id,
{
    lemma_inserted_wf(s, timestamp, message);
    assert(s.inserted(timestamp, message).rows.drop_last() =~= s.rows);
}

/// A run of inserts appends one row per insert, in the order of the calls,
/// with consecutive ids, and the table stays in ascending id order.
pub proof fn lemma_insertion_order(s: TableState, items: Seq<(Seq<char>, Seq<char>)>)
    requires
        s.wf(),
        s.next_id + items.len() <= MAX_ID + 1,
    ensures
        s.inserted_all(items).wf(),
        s.inserted_all(items).next_id == s.next_id + items.len(),
        s.inserted_all(items).rows.len() == s.rows.len() + items.len(),
        s.inserted_all(items).rows.take(s.rows.len() as int) == s.rows,
        forall|i: int|
            0 <= i < items.len() ==> #[trigger] s.inserted_all(items).rows[s.rows.len() + i] == (Record {
                id: s.next_id + i,
                timestamp: items[i].0,
                message: items[i].1,
            }),
    decreases items.len(),
{
    if items.len() > 0 {
        let init = items.drop_last();
        lemma_insertion_order(s, init);
        let before = s.inserted_all(init);
        lemma_inserted_wf(before, items.last().0, items.last().1);
        let after = s.inserted_all(items);
        assert(after.rows.take(s.rows.len() as int) =~= before.rows.take(s.rows.len() as int));
        assert forall|i: int| 0 <= i < items.len() implies #[trigger] after.rows[s.rows.len() + i] == (Record {
            id: s.next_id + i,
            timestamp: items[i].0,
            message: items[i].1,
        }) by {
            if i < init.len() {
                assert(init[i] == items[i]);
                assert(after.rows[s.rows.len() + i] == before.rows[s.rows.len() + i]);
            }
        }
    } else {
        assert(s.rows.take(s.rows.len() as int) =~= s.rows);
    }
}

/// Deleting the same id a second time changes nothing.
pub proof fn lemma_delete_idempotent(s: TableState, id: int)
    ensures
        s.deleted(id).deleted(id) == s.deleted(id),
{
    lemma_filter_twice(s.rows, kept_after_delete(id));
}

/// Filtering twice by the same predicate is filtering once.
pub proof fn lemma_filter_twice(rows: Seq<Record>, p: spec_fn(Record) -> bool)
    ensures
        rows.filter(p).filter(p) == rows.filter(p),
    decreases rows.len(),
{
    reveal(Seq::filter);
    if rows.len() > 0 {
        lemma_filter_twice(rows.drop_last(), p);
        let f = rows.drop_last().filter(p);
        if p(rows.last()) {
            assert(f.push(rows.last()).drop_last() =~= f);
        }
    }
}

/// A run of inserts gives every new row an id of its own, distinct from each
/// other and from every row already stored.
pub proof fn lemma_ids_distinct(s: TableState, items: Seq<(Seq<char>, Seq<char>)>)
    requires
        s.wf(),
        s.next_id + items.len() <= MAX_ID + 1,
    ensures
        forall|i: int, j: int|
            0 <= i < j < s.inserted_all(items).rows.len() ==> #[trigger] s.inserted_all(items).rows[i].id
                != #[trigger] s.inserted_all(items).rows[j].id,
{
    lemma_insertion_order(s, items);
}

} // verus!
