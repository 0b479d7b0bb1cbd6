//! Writing a batch row to its mirror table: update the row of the same
//! remote id, and insert it only when no row was updated.

use vstd::prelude::*;
use crate::query::{escaped, update_sql, UpdateModel};
use crate::sql::{insert_query, insert_sql, row_assignments, table_of, update_row_query};
use crate::text::views;

verus! {

/// The two statements of an upsert: the update of the row with remote id
/// `id`, and the insert that runs when the update touched no row.
pub fn upsert_statements(id: &str, object_name: &str, cols: &Vec<String>, vals: &Vec<String>) -> (r: (String, String))
    requires
        cols@.len() == vals@.len(),
    ensures
        r.0@ == update_sql(
            UpdateModel {
                table: table_of(object_name@),
                fields: row_assignments(views(cols@), views(vals@)),
                wheres: seq!["sfid"@ + " "@ + "="@ + " '"@ + escaped(id@) + "'"@],
            },
        ),
        r.1@ == insert_sql(object_name@, views(cols@), views(vals@)),
{
    (update_row_query(id, object_name, cols, vals), insert_query(object_name, cols, vals))
}

/// The rows an upsert of a batch has touched so far, and whether the insert
/// of the current row is due.
#[derive(PartialEq, Eq, Structural, Debug, Clone, Copy)]
pub struct UpsertTally {
    pub total: u64,
    pub insert_due: bool,
}

/// `a + b`, saturating at the largest `u64`.
pub open spec fn add_sat(a: u64, b: u64) -> u64 {
    if a + b > u64::MAX { u64::MAX } else { (a + b) as u64 }
}

/// The tally after the update of a row touched `affected` rows: none means the
/// row is new and its insert is due; otherwise the rows count.
pub open spec fn after_update_of(t: UpsertTally, affected: u64) -> UpsertTally {
    if affected == 0 {
        UpsertTally { total: t.total, insert_due: true }
    } else {
        UpsertTally { total: add_sat(t.total, affected), insert_due: false }
    }
}

/// The tally after the insert of a row touched `affected` rows.
pub open spec fn after_insert_of(t: UpsertTally, affected: u64) -> UpsertTally {
    UpsertTally { total: add_sat(t.total, affected), insert_due: false }
}

impl UpsertTally {
    /// Nothing written yet.
    pub fn new() -> (r: UpsertTally)
        ensures
            r == (UpsertTally { total: 0, insert_due: false }),
    {
        UpsertTally { total: 0, insert_due: false }
    }

    /// Takes the count of the update of a row; says whether to run its insert.
    pub fn after_update(&mut self, affected: u64) -> (insert: bool)
        ensures
            *final(self) == after_update_of(*old(self), affected),
            insert == (affected == 0),
    {
        if affected == 0 {
            self.insert_due = true;
        } else {
            self.total = if affected > u64::MAX - self.total { u64::MAX } else { self.total + affected };
            self.insert_due = false;
        }
        affected == 0
    }

    /// Takes the count of the insert of a row.
    pub fn after_insert(&mut self, affected: u64)
        ensures
            *final(self) == after_insert_of(*old(self), affected),
    {
        self.total = if affected > u64::MAX - self.total { u64::MAX } else { self.total + affected };
        self.insert_due = false;
    }
}

/// Upserting one row counts one: a row whose remote id is mirrored already is
/// updated (one row touched) and not inserted; a new one is inserted after
/// an update that touched nothing (one row inserted).
pub proof fn lemma_upsert_counts_one(t: UpsertTally)
    requires
        t.total < u64::MAX,
    ensures
        after_update_of(t, 1).total == t.total + 1,
        !after_update_of(t, 1).insert_due,
        after_update_of(t, 0).insert_due,
        after_insert_of(after_update_of(t, 0), 1).total == t.total + 1,
        !after_insert_of(after_update_of(t, 0), 1).insert_due,
{
}

} // verus!
