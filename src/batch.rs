//! One page of remote records, turned into column names and SQL-ready values.

use vstd::prelude::*;
use crate::objects::Field;
use crate::query::{double_quotes, quote_literal, wrap};
use crate::text::{lower_of, lowercase, str_eq, views};

verus! {

/// A value of a remote record: a JSON string, or the JSON text of any other value.
pub enum RemoteValue {
    Text(String),
    Other(String),
}

/// One remote record: its field names and values.
pub struct RemoteRecord {
    pub cells: Vec<(String, RemoteValue)>,
}

/// One page of a remote query result.
pub struct QueryPage {
    pub records: Option<Vec<RemoteRecord>>,
    pub next_records_url: Option<String>,
    pub done: Option<bool>,
}

/// Why a page could not be read into a batch.
#[derive(PartialEq, Eq, Structural, Debug, Clone, Copy)]
pub enum BatchError {
    /// The page holds no record list.
    MissingRecords,
    /// A record has no string `Id`.
    MissingId,
}

/// The value of the first cell named `key`.
pub open spec fn lookup(cells: Seq<(String, RemoteValue)>, key: Seq<char>) -> Option<RemoteValue>
    decreases cells.len(),
{
    if cells.len() == 0 {
        None
    } else if cells[0].0@ == key {
        Some(cells[0].1)
    } else {
        lookup(cells.drop_first(), key)
    }
}

/// The SQL text of a cell, ready to be placed in a statement: strings wrapped
/// in single quotes with inner quotes doubled, other values as their JSON
/// text, a missing value as `null`.
pub open spec fn sql_value(v: Option<RemoteValue>) -> Seq<char> {
    match v {
        None => "null"@,
        Some(RemoteValue::Text(s)) => wrap(double_quotes(s@)),
        Some(RemoteValue::Other(t)) => t@,
    }
}

/// Compound address fields have no column.
pub open spec fn is_address(f: Field) -> bool {
    f.sf_type@ == "address"@
}

/// The column of a field: `sfid` for `Id`, else the lowercased name.
pub open spec fn column_of(f: Field) -> Seq<char> {
    if f.name@ == "Id"@ { "sfid"@ } else { lower_of(f.name@) }
}

/// The columns of a batch row, one per field that is not an address.
pub open spec fn row_columns(fs: Seq<Field>) -> Seq<Seq<char>>
    decreases fs.len(),
{
    if fs.len() == 0 {
        Seq::empty()
    } else if is_address(fs.last()) {
        row_columns(fs.drop_last())
    } else {
        row_columns(fs.drop_last()).push(column_of(fs.last()))
    }
}

/// The values of a batch row, one per field that is not an address.
pub open spec fn row_values(fs: Seq<Field>, cells: Seq<(String, RemoteValue)>) -> Seq<Seq<char>>
    decreases fs.len(),
{
    if fs.len() == 0 {
        Seq::empty()
    } else if is_address(fs.last()) {
        row_values(fs.drop_last(), cells)
    } else {
        row_values(fs.drop_last(), cells).push(sql_value(lookup(cells, fs.last().name@)))
    }
}

/// A batch row: remote id, columns, values.
pub type RowView = (Seq<char>, Seq<Seq<char>>, Seq<Seq<char>>);

/// The record has a string `Id`.
pub open spec fn has_id(r: RemoteRecord) -> bool {
    lookup(r.cells@, "Id"@) is Some && lookup(r.cells@, "Id"@)->Some_0 is Text
}

/// The remote id of a record that has one.
pub open spec fn id_of(r: RemoteRecord) -> Seq<char> {
    match lookup(r.cells@, "Id"@) {
        Some(RemoteValue::Text(s)) => s@,
        _ => Seq::empty(),
    }
}

/// The batch row of a record.
pub open spec fn row_of(fs: Seq<Field>, r: RemoteRecord) -> RowView {
    (id_of(r), row_columns(fs), row_values(fs, r.cells@))
}

/// Every record has a string `Id`.
pub open spec fn all_have_ids(rs: Seq<RemoteRecord>) -> bool {
    forall|i: int| 0 <= i < rs.len() ==> has_id(#[trigger] rs[i])
}

/// `rows` with `r` put in: it replaces the row of the same id, or is appended.
pub open spec fn put_row(rows: Seq<RowView>, r: RowView) -> Seq<RowView> {
    if exists|i: int| 0 <= i < rows.len() && rows[i].0 == r.0 {
        let i = choose|i: int| 0 <= i < rows.len() && rows[i].0 == r.0;
        rows.update(i, r)
    } else {
        rows.push(r)
    }
}

/// The rows of a page: one per remote id, the last record of an id winning,
/// in order of first appearance.
pub open spec fn batch_rows(fs: Seq<Field>, rs: Seq<RemoteRecord>) -> Seq<RowView>
    decreases rs.len(),
{
    if rs.len() == 0 {
        Seq::empty()
    } else {
        put_row(batch_rows(fs, rs.drop_last()), row_of(fs, rs.last()))
    }
}

/// No two rows share a remote id.
pub open spec fn ids_unique(rows: Seq<RowView>) -> bool {
    forall|i: int, j: int| 0 <= i < rows.len() && 0 <= j < rows.len() && i != j ==> rows[i].0 != rows[j].0
}

/// The view of a stored row.
pub open spec fn row_view(r: (String, (Vec<String>, Vec<String>))) -> RowView {
    (r.0@, views(r.1.0@), views(r.1.1@))
}

/// The views of stored rows.
pub open spec fn rows_view(rows: Seq<(String, (Vec<String>, Vec<String>))>) -> Seq<RowView> {
    rows.map_values(|r: (String, (Vec<String>, Vec<String>))| row_view(r))
}

/// One page of remote records, ready to be written to the mirror table.
pub struct SObjectRowResultWrapper {
    pub rows: Vec<(String, (Vec<String>, Vec<String>))>,
    pub object_name: String,
    pub next_url: String,
    pub done: bool,
}

impl SObjectRowResultWrapper {
    /// Rows have distinct ids, and each has as many values as columns.
    pub open spec fn wf(&self) -> bool {
        &&& ids_unique(rows_view(self.rows@))
        &&& forall|i: int| 0 <= i < self.rows@.len() ==> (#[trigger] self.rows@[i]).1.0@.len()
            == self.rows@[i].1.1@.len()
    }

    /// Reads a page of records of the object `name` with the described
    /// `fields`. Fails when the page has no record list or a record has no
    /// string `Id`.
    pub fn new(name: &String, fields: &Vec<Field>, page: &QueryPage) -> (r: Result<
        SObjectRowResultWrapper,
        BatchError,
    >)
        ensures
            page.records is None ==> r == Err::<SObjectRowResultWrapper, BatchError>(
                BatchError::MissingRecords,
            ),
            page.records is Some ==> (r is Err <==> !all_have_ids(page.records->Some_0@)),
            r is Err ==> r == Err::<SObjectRowResultWrapper, BatchError>(BatchError::MissingRecords)
                || r == Err::<SObjectRowResultWrapper, BatchError>(BatchError::MissingId),
            r matches Ok(w) ==> {
                &&& w.wf()
                &&& rows_view(w.rows@) == batch_rows(fields@, page.records->Some_0@)
                &&& w.object_name@ == name@
                &&& w.next_url@ == (match page.next_records_url {
                    Some(u) => u@,
                    None => Seq::empty(),
                })
                &&& w.done == (match page.done {
                    Some(d) => d,
                    None => false,
                })
            },
    {
        let records = match &page.records {
            Some(rs) => rs,
            None => return Err(BatchError::MissingRecords),
        };
        let mut rows: Vec<(String, (Vec<String>, Vec<String>))> = Vec::new();
        let mut i: usize = 0;
        while i < records.len()
            invariant
                page.records == Some(*records),
                i <= records@.len(),
                all_have_ids(records@.subrange(0, i as int)),
                rows_view(rows@) == batch_rows(fields@, records@.subrange(0, i as int)),
                ids_unique(rows_view(rows@)),
                forall|k: int| 0 <= k < rows@.len() ==> (#[trigger] rows@[k]).1.0@.len()
                    == rows@[k].1.1@.len(),
            decreases records@.len() - i,
        {
            let rec = &records[i];
            let id = match record_id(rec) {
                Some(id) => id,
                None => {
                    proof {
                        assert(!has_id(records@[i as int]));
                        assert(!all_have_ids(records@));
                    }
                    return Err(BatchError::MissingId);
                },
            };
            let cols = batch_columns(fields);
            let vals = batch_values(fields, rec);
            proof {
                lemma_columns_values_len(fields@, rec.cells@);
            }
            assert(records@.subrange(0, i + 1).drop_last() =~= records@.subrange(0, i as int));
            put_row_exec(&mut rows, id, cols, vals);
            proof {
                assert forall|k: int| 0 <= k < i + 1 implies has_id(
                    #[trigger] records@.subrange(0, i + 1)[k],
                ) by {
                    if k < i {
                        assert(records@.subrange(0, i + 1)[k] == records@.subrange(0, i as int)[k]);
                    }
                }
            }
            i = i + 1;
        }
        assert(records@.subrange(0, records@.len() as int) =~= records@);
        let next_url = match &page.next_records_url {
            Some(u) => u.clone(),
            None => String::new(),
        };
        let done = match page.done {
            Some(d) => d,
            None => false,
        };
        Ok(SObjectRowResultWrapper { rows, object_name: name.clone(), next_url, done })
    }
}

/// The value of the first cell named `key`.
pub fn lookup_cell<'a>(cells: &'a Vec<(String, RemoteValue)>, key: &str) -> (r: Option<&'a RemoteValue>)
    ensures
        match r {
            Some(v) => lookup(cells@, key@) == Some(*v),
            None => lookup(cells@, key@) is None,
        },
{
    let mut i: usize = 0;
    assert(cells@.subrange(0, cells@.len() as int) =~= cells@);
    while i < cells.len()
        invariant
            i <= cells@.len(),
            lookup(cells@, key@) == lookup(cells@.subrange(i as int, cells@.len() as int), key@),
        decreases cells@.len() - i,
    {
        let sub = Ghost(cells@.subrange(i as int, cells@.len() as int));
        assert(sub@[0] == cells@[i as int]);
        if str_eq(cells[i].0.as_str(), key) {
            return Some(&cells[i].1);
        }
        assert(sub@.drop_first() =~= cells@.subrange(i + 1, cells@.len() as int));
        i = i + 1;
    }
    None
}

fn record_id(rec: &RemoteRecord) -> (r: Option<String>)
    ensures
        r is Some <==> has_id(*rec),
        r matches Some(id) ==> id@ == id_of(*rec),
{
    match lookup_cell(&rec.cells, "Id") {
        Some(RemoteValue::Text(s)) => Some(s.clone()),
        _ => None,
    }
}

fn batch_columns(fields: &Vec<Field>) -> (r: Vec<String>)
    ensures
        views(r@) == row_columns(fields@),
{
    let mut out: Vec<String> = Vec::new();
    let mut i: usize = 0;
    while i < fields.len()
        invariant
            i <= fields@.len(),
            views(out@) == row_columns(fields@.subrange(0, i as int)),
        decreases fields@.len() - i,
    {
        let f = &fields[i];
        assert(fields@.subrange(0, i + 1).drop_last() =~= fields@.subrange(0, i as int));
        if !str_eq(f.sf_type.as_str(), "address") {
            if str_eq(f.name.as_str(), "Id") {
                out.push(String::from_str("sfid"));
            } else {
                out.push(lowercase(f.name.as_str()));
            }
            assert(views(out@) =~= row_columns(fields@.subrange(0, i + 1)));
        }
        i = i + 1;
    }
    assert(fields@.subrange(0, fields@.len() as int) =~= fields@);
    out
}

fn cell_sql(v: Option<&RemoteValue>) -> (r: String)
    ensures
        r@ == sql_value(
            match v {
                Some(x) => Some(*x),
                None => None,
            },
        ),
{
    match v {
        None => String::from_str("null"),
        Some(RemoteValue::Text(s)) => quote_literal(s.as_str()),
        Some(RemoteValue::Other(t)) => t.clone(),
    }
}

fn batch_values(fields: &Vec<Field>, rec: &RemoteRecord) -> (r: Vec<String>)
    ensures
        views(r@) == row_values(fields@, rec.cells@),
{
    let mut out: Vec<String> = Vec::new();
    let mut i: usize = 0;
    while i < fields.len()
        invariant
            i <= fields@.len(),
            views(out@) == row_values(fields@.subrange(0, i as int), rec.cells@),
        decreases fields@.len() - i,
    {
        let f = &fields[i];
        assert(fields@.subrange(0, i + 1).drop_last() =~= fields@.subrange(0, i as int));
        if !str_eq(f.sf_type.as_str(), "address") {
            let v = cell_sql(lookup_cell(&rec.cells, f.name.as_str()));
            out.push(v);
            assert(views(out@) =~= row_values(fields@.subrange(0, i + 1), rec.cells@));
        }
        i = i + 1;
    }
    assert(fields@.subrange(0, fields@.len() as int) =~= fields@);
    out
}

proof fn lemma_columns_values_len(fs: Seq<Field>, cells: Seq<(String, RemoteValue)>)
    ensures
        row_columns(fs).len() == row_values(fs, cells).len(),
    decreases fs.len(),
{
    if fs.len() > 0 {
        lemma_columns_values_len(fs.drop_last(), cells);
    }
}

fn put_row_exec(
    rows: &mut Vec<(String, (Vec<String>, Vec<String>))>,
    id: String,
    cols: Vec<String>,
    vals: Vec<String>,
)
    requires
        ids_unique(rows_view(old(rows)@)),
        cols@.len() == vals@.len(),
        forall|k: int| 0 <= k < old(rows)@.len() ==> (#[trigger] old(rows)@[k]).1.0@.len()
            == old(rows)@[k].1.1@.len(),
    ensures
        rows_view(final(rows)@) == put_row(rows_view(old(rows)@), (id@, views(cols@), views(vals@))),
        ids_unique(rows_view(final(rows)@)),
        forall|k: int| 0 <= k < final(rows)@.len() ==> (#[trigger] final(rows)@[k]).1.0@.len()
            == final(rows)@[k].1.1@.len(),
{
    let ghost old_view = rows_view(rows@);
    let ghost new_row: RowView = (id@, views(cols@), views(vals@));
    let mut i: usize = 0;
    while i < rows.len()
        invariant
            i <= rows@.len(),
            rows@ == old(rows)@,
            old_view == rows_view(rows@),
            new_row == (id@, views(cols@), views(vals@)),
            ids_unique(old_view),
            cols@.len() == vals@.len(),
            forall|k: int| 0 <= k < rows@.len() ==> (#[trigger] rows@[k]).1.0@.len()
                == rows@[k].1.1@.len(),
            forall|k: int| 0 <= k < i ==> (#[trigger] old_view[k]).0 != id@,
        decreases rows@.len() - i,
    {
        if str_eq(rows[i].0.as_str(), id.as_str()) {
            let ghost idx = i as int;
            assert(old_view[idx] == row_view(rows@[idx]));
            assert(old_view[idx].0 == new_row.0);
            proof {
                let c = choose|j: int| 0 <= j < old_view.len() && old_view[j].0 == new_row.0;
                if c != idx {
                    assert(old_view[c].0 != old_view[idx].0);
                }
            }
            rows.set(i, (id, (cols, vals)));
            assert(rows_view(rows@) =~= old_view.update(idx, new_row));
            assert forall|a: int, b: int|
                0 <= a < rows@.len() && 0 <= b < rows@.len() && a != b implies rows_view(rows@)[a].0
                != rows_view(rows@)[b].0 by {
                assert(old_view[a].0 != old_view[b].0);
            }
            return;
        }
        i = i + 1;
    }
    rows.push((id, (cols, vals)));
    assert(rows_view(rows@) =~= old_view.push(new_row));
    assert forall|a: int, b: int|
        0 <= a < rows@.len() && 0 <= b < rows@.len() && a != b implies rows_view(rows@)[a].0
        != rows_view(rows@)[b].0 by {
        if a < old_view.len() && b < old_view.len() {
            assert(old_view[a].0 != old_view[b].0);
        }
    }
}

} // verus!
