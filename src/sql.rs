//! The statements that provision, fill and read the mirror tables.

use vstd::prelude::*;
use crate::mapping::{column_type, sf_type_mapping};
use crate::objects::Field;
use crate::query::{
    column_clause, create_sql, escaped, get_lock_query, lock_sql, update_sql,
    wrap, CreateModel, CreateQueryBuilder, UpdateModel, UpdateQueryBuilder,
};
use crate::text::{
    joined, lowercase, lower_of, push_joined, push_signed_decimal, push_str, signed_decimal,
    str_eq, views,
};

verus! {

/// The qualified name of the mirror table of `object_name`.
pub open spec fn table_of(object_name: Seq<char>) -> Seq<char> {
    "salesforce."@ + object_name
}

fn table_name(object_name: &str) -> (r: String)
    ensures
        r@ == table_of(object_name@),
{
    let mut t = String::from_str("salesforce.");
    push_str(&mut t, object_name);
    t
}

/// A remote field that gets a column of its own: not `Id`, not an address.
pub open spec fn is_mirror_field(f: Field) -> bool {
    f.name@ != "Id"@ && f.sf_type@ != "address"@
}

/// The column clauses of the mirrored remote fields, in order.
pub open spec fn mirror_columns(fs: Seq<Field>) -> Seq<Seq<char>>
    decreases fs.len(),
{
    if fs.len() == 0 {
        Seq::empty()
    } else if is_mirror_field(fs.last()) {
        mirror_columns(fs.drop_last()).push(
            column_clause(fs.last().name@, column_type(fs.last().sf_type@, fs.last().length as nat)),
        )
    } else {
        mirror_columns(fs.drop_last())
    }
}

/// The bookkeeping columns that follow the mirrored ones.
pub open spec fn trailing_columns() -> Seq<Seq<char>> {
    seq![
        column_clause("_s_error"@, "TEXT"@),
        column_clause("_s_state"@, "varchar(20) DEFAULT 'OK'"@),
        column_clause("_s_created"@, "TIMESTAMP DEFAULT NOW()"@),
        column_clause("_s_updated"@, "TIMESTAMP"@),
    ]
}

/// The full column list of a mirror table.
pub open spec fn mirror_table_columns(fs: Seq<Field>) -> Seq<Seq<char>> {
    seq![column_clause("id"@, "SERIAL PRIMARY KEY"@), column_clause("sfid"@, "varchar(18)"@)]
        + mirror_columns(fs) + trailing_columns()
}

/// `CREATE TABLE salesforce.<object>(...)` with the surrogate key, the remote
/// id, one column per mirrored field and the bookkeeping columns.
pub fn create_table_query(object_name: &str, fields: &Vec<Field>) -> (r: String)
    ensures
        r@ == create_sql(
            CreateModel { table: table_of(object_name@), fields: mirror_table_columns(fields@) },
        ),
{
    let table = table_name(object_name);
    let mut b = CreateQueryBuilder::new(table.as_str());
    b.add_field("id", String::from_str("SERIAL PRIMARY KEY"));
    b.add_field("sfid", String::from_str("varchar(18)"));
    let ghost head = b@.fields;
    let mut i: usize = 0;
    while i < fields.len()
        invariant
            i <= fields@.len(),
            b@.table == table_of(object_name@),
            b@.fields == head + mirror_columns(fields@.subrange(0, i as int)),
        decreases fields@.len() - i,
    {
        let f = &fields[i];
        assert(fields@.subrange(0, i + 1).drop_last() =~= fields@.subrange(0, i as int));
        if !str_eq(f.name.as_str(), "Id") && !str_eq(f.sf_type.as_str(), "address") {
            let mapped = sf_type_mapping(&f.sf_type, f.length);
            let ty = match mapped {
                Ok(t) => t,
                Err(t) => t,
            };
            b.add_field(f.name.as_str(), ty);
            assert(b@.fields =~= head + mirror_columns(fields@.subrange(0, i + 1)));
        }
        i = i + 1;
    }
    assert(fields@.subrange(0, fields@.len() as int) =~= fields@);
    b.add_field("_s_error", String::from_str("TEXT"));
    b.add_field("_s_state", String::from_str("varchar(20) DEFAULT 'OK'"));
    b.add_field("_s_created", String::from_str("TIMESTAMP DEFAULT NOW()"));
    b.add_field("_s_updated", String::from_str("TIMESTAMP"));
    assert(b@.fields =~= mirror_table_columns(fields@));
    b.build()
}

/// The trigger that reports row changes of a mirror table.
pub open spec fn trigger_sql(object_name: Seq<char>) -> Seq<char> {
    "CREATE TRIGGER "@ + object_name + "_notify AFTER INSERT OR UPDATE ON salesforce."@
        + object_name + " FOR EACH ROW EXECUTE PROCEDURE salesforce.notify_change();"@
}

/// Installs the change trigger on the mirror table of `object_name`.
pub fn trigger_query(object_name: &str) -> (r: String)
    ensures
        r@ == trigger_sql(object_name@),
{
    let mut q = String::from_str("CREATE TRIGGER ");
    push_str(&mut q, object_name);
    push_str(&mut q, "_notify AFTER INSERT OR UPDATE ON salesforce.");
    push_str(&mut q, object_name);
    push_str(&mut q, " FOR EACH ROW EXECUTE PROCEDURE salesforce.notify_change();");
    q
}

/// `INSERT INTO salesforce.<object> (<columns>) VALUES (<values>);`
pub open spec fn insert_sql(object_name: Seq<char>, cols: Seq<Seq<char>>, vals: Seq<Seq<char>>) -> Seq<char> {
    "INSERT INTO salesforce."@ + object_name + " ("@ + joined(cols, ","@) + ") VALUES ("@
        + joined(vals, ","@) + ");"@
}

/// Inserts one batch row into the mirror table of `object_name`. The values
/// of a batch row are SQL-ready already and are placed as they are.
pub fn insert_query(object_name: &str, cols: &Vec<String>, vals: &Vec<String>) -> (r: String)
    ensures
        r@ == insert_sql(object_name@, views(cols@), views(vals@)),
{
    let mut q = String::from_str("INSERT INTO salesforce.");
    push_str(&mut q, object_name);
    push_str(&mut q, " (");
    push_joined(&mut q, cols, ",");
    push_str(&mut q, ") VALUES (");
    push_joined(&mut q, vals, ",");
    push_str(&mut q, ");");
    q
}

/// The assignments `col=value` of a batch row, pairwise.
pub open spec fn row_assignments(cols: Seq<Seq<char>>, vals: Seq<Seq<char>>) -> Seq<Seq<char>>
    decreases cols.len(),
{
    if cols.len() == 0 || vals.len() < cols.len() {
        Seq::empty()
    } else {
        row_assignments(cols.drop_last(), vals.subrange(0, cols.len() - 1)).push(
            cols.last() + "="@ + vals[cols.len() - 1],
        )
    }
}

/// Updates the row of remote id `id` in the mirror table of `object_name`
/// with the columns and values of a batch row; the values are SQL-ready
/// already and are placed as they are.
pub fn update_row_query(id: &str, object_name: &str, cols: &Vec<String>, vals: &Vec<String>) -> (r: String)
    requires
        cols@.len() == vals@.len(),
    ensures
        r@ == update_sql(
            UpdateModel {
                table: table_of(object_name@),
                fields: row_assignments(views(cols@), views(vals@)),
                wheres: seq!["sfid"@ + " "@ + "="@ + " '"@ + escaped(id@) + "'"@],
            },
        ),
{
    let table = table_name(object_name);
    let mut b = UpdateQueryBuilder::new(table.as_str());
    let mut i: usize = 0;
    while i < cols.len()
        invariant
            i <= cols@.len(),
            cols@.len() == vals@.len(),
            b@.table == table_of(object_name@),
            b@.wheres == Seq::<Seq<char>>::empty(),
            b@.fields == row_assignments(views(cols@.subrange(0, i as int)), views(vals@.subrange(0, i as int))),
        decreases cols@.len() - i,
    {
        b.add_raw_field(cols[i].as_str(), vals[i].as_str());
        assert(views(cols@.subrange(0, i + 1)).drop_last() =~= views(cols@.subrange(0, i as int)));
        assert(views(vals@.subrange(0, i + 1)).subrange(0, i as int) =~= views(vals@.subrange(0, i as int)));
        assert(b@.fields =~= row_assignments(views(cols@.subrange(0, i + 1)), views(vals@.subrange(0, i + 1))));
        i = i + 1;
    }
    assert(cols@.subrange(0, cols@.len() as int) =~= cols@);
    assert(vals@.subrange(0, vals@.len() as int) =~= vals@);
    b.add_and_where("sfid", id, "=");
    assert(b@.wheres =~= seq!["sfid"@ + " "@ + "="@ + " '"@ + escaped(id@) + "'"@]);
    b.build()
}

/// The condition `id = '<id>'` on the surrogate key.
pub open spec fn id_condition(id: i32) -> Seq<Seq<char>> {
    seq!["id"@ + " "@ + "="@ + " '"@ + escaped(signed_decimal(id as int)) + "'"@]
}

fn decimal_string(n: i32) -> (r: String)
    ensures
        r@ == signed_decimal(n as int),
{
    let mut s = String::new();
    push_signed_decimal(&mut s, n as i64);
    assert(s@ =~= signed_decimal(n as int));
    s
}

fn wrapped(s: &str) -> (r: String)
    ensures
        r@ == wrap(s@),
{
    let mut out = String::new();
    out.push('\'');
    push_str(&mut out, s);
    out.push('\'');
    assert(out@ =~= wrap(s@));
    out
}

/// Marks the row `id` of the mirror table of `object_name` as failed, with
/// the error text.
pub fn error_state_query(object_name: &str, id: i32, error: &str) -> (r: String)
    ensures
        r@ == update_sql(
            UpdateModel {
                table: table_of(object_name@),
                fields: seq![
                    "_s_error"@ + "="@ + escaped(wrap(error@)),
                    "_s_state"@ + "="@ + escaped("'ERROR'"@),
                ],
                wheres: id_condition(id),
            },
        ),
{
    let table = table_name(object_name);
    let mut b = UpdateQueryBuilder::new(table.as_str());
    let e = wrapped(error);
    b.add_field("_s_error", e.as_str());
    b.add_field("_s_state", "'ERROR'");
    let id_str = decimal_string(id);
    b.add_and_where("id", id_str.as_str(), "=");
    assert(b@.fields =~= seq![
        "_s_error"@ + "="@ + escaped(wrap(error@)),
        "_s_state"@ + "="@ + escaped("'ERROR'"@),
    ]);
    assert(b@.wheres =~= id_condition(id));
    b.build()
}

/// Writes back the remote id `sfid` of the row `id` after it was created remotely.
pub fn remote_id_query(object_name: &str, id: i32, sfid: &str) -> (r: String)
    ensures
        r@ == update_sql(
            UpdateModel {
                table: table_of(object_name@),
                fields: seq!["sfid"@ + "="@ + escaped(wrap(sfid@))],
                wheres: id_condition(id),
            },
        ),
{
    let table = table_name(object_name);
    let mut b = UpdateQueryBuilder::new(table.as_str());
    let v = wrapped(sfid);
    b.add_field("sfid", v.as_str());
    let id_str = decimal_string(id);
    b.add_and_where("id", id_str.as_str(), "=");
    assert(b@.fields =~= seq!["sfid"@ + "="@ + escaped(wrap(sfid@))]);
    assert(b@.wheres =~= id_condition(id));
    b.build()
}

/// The decimal notations of the ids.
pub open spec fn id_texts(ids: Seq<i32>) -> Seq<Seq<char>>
    decreases ids.len(),
{
    if ids.len() == 0 {
        Seq::empty()
    } else {
        id_texts(ids.drop_last()).push(signed_decimal(ids.last() as int))
    }
}

/// `SELECT id, sfid, <columns> FROM salesforce.<object>`, restricted to the
/// ids; with no ids it matches no row.
pub open spec fn select_rows_sql(object_name: Seq<char>, columns: Seq<Seq<char>>, ids: Seq<i32>) -> Seq<char> {
    let head = "SELECT id, sfid, "@ + joined(columns, ","@) + " FROM salesforce."@ + object_name;
    if ids.len() > 0 {
        head + " WHERE id IN("@ + joined(id_texts(ids), ","@) + ")"@
    } else {
        head + " WHERE false"@
    }
}

/// Reads the rows `ids` of the mirror table of `object_name`: the key, the
/// remote id and the given columns.
pub fn select_rows_query(object_name: &str, columns: &Vec<String>, ids: &Vec<i32>) -> (r: String)
    ensures
        r@ == select_rows_sql(object_name@, views(columns@), ids@),
{
    let mut q = String::from_str("SELECT id, sfid, ");
    push_joined(&mut q, columns, ",");
    push_str(&mut q, " FROM salesforce.");
    push_str(&mut q, object_name);
    if ids.len() > 0 {
        let mut texts: Vec<String> = Vec::new();
        let mut i: usize = 0;
        while i < ids.len()
            invariant
                i <= ids@.len(),
                views(texts@) == id_texts(ids@.subrange(0, i as int)),
            decreases ids@.len() - i,
        {
            assert(ids@.subrange(0, i + 1).drop_last() =~= ids@.subrange(0, i as int));
            texts.push(decimal_string(ids[i]));
            assert(views(texts@) =~= id_texts(ids@.subrange(0, i + 1)));
            i = i + 1;
        }
        assert(ids@.subrange(0, ids@.len() as int) =~= ids@);
        push_str(&mut q, " WHERE id IN(");
        push_joined(&mut q, &texts, ",");
        push_str(&mut q, ")");
    } else {
        push_str(&mut q, " WHERE false");
    }
    q
}

/// The three statements of a write to a mirror table, on one connection: set
/// the table's lock flag, the write, clear the flag. While the flag is set the
/// table's change trigger stays quiet.
pub fn with_lock(query: String, object_name: &str) -> (r: Vec<String>)
    ensures
        r@.len() == 3,
        r@[0]@ == lock_sql(object_name@, true),
        r@[1]@ == query@,
        r@[2]@ == lock_sql(object_name@, false),
{
    let mut v: Vec<String> = Vec::new();
    v.push(get_lock_query(object_name, true));
    v.push(query);
    v.push(get_lock_query(object_name, false));
    v
}

/// The lock flag of table `t` after a statement runs on the session: the
/// statements of `get_lock_query` set and clear it; any other leaves it.
pub open spec fn flag_after(flag: bool, stmt: Seq<char>, t: Seq<char>) -> bool {
    if stmt == lock_sql(t, true) {
        true
    } else if stmt == lock_sql(t, false) {
        false
    } else {
        flag
    }
}

/// Run on one session, the statements of `with_lock` execute the write while
/// the table's flag is set, whatever it was before, so its change trigger
/// reports nothing for that write; afterwards the flag is clear again, so
/// changes made by others are reported.
pub proof fn lemma_write_is_silenced(query: Seq<char>, t: Seq<char>, flag0: bool)
    requires
        query != lock_sql(t, false),
    ensures
        ({
            let during = flag_after(flag0, lock_sql(t, true), t);
            &&& during
            &&& flag_after(during, query, t)
            &&& !flag_after(flag_after(during, query, t), lock_sql(t, false), t)
        }),
{
    reveal_strlit("_lock','lock', false);");
    reveal_strlit("_lock','', false);");
    let a = lock_sql(t, true);
    let b = lock_sql(t, false);
    assert(a.len() != b.len());
    assert(a != b);
}

/// Drops the mirror table of `object_name`.
pub fn drop_table_query(object_name: &str) -> (r: String)
    ensures
        r@ == "DROP TABLE salesforce."@ + lower_of(object_name@),
{
    let l = lowercase(object_name);
    drop_local_table_query(l.as_str())
}

/// Drops the mirror table whose local (lowercased) name is `local_name`.
pub fn drop_local_table_query(local_name: &str) -> (r: String)
    ensures
        r@ == "DROP TABLE salesforce."@ + local_name@,
{
    let mut q = String::from_str("DROP TABLE salesforce.");
    push_str(&mut q, local_name);
    q
}

/// Deletes the stored configuration `id`.
pub fn delete_config_query(id: i32) -> (r: String)
    ensures
        r@ == "DELETE FROM config.objects where id = "@ + signed_decimal(id as int),
{
    let mut q = String::from_str("DELETE FROM config.objects where id = ");
    push_signed_decimal(&mut q, id as i64);
    q
}

/// Counts the rows of the mirror table of `object_name`.
pub fn count_query(object_name: &str) -> (r: String)
    ensures
        r@ == "SELECT count(*)::int FROM salesforce.\""@ + lower_of(object_name@) + "\""@,
{
    let l = lowercase(object_name);
    count_local_query(l.as_str())
}

/// Counts the rows of the mirror table whose local (lowercased) name is
/// `local_name`.
pub fn count_local_query(local_name: &str) -> (r: String)
    ensures
        r@ == "SELECT count(*)::int FROM salesforce.\""@ + local_name@ + "\""@,
{
    let mut q = String::from_str("SELECT count(*)::int FROM salesforce.\"");
    push_str(&mut q, local_name);
    push_str(&mut q, "\"");
    q
}

/// The configurations not synced within the last `interval` minutes.
pub fn selected_objects_query(interval: i16) -> (r: String)
    ensures
        r@ == "SELECT id, name, fields, last_sync_time FROM config.objects WHERE last_sync_time < current_timestamp - interval '"@
            + signed_decimal(interval as int) + " minutes'"@,
{
    let mut q = String::from_str(
        "SELECT id, name, fields, last_sync_time FROM config.objects WHERE last_sync_time < current_timestamp - interval '",
    );
    push_signed_decimal(&mut q, interval as i64);
    push_str(&mut q, " minutes'");
    q
}

} // verus!
