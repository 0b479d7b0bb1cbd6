//! SQL statement builders and the quoting rule for SQL literals.

use vstd::prelude::*;
use crate::text::{joined, lowercase, lower_of, push_joined, push_str, views};

verus! {

/// `s` starts and ends with a single quote (and holds at least two characters).
pub open spec fn is_wrapped(s: Seq<char>) -> bool {
    s.len() >= 2 && s[0] == '\'' && s.last() == '\''
}

/// `s` with every single quote doubled.
pub open spec fn double_quotes(s: Seq<char>) -> Seq<char>
    decreases s.len(),
{
    if s.len() == 0 {
        Seq::empty()
    } else if s.last() == '\'' {
        double_quotes(s.drop_last()) + seq!['\'', '\'']
    } else {
        double_quotes(s.drop_last()).push(s.last())
    }
}

/// `s` holds no single quote.
pub open spec fn quote_free(s: Seq<char>) -> bool {
    forall|i: int| 0 <= i < s.len() ==> s[i] != '\''
}

/// The SQL literal for `s`: a wrapped value keeps its wrapping quotes and has
/// its inner quotes doubled; any other value is left as it is.
pub open spec fn escaped(s: Seq<char>) -> Seq<char> {
    if is_wrapped(s) {
        seq!['\''] + double_quotes(s.subrange(1, s.len() - 1)) + seq!['\'']
    } else {
        s
    }
}

/// Appends `s` with every single quote doubled.
pub fn push_doubled(out: &mut String, s: &str)
    ensures
        final(out)@ == old(out)@ + double_quotes(s@),
{
    let n = s.unicode_len();
    let mut i: usize = 0;
    while i < n
        invariant
            n == s@.len(),
            i <= n,
            out@ == old(out)@ + double_quotes(s@.subrange(0, i as int)),
        decreases n - i,
    {
        let c = s.get_char(i);
        assert(s@.subrange(0, i + 1).drop_last() =~= s@.subrange(0, i as int));
        if c == '\'' {
            out.push('\'');
            out.push('\'');
        } else {
            out.push(c);
        }
        assert(out@ =~= old(out)@ + double_quotes(s@.subrange(0, i + 1)));
        i = i + 1;
    }
    assert(s@.subrange(0, n as int) =~= s@);
}

/// The SQL literal of a text: wrapped in single quotes, inner quotes doubled.
pub fn quote_literal(s: &str) -> (r: String)
    ensures
        r@ == wrap(double_quotes(s@)),
{
    let mut out = String::new();
    out.push('\'');
    push_doubled(&mut out, s);
    out.push('\'');
    assert(out@ =~= wrap(double_quotes(s@)));
    out
}

/// `s` wrapped in single quotes.
pub open spec fn wrap(s: Seq<char>) -> Seq<char> {
    seq!['\''] + s + seq!['\'']
}

/// Escapes a quoted SQL literal: when `elem` is wrapped in single quotes, the
/// quotes inside are doubled; otherwise `elem` comes back unchanged.
pub fn escape_single_quote(elem: &str) -> (r: String)
    ensures
        r@ == escaped(elem@),
{
    let n = elem.unicode_len();
    if n >= 2 && elem.get_char(0) == '\'' && elem.get_char(n - 1) == '\'' {
        let mut out = String::new();
        out.push('\'');
        let ghost start = out@;
        let mut i: usize = 1;
        while i < n - 1
            invariant
                n == elem@.len(),
                n >= 2,
                1 <= i <= n - 1,
                start == seq!['\''],
                out@ == start + double_quotes(elem@.subrange(1, i as int)),
            decreases n - 1 - i,
        {
            let c = elem.get_char(i);
            assert(elem@.subrange(1, i + 1).drop_last() =~= elem@.subrange(1, i as int));
            if c == '\'' {
                out.push('\'');
                out.push('\'');
            } else {
                out.push(c);
            }
            assert(out@ =~= start + double_quotes(elem@.subrange(1, i + 1)));
            i = i + 1;
        }
        out.push('\'');
        assert(out@ =~= escaped(elem@));
        out
    } else {
        String::from_str(elem)
    }
}

proof fn lemma_double_quotes_len_ge(s: Seq<char>)
    ensures
        double_quotes(s).len() >= s.len(),
        double_quotes(s).len() == s.len() <==> quote_free(s),
    decreases s.len(),
{
    if s.len() > 0 {
        lemma_double_quotes_len_ge(s.drop_last());
        if quote_free(s) {
            assert(quote_free(s.drop_last()));
        } else {
            let i = choose|i: int| 0 <= i < s.len() && s[i] == '\'';
            if i < s.len() - 1 {
                assert(s.drop_last()[i] == '\'');
            }
        }
    }
}

proof fn lemma_quote_free_fixed(s: Seq<char>)
    requires
        quote_free(s),
    ensures
        double_quotes(s) == s,
    decreases s.len(),
{
    if s.len() > 0 {
        assert(quote_free(s.drop_last()));
        lemma_quote_free_fixed(s.drop_last());
        assert(s.drop_last().push(s.last()) =~= s);
    }
}

proof fn lemma_quote_free_doubled(s: Seq<char>)
    ensures
        quote_free(double_quotes(s)) <==> quote_free(s),
    decreases s.len(),
{
    if s.len() > 0 {
        lemma_quote_free_doubled(s.drop_last());
        let d = double_quotes(s.drop_last());
        if s.last() == '\'' {
            let e = d + seq!['\'', '\''];
            assert(e[d.len() as int] == '\'');
            assert(!quote_free(s));
        } else {
            let e = d.push(s.last());
            if quote_free(s) {
                assert(quote_free(s.drop_last()));
                assert forall|i: int| 0 <= i < e.len() implies e[i] != '\'' by {
                    if i < d.len() {
                        assert(e[i] == d[i]);
                    }
                }
            }
            if quote_free(e) {
                assert forall|i: int| 0 <= i < d.len() implies d[i] != '\'' by {
                    assert(e[i] == d[i]);
                }
                assert forall|i: int| 0 <= i < s.len() implies s[i] != '\'' by {
                    if i < s.len() - 1 {
                        assert(s[i] == s.drop_last()[i]);
                    }
                }
            }
        }
    }
}

/// Escaping a wrapped literal keeps the wrapping quotes and doubles the inner
/// ones; escaping it twice gives what escaping once gives exactly when the
/// inner text holds no quote; a value that is not wrapped is left as it is.
pub proof fn lemma_escape_round_trip(s: Seq<char>)
    ensures
        escaped(wrap(s)) == wrap(double_quotes(s)),
        (escaped(escaped(wrap(s))) == escaped(wrap(s))) <==> quote_free(s),
        !is_wrapped(s) ==> escaped(s) == s,
{
    let w = wrap(s);
    assert(w.subrange(1, w.len() - 1) =~= s);
    let d = double_quotes(s);
    let w2 = wrap(d);
    assert(w2.subrange(1, w2.len() - 1) =~= d);
    lemma_double_quotes_len_ge(s);
    lemma_double_quotes_len_ge(d);
    lemma_quote_free_doubled(s);
    if quote_free(s) {
        lemma_quote_free_fixed(s);
    }
    if escaped(escaped(w)) == escaped(w) {
        assert(wrap(double_quotes(d)) == wrap(d));
        assert(double_quotes(d) =~= wrap(double_quotes(d)).subrange(1, d.len() + 1 as int));
        assert(double_quotes(d).len() == d.len());
    }
}

/// What a `CREATE TABLE` builder holds.
pub struct CreateModel {
    pub table: Seq<char>,
    pub fields: Seq<Seq<char>>,
}

/// Builds a `CREATE TABLE` statement column by column.
pub struct CreateQueryBuilder {
    table_name: String,
    fields: Vec<String>,
}

/// The column clause `lower(name) type`.
pub open spec fn column_clause(name: Seq<char>, field_type: Seq<char>) -> Seq<char> {
    lower_of(name) + " "@ + field_type
}

/// The statement for a table and its column clauses.
pub open spec fn create_sql(m: CreateModel) -> Seq<char> {
    "CREATE TABLE "@ + m.table + "("@ + joined(m.fields, ","@) + ")"@
}

impl View for CreateQueryBuilder {
    type V = CreateModel;

    closed spec fn view(&self) -> CreateModel {
        CreateModel { table: self.table_name@, fields: views(self.fields@) }
    }
}

impl CreateQueryBuilder {
    /// A builder for the table `object_name` with no columns yet.
    pub fn new(object_name: &str) -> (r: CreateQueryBuilder)
        ensures
            r@.table == object_name@,
            r@.fields == Seq::<Seq<char>>::empty(),
    {
        let r = CreateQueryBuilder { table_name: String::from_str(object_name), fields: Vec::new() };
        assert(r@.fields =~= Seq::<Seq<char>>::empty());
        r
    }

    /// Adds the column `name` (lowercased) of type `field_type`.
    pub fn add_field(&mut self, name: &str, field_type: String)
        ensures
            final(self)@.table == old(self)@.table,
            final(self)@.fields == old(self)@.fields.push(column_clause(name@, field_type@)),
    {
        let column = lowercase(name);
        self.add_column(column.as_str(), field_type);
    }

    /// Adds the column `column`, taken as it is, of type `field_type`.
    pub fn add_column(&mut self, column: &str, field_type: String)
        ensures
            final(self)@.table == old(self)@.table,
            final(self)@.fields == old(self)@.fields.push(column@ + " "@ + field_type@),
    {
        let mut clause = String::from_str(column);
        push_str(&mut clause, " ");
        push_str(&mut clause, field_type.as_str());
        self.fields.push(clause);
        assert(views(self.fields@) =~= views(old(self).fields@).push(column@ + " "@ + field_type@));
    }

    /// `CREATE TABLE <table>(<columns joined by ,>)`.
    pub fn build(&self) -> (r: String)
        ensures
            r@ == create_sql(self@),
    {
        let mut query = String::from_str("CREATE TABLE ");
        push_str(&mut query, self.table_name.as_str());
        push_str(&mut query, "(");
        push_joined(&mut query, &self.fields, ",");
        push_str(&mut query, ")");
        query
    }
}

/// What an `UPDATE` builder holds.
pub struct UpdateModel {
    pub table: Seq<char>,
    pub fields: Seq<Seq<char>>,
    pub wheres: Seq<Seq<char>>,
}

/// Builds an `UPDATE` statement that also stamps `_s_updated`.
pub struct UpdateQueryBuilder {
    table_name: String,
    fields: Vec<String>,
    and_where: Vec<String>,
}

/// The assignment `name=<escaped value>`.
pub open spec fn assign_clause(name: Seq<char>, value: Seq<char>) -> Seq<char> {
    name + "="@ + escaped(value)
}

/// The condition `name op '<escaped value>'`.
pub open spec fn where_clause(name: Seq<char>, value: Seq<char>, op: Seq<char>) -> Seq<char> {
    name + " "@ + op + " '"@ + escaped(value) + "'"@
}

/// The stamp that every `UPDATE` ends its assignments with.
pub open spec fn updated_stamp() -> Seq<char> {
    ", _s_updated = NOW() "@
}

/// The statement for a table, its assignments and its conditions.
pub open spec fn update_sql(m: UpdateModel) -> Seq<char> {
    let head = "UPDATE "@ + m.table + " SET "@ + joined(m.fields, ","@) + updated_stamp();
    if m.wheres.len() > 0 {
        head + " WHERE "@ + joined(m.wheres, " AND "@)
    } else {
        head
    }
}

impl View for UpdateQueryBuilder {
    type V = UpdateModel;

    closed spec fn view(&self) -> UpdateModel {
        UpdateModel {
            table: self.table_name@,
            fields: views(self.fields@),
            wheres: views(self.and_where@),
        }
    }
}

impl UpdateQueryBuilder {
    /// A builder for the table `object_name` with no assignments or conditions.
    pub fn new(object_name: &str) -> (r: UpdateQueryBuilder)
        ensures
            r@.table == object_name@,
            r@.fields == Seq::<Seq<char>>::empty(),
            r@.wheres == Seq::<Seq<char>>::empty(),
    {
        let r = UpdateQueryBuilder {
            table_name: String::from_str(object_name),
            fields: Vec::new(),
            and_where: Vec::new(),
        };
        assert(r@.fields =~= Seq::<Seq<char>>::empty());
        assert(r@.wheres =~= Seq::<Seq<char>>::empty());
        r
    }

    /// Adds the assignment `name=value`, the value escaped.
    pub fn add_field(&mut self, name: &str, value: &str)
        ensures
            final(self)@.table == old(self)@.table,
            final(self)@.wheres == old(self)@.wheres,
            final(self)@.fields == old(self)@.fields.push(assign_clause(name@, value@)),
    {
        let mut clause = String::from_str(name);
        push_str(&mut clause, "=");
        let v = escape_single_quote(value);
        push_str(&mut clause, v.as_str());
        self.fields.push(clause);
        assert(views(self.fields@) =~= views(old(self).fields@).push(assign_clause(name@, value@)));
    }

    /// Adds the assignment `name=value` with a value that is SQL-ready
    /// already, taken as it is.
    pub fn add_raw_field(&mut self, name: &str, value: &str)
        ensures
            final(self)@.table == old(self)@.table,
            final(self)@.wheres == old(self)@.wheres,
            final(self)@.fields == old(self)@.fields.push(name@ + "="@ + value@),
    {
        let mut clause = String::from_str(name);
        push_str(&mut clause, "=");
        push_str(&mut clause, value);
        self.fields.push(clause);
        assert(views(self.fields@) =~= views(old(self).fields@).push(name@ + "="@ + value@));
    }

    /// Adds the condition `name operator 'value'`, the value escaped.
    pub fn add_and_where(&mut self, name: &str, value: &str, operator: &str)
        ensures
            final(self)@.table == old(self)@.table,
            final(self)@.fields == old(self)@.fields,
            final(self)@.wheres == old(self)@.wheres.push(where_clause(name@, value@, operator@)),
    {
        let mut clause = String::from_str(name);
        push_str(&mut clause, " ");
        push_str(&mut clause, operator);
        push_str(&mut clause, " '");
        let v = escape_single_quote(value);
        push_str(&mut clause, v.as_str());
        push_str(&mut clause, "'");
        self.and_where.push(clause);
        assert(views(self.and_where@) =~= views(old(self).and_where@).push(
            where_clause(name@, value@, operator@),
        ));
    }

    /// `UPDATE <t> SET <assignments>, _s_updated = NOW() [ WHERE <conditions>]`.
    pub fn build(&self) -> (r: String)
        ensures
            r@ == update_sql(self@),
    {
        let mut query = String::from_str("UPDATE ");
        push_str(&mut query, self.table_name.as_str());
        push_str(&mut query, " SET ");
        push_joined(&mut query, &self.fields, ",");
        push_str(&mut query, ", _s_updated = NOW() ");
        if self.and_where.len() > 0 {
            push_str(&mut query, " WHERE ");
            push_joined(&mut query, &self.and_where, " AND ");
        }
        query
    }
}

/// `needle` occurs in `hay` starting at `at`.
pub open spec fn occurs_at(hay: Seq<char>, needle: Seq<char>, at: int) -> bool {
    0 <= at && at + needle.len() <= hay.len() && hay.subrange(at, at + needle.len()) == needle
}

/// Every `UPDATE` holds the `_s_updated` stamp right after its assignments,
/// and holds a `WHERE` exactly when conditions were added.
pub proof fn lemma_update_sql_shape(m: UpdateModel)
    ensures
        occurs_at(
            update_sql(m),
            updated_stamp(),
            ("UPDATE "@ + m.table + " SET "@ + joined(m.fields, ","@)).len() as int,
        ),
        m.wheres.len() > 0 ==> occurs_at(
            update_sql(m),
            " WHERE "@,
            ("UPDATE "@ + m.table + " SET "@ + joined(m.fields, ","@) + updated_stamp()).len() as int,
        ),
        m.wheres.len() == 0 ==> update_sql(m) == "UPDATE "@ + m.table + " SET "@ + joined(
            m.fields,
            ","@,
        ) + updated_stamp(),
{
    let pre = "UPDATE "@ + m.table + " SET "@ + joined(m.fields, ","@);
    let head = pre + updated_stamp();
    assert(head.subrange(pre.len() as int, head.len() as int) =~= updated_stamp());
    if m.wheres.len() > 0 {
        let full = head + " WHERE "@ + joined(m.wheres, " AND "@);
        assert(full.subrange(0, head.len() as int) =~= head);
        assert(full.subrange(pre.len() as int, (pre.len() + updated_stamp().len()) as int) =~= updated_stamp());
        assert(full.subrange(head.len() as int, (head.len() + " WHERE "@.len()) as int) =~= " WHERE "@);
    }
}

/// `SELECT set_config('salesforce.<object>_lock','lock'|'', false);`
pub open spec fn lock_sql(object_name: Seq<char>, lock: bool) -> Seq<char> {
    "SELECT set_config('salesforce."@ + object_name + (if lock {
        "_lock','lock', false);"@
    } else {
        "_lock','', false);"@
    })
}

/// The statement that sets (`lock`) or clears the per-table lock flag which
/// keeps the change trigger of `object_name` quiet.
pub fn get_lock_query(object_name: &str, lock: bool) -> (r: String)
    ensures
        r@ == lock_sql(object_name@, lock),
{
    let mut q = String::from_str("SELECT set_config('salesforce.");
    push_str(&mut q, object_name);
    if lock {
        push_str(&mut q, "_lock','lock', false);");
    } else {
        push_str(&mut q, "_lock','', false);");
    }
    q
}

} // verus!
