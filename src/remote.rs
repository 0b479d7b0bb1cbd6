//! Addresses and queries of the remote REST service, and what the egress
//! worker writes back after pushing rows to it.

use vstd::prelude::*;
use crate::query::{escaped, update_sql, wrap, UpdateModel};
use crate::sql::{error_state_query, id_condition, remote_id_query, table_of};
use crate::text::{joined, push_joined, push_str, views};

verus! {

/// `<instance>/services/data/<version>`
pub open spec fn api_root(instance: Seq<char>, version: Seq<char>) -> Seq<char> {
    instance + "/services/data/"@ + version
}

fn push_api_root(s: &mut String, instance: &str, version: &str)
    ensures
        final(s)@ == old(s)@ + api_root(instance@, version@),
{
    push_str(s, instance);
    push_str(s, "/services/data/");
    push_str(s, version);
}

/// The catalog of object types.
pub fn objects_url(instance: &str, version: &str) -> (r: String)
    ensures
        r@ == api_root(instance@, version@) + "/sobjects"@,
{
    let mut s = String::new();
    push_api_root(&mut s, instance, version);
    push_str(&mut s, "/sobjects");
    assert(s@ =~= api_root(instance@, version@) + "/sobjects"@);
    s
}

/// The describe document of `object_name`.
pub fn describe_url(instance: &str, version: &str, object_name: &str) -> (r: String)
    ensures
        r@ == api_root(instance@, version@) + "/sobjects/"@ + object_name@ + "/describe"@,
{
    let mut s = String::new();
    push_api_root(&mut s, instance, version);
    push_str(&mut s, "/sobjects/");
    push_str(&mut s, object_name);
    push_str(&mut s, "/describe");
    assert(s@ =~= api_root(instance@, version@) + "/sobjects/"@ + object_name@ + "/describe"@);
    s
}

/// A query.
pub fn query_url(instance: &str, version: &str, query: &str) -> (r: String)
    ensures
        r@ == api_root(instance@, version@) + "/query/?q="@ + query@,
{
    let mut s = String::new();
    push_api_root(&mut s, instance, version);
    push_str(&mut s, "/query/?q=");
    push_str(&mut s, query);
    assert(s@ =~= api_root(instance@, version@) + "/query/?q="@ + query@);
    s
}

/// The next page of a query, from the relative address the previous page gave.
pub fn next_page_url(instance: &str, next_url: &str) -> (r: String)
    ensures
        r@ == instance@ + next_url@,
{
    let mut s = String::from_str(instance);
    push_str(&mut s, next_url);
    s
}

/// How a row is pushed: an update of the remote record it mirrors, or a create.
#[derive(PartialEq, Eq, Structural, Debug, Clone, Copy)]
pub enum PushMethod {
    Patch,
    Post,
}

/// The address a row is pushed to: the remote record when the row has a
/// remote id, else the object type's collection.
pub open spec fn resource_url_of(instance: Seq<char>, version: Seq<char>, object_type: Seq<char>, sfid: Option<Seq<char>>) -> Seq<char> {
    let base = api_root(instance, version) + "/sobjects/"@ + object_type;
    match sfid {
        Some(id) => base + "/"@ + id,
        None => base,
    }
}

/// Where and how a row with remote id `sfid` is pushed: PATCH to the record
/// when it has one, else POST to the collection.
pub fn push_target(instance: &str, version: &str, object_type: &str, sfid: &Option<String>) -> (r: (PushMethod, String))
    ensures
        r.0 == (if sfid is Some { PushMethod::Patch } else { PushMethod::Post }),
        r.1@ == resource_url_of(
            instance@,
            version@,
            object_type@,
            match sfid {
                Some(s) => Some(s@),
                None => None,
            },
        ),
{
    let mut s = String::new();
    push_api_root(&mut s, instance, version);
    push_str(&mut s, "/sobjects/");
    push_str(&mut s, object_type);
    match sfid {
        Some(id) => {
            push_str(&mut s, "/");
            push_str(&mut s, id.as_str());
            assert(s@ =~= api_root(instance@, version@) + "/sobjects/"@ + object_type@ + "/"@ + id@);
            (PushMethod::Patch, s)
        },
        None => {
            assert(s@ =~= api_root(instance@, version@) + "/sobjects/"@ + object_type@);
            (PushMethod::Post, s)
        },
    }
}

/// `SELECT+<fields>+FROM+<object>`
pub open spec fn select_soql(fields: Seq<Seq<char>>, object_name: Seq<char>) -> Seq<char> {
    "SELECT+"@ + joined(fields, ","@) + "+FROM+"@ + object_name
}

/// The query for every record of `object_name`, with the given fields.
pub fn records_query(fields: &Vec<String>, object_name: &str) -> (r: String)
    ensures
        r@ == select_soql(views(fields@), object_name@),
{
    let mut q = String::from_str("SELECT+");
    push_joined(&mut q, fields, ",");
    push_str(&mut q, "+FROM+");
    push_str(&mut q, object_name);
    q
}

/// The query for the records of `object_name` modified after `since`.
pub open spec fn delta_soql(fields: Seq<Seq<char>>, object_name: Seq<char>, since: Seq<char>) -> Seq<char> {
    select_soql(fields, object_name) + "+WHERE+lastmodifieddate>"@ + since
}

/// The query for the records of `object_name` modified after the instant
/// written `since`.
pub fn delta_query(fields: &Vec<String>, object_name: &str, since: &str) -> (r: String)
    ensures
        r@ == delta_soql(views(fields@), object_name@, since@),
{
    let mut q = records_query(fields, object_name);
    push_str(&mut q, "+WHERE+lastmodifieddate>");
    push_str(&mut q, since);
    q
}

/// The instant `secs` seconds after the Unix epoch, written
/// `YYYY-MM-DDTHH:MM:SSZ` in UTC.
pub uninterp spec fn iso_utc_of(secs: int) -> Seq<char>;

/// The last second of the year 9999.
pub const LAST_WRITABLE_SECS: i64 = 253402300799;

/// Relies on chrono's `DateTime::<Utc>::from_timestamp`, which is `None` only
/// when the day count leaves chrono's date range (far wider than years 1970
/// to 9999), and on `format("%Y-%m-%dT%H:%M:%SZ")`.
#[verifier::external_body]
fn format_utc(secs: i64) -> (r: Option<String>)
    ensures
        r matches Some(s) ==> s@ == iso_utc_of(secs as int),
        0 <= secs <= LAST_WRITABLE_SECS ==> r is Some,
{
    match chrono::DateTime::<chrono::Utc>::from_timestamp(secs, 0) {
        Some(d) => Some(d.format("%Y-%m-%dT%H:%M:%SZ").to_string()),
        None => None,
    }
}

/// How far back, in seconds, an ingress pull looks.
pub const DELTA_WINDOW_SECS: i64 = 60;

/// The ingress query at the instant `now_secs`: the records modified within
/// the last minute. `None` only when that instant cannot be written; it is
/// always written for instants from the epoch to the end of the year 9999.
pub fn ingress_query(fields: &Vec<String>, object_name: &str, now_secs: i64) -> (r: Option<String>)
    ensures
        DELTA_WINDOW_SECS <= now_secs <= LAST_WRITABLE_SECS + DELTA_WINDOW_SECS ==> r is Some,
        r matches Some(q) ==> q@ == delta_soql(
            views(fields@),
            object_name@,
            iso_utc_of(now_secs - DELTA_WINDOW_SECS),
        ),
        now_secs < i64::MIN + DELTA_WINDOW_SECS ==> r is None,
{
    if now_secs < i64::MIN + DELTA_WINDOW_SECS {
        return None;
    }
    match format_utc(now_secs - DELTA_WINDOW_SECS) {
        Some(since) => Some(delta_query(fields, object_name, since.as_str())),
        None => None,
    }
}

/// What came of pushing one row.
pub enum PushOutcome {
    /// The row was created remotely under this id.
    Created(String),
    /// The remote record was updated.
    Updated,
    /// The push failed with this message.
    Failed(String),
}

/// What came of a push, from the method used and the response: an error
/// fails the row; a successful create is `Created` with the id the response
/// holds, or fails with the response when it holds none; an update succeeds.
pub fn push_outcome(method: PushMethod, response: Result<String, String>, created_id: Option<String>) -> (r: PushOutcome)
    ensures
        match response {
            Err(e) => r == PushOutcome::Failed(e),
            Ok(body) => match method {
                PushMethod::Patch => r == PushOutcome::Updated,
                PushMethod::Post => match created_id {
                    Some(id) => r == PushOutcome::Created(id),
                    None => r == PushOutcome::Failed(body),
                },
            },
        },
{
    match response {
        Err(e) => PushOutcome::Failed(e),
        Ok(body) => match method {
            PushMethod::Patch => PushOutcome::Updated,
            PushMethod::Post => match created_id {
                Some(id) => PushOutcome::Created(id),
                None => PushOutcome::Failed(body),
            },
        },
    }
}

/// The write-backs for the outcomes, in order: the new remote id of each
/// created row, the error state of each failed one.
pub open spec fn egress_sql(object_name: Seq<char>, outcomes: Seq<(i32, PushOutcome)>) -> Seq<Seq<char>>
    decreases outcomes.len(),
{
    if outcomes.len() == 0 {
        Seq::empty()
    } else {
        let prev = egress_sql(object_name, outcomes.drop_last());
        let (id, o) = outcomes.last();
        match o {
            PushOutcome::Created(sfid) => prev.push(
                update_sql(
                    UpdateModel {
                        table: table_of(object_name),
                        fields: seq!["sfid"@ + "="@ + escaped(wrap(sfid@))],
                        wheres: id_condition(id),
                    },
                ),
            ),
            PushOutcome::Updated => prev,
            PushOutcome::Failed(e) => prev.push(
                update_sql(
                    UpdateModel {
                        table: table_of(object_name),
                        fields: seq![
                            "_s_error"@ + "="@ + escaped(wrap(e@)),
                            "_s_state"@ + "="@ + escaped("'ERROR'"@),
                        ],
                        wheres: id_condition(id),
                    },
                ),
            ),
        }
    }
}

/// The statements that record the outcomes of pushing rows of `object_name`.
pub fn egress_writes(object_name: &str, outcomes: &Vec<(i32, PushOutcome)>) -> (r: Vec<String>)
    ensures
        views(r@) == egress_sql(object_name@, outcomes@),
{
    let mut out: Vec<String> = Vec::new();
    let mut i: usize = 0;
    while i < outcomes.len()
        invariant
            i <= outcomes@.len(),
            views(out@) == egress_sql(object_name@, outcomes@.subrange(0, i as int)),
        decreases outcomes@.len() - i,
    {
        assert(outcomes@.subrange(0, i + 1).drop_last() =~= outcomes@.subrange(0, i as int));
        let (id, o) = &outcomes[i];
        match o {
            PushOutcome::Created(sfid) => {
                out.push(remote_id_query(object_name, *id, sfid.as_str()));
                assert(views(out@) =~= egress_sql(object_name@, outcomes@.subrange(0, i + 1)));
            },
            PushOutcome::Updated => {},
            PushOutcome::Failed(e) => {
                out.push(error_state_query(object_name, *id, e.as_str()));
                assert(views(out@) =~= egress_sql(object_name@, outcomes@.subrange(0, i + 1)));
            },
        }
        i = i + 1;
    }
    assert(outcomes@.subrange(0, outcomes@.len() as int) =~= outcomes@);
    out
}

} // verus!
