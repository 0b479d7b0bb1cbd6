//! Column types for remote field kinds.

use vstd::prelude::*;
use crate::text::{decimal, push_decimal, push_str, str_eq};

verus! {

/// Kinds stored as character columns.
pub open spec fn is_char_kind(kind: Seq<char>) -> bool {
    kind == "id"@ || kind == "string"@ || kind == "picklist"@
}

/// Kinds stored as floating-point columns.
pub open spec fn is_float_kind(kind: Seq<char>) -> bool {
    kind == "double"@ || kind == "currency"@ || kind == "percent"@
}

/// The kinds that have a mapping of their own.
pub open spec fn is_known_kind(kind: Seq<char>) -> bool {
    is_char_kind(kind) || is_float_kind(kind) || kind == "int"@ || kind == "datetime"@
        || kind == "date"@ || kind == "boolean"@
}

/// The SQL column type of a remote field of `kind` with `length` characters.
pub open spec fn column_type(kind: Seq<char>, length: nat) -> Seq<char> {
    if is_char_kind(kind) {
        if length > 255 {
            "text"@
        } else {
            "varchar("@ + decimal(length) + ")"@
        }
    } else if is_float_kind(kind) {
        "double precision"@
    } else if kind == "int"@ {
        "integer"@
    } else if kind == "datetime"@ {
        "timestamp"@
    } else if kind == "date"@ {
        "date"@
    } else if kind == "boolean"@ {
        "boolean"@
    } else {
        "varchar"@
    }
}

/// Maps a remote field kind and length to the SQL column type. The mapping is
/// total: an unknown kind gives `varchar`.
pub fn sf_type_mapping(field_type: &String, length: u32) -> (r: Result<String, String>)
    ensures
        r == Ok::<String, String>(r->Ok_0),
        r->Ok_0@ == column_type(field_type@, length as nat),
{
    let k = field_type.as_str();
    if str_eq(k, "id") || str_eq(k, "string") || str_eq(k, "picklist") {
        if length > 255 {
            return Ok(String::from_str("text"));
        }
        let mut s = String::from_str("varchar(");
        push_decimal(&mut s, length as u64);
        push_str(&mut s, ")");
        Ok(s)
    } else if str_eq(k, "double") || str_eq(k, "currency") || str_eq(k, "percent") {
        Ok(String::from_str("double precision"))
    } else if str_eq(k, "int") {
        Ok(String::from_str("integer"))
    } else if str_eq(k, "datetime") {
        Ok(String::from_str("timestamp"))
    } else if str_eq(k, "date") {
        Ok(String::from_str("date"))
    } else if str_eq(k, "boolean") {
        Ok(String::from_str("boolean"))
    } else {
        Ok(String::from_str("varchar"))
    }
}

/// Every kind maps to a non-empty column type, and a kind outside the known
/// set maps to `varchar`.
pub proof fn lemma_type_mapping_total(kind: Seq<char>, length: nat)
    ensures
        column_type(kind, length).len() > 0,
        !is_known_kind(kind) ==> column_type(kind, length) == "varchar"@,
{
    reveal_strlit("text");
    reveal_strlit("varchar(");
    reveal_strlit(")");
    reveal_strlit("double precision");
    reveal_strlit("integer");
    reveal_strlit("timestamp");
    reveal_strlit("date");
    reveal_strlit("boolean");
    reveal_strlit("varchar");
}

} // verus!
