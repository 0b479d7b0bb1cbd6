use sfsync::mapping::sf_type_mapping;
use sfsync::objects::Field;
use sfsync::query::{
    escape_single_quote, get_lock_query, quote_literal, CreateQueryBuilder, UpdateQueryBuilder,
};
use sfsync::upsert::{upsert_statements, UpsertTally};
use sfsync::sql::{
    count_local_query, count_query, create_table_query, drop_local_table_query, delete_config_query, drop_table_query, error_state_query,
    insert_query, remote_id_query, select_rows_query, selected_objects_query, trigger_query,
    update_row_query, with_lock,
};

fn s(x: &str) -> String {
    x.to_string()
}

fn field(name: &str, kind: &str, length: u32, updateable: bool) -> Field {
    Field {
        name: s(name),
        length,
        label: s(name),
        sf_type: s(kind),
        updateable,
        calculated: false,
    }
}

#[test]
fn type_mapping_is_total_over_known_kinds() {
    let kinds = [
        "id", "string", "picklist", "double", "currency", "percent", "int", "datetime", "date",
        "boolean",
    ];
    for k in kinds.iter() {
        for len in [1u32, 255, 256, 10_000].iter() {
            let r = sf_type_mapping(&s(k), *len).unwrap();
            assert!(!r.is_empty(), "{} {}", k, len);
        }
    }
}

#[test]
fn type_mapping_values() {
    assert_eq!(sf_type_mapping(&s("string"), 255).unwrap(), "varchar(255)");
    assert_eq!(sf_type_mapping(&s("id"), 18).unwrap(), "varchar(18)");
    assert_eq!(sf_type_mapping(&s("picklist"), 1).unwrap(), "varchar(1)");
    assert_eq!(sf_type_mapping(&s("string"), 256).unwrap(), "text");
    assert_eq!(sf_type_mapping(&s("string"), 10_000).unwrap(), "text");
    assert_eq!(sf_type_mapping(&s("currency"), 18).unwrap(), "double precision");
    assert_eq!(sf_type_mapping(&s("int"), 9).unwrap(), "integer");
    assert_eq!(sf_type_mapping(&s("datetime"), 0).unwrap(), "timestamp");
    assert_eq!(sf_type_mapping(&s("date"), 0).unwrap(), "date");
    assert_eq!(sf_type_mapping(&s("boolean"), 0).unwrap(), "boolean");
}

#[test]
fn type_mapping_unknown_kind_is_varchar() {
    assert_eq!(sf_type_mapping(&s("address"), 255).unwrap(), "varchar");
    assert_eq!(sf_type_mapping(&s("textarea"), 32_000).unwrap(), "varchar");
    assert_eq!(sf_type_mapping(&s(""), 1).unwrap(), "varchar");
}

#[test]
fn escape_wrapped_doubles_inner_quotes() {
    assert_eq!(escape_single_quote("'O'Brien'"), "'O''Brien'");
    assert_eq!(escape_single_quote("'plain'"), "'plain'");
    assert_eq!(escape_single_quote("''"), "''");
    assert_eq!(escape_single_quote("''''"), "''''''");
}

#[test]
fn escape_twice_equals_once_only_without_quotes() {
    let once = escape_single_quote("'abc'");
    assert_eq!(escape_single_quote(&once), once);
    let once = escape_single_quote("'a'c'");
    assert_ne!(escape_single_quote(&once), once);
}

#[test]
fn escape_leaves_unwrapped_values() {
    assert_eq!(escape_single_quote("O'Brien"), "O'Brien");
    assert_eq!(escape_single_quote("42"), "42");
    assert_eq!(escape_single_quote("'"), "'");
    assert_eq!(escape_single_quote(""), "");
    assert_eq!(escape_single_quote("'open"), "'open");
}

#[test]
fn update_builder_stamps_and_adds_where() {
    let mut b = UpdateQueryBuilder::new("salesforce.account");
    b.add_field("name", "'Acme'");
    b.add_field("amount", "12.5");
    assert_eq!(
        b.build(),
        "UPDATE salesforce.account SET name='Acme',amount=12.5, _s_updated = NOW() "
    );
    b.add_and_where("sfid", "001A", "=");
    b.add_and_where("id", "7", "=");
    assert_eq!(
        b.build(),
        "UPDATE salesforce.account SET name='Acme',amount=12.5, _s_updated = NOW()  WHERE sfid = '001A' AND id = '7'"
    );
}

#[test]
fn update_builder_escapes_values() {
    let mut b = UpdateQueryBuilder::new("t");
    b.add_field("name", "'O'Brien'");
    assert_eq!(b.build(), "UPDATE t SET name='O''Brien', _s_updated = NOW() ");
}

#[test]
fn create_builder_lowercases_names() {
    let mut b = CreateQueryBuilder::new("salesforce.x");
    b.add_field("Name", s("varchar(80)"));
    b.add_field("AMOUNT", s("integer"));
    assert_eq!(b.build(), "CREATE TABLE salesforce.x(name varchar(80),amount integer)");
}

#[test]
fn lock_queries() {
    assert_eq!(
        get_lock_query("account", true),
        "SELECT set_config('salesforce.account_lock','lock', false);"
    );
    assert_eq!(
        get_lock_query("account", false),
        "SELECT set_config('salesforce.account_lock','', false);"
    );
}

#[test]
fn provision_table_for_account() {
    let fields = vec![
        field("Id", "id", 18, false),
        field("Name", "string", 255, true),
        field("Amount", "double", 18, true),
        field("BillingAddress", "address", 0, true),
    ];
    assert_eq!(
        create_table_query("account", &fields),
        "CREATE TABLE salesforce.account(id SERIAL PRIMARY KEY,sfid varchar(18),name varchar(255),amount double precision,_s_error TEXT,_s_state varchar(20) DEFAULT 'OK',_s_created TIMESTAMP DEFAULT NOW(),_s_updated TIMESTAMP)"
    );
}

#[test]
fn trigger_statement() {
    assert_eq!(
        trigger_query("account"),
        "CREATE TRIGGER account_notify AFTER INSERT OR UPDATE ON salesforce.account FOR EACH ROW EXECUTE PROCEDURE salesforce.notify_change();"
    );
}

#[test]
fn upsert_statements_for_a_row() {
    let cols = vec![s("sfid"), s("name")];
    let vals = vec![s("'X1'"), s("'It''s'")];
    assert_eq!(
        update_row_query("X1", "account", &cols, &vals),
        "UPDATE salesforce.account SET sfid='X1',name='It''s', _s_updated = NOW()  WHERE sfid = 'X1'"
    );
    assert_eq!(
        insert_query("account", &cols, &vals),
        "INSERT INTO salesforce.account (sfid,name) VALUES ('X1','It''s');"
    );
}

#[test]
fn write_backs() {
    assert_eq!(
        error_state_query("account", 5, "bad 'field'"),
        "UPDATE salesforce.account SET _s_error='bad ''field''',_s_state='ERROR', _s_updated = NOW()  WHERE id = '5'"
    );
    assert_eq!(
        remote_id_query("account", -3, "001XYZ"),
        "UPDATE salesforce.account SET sfid='001XYZ', _s_updated = NOW()  WHERE id = '-3'"
    );
}

#[test]
fn select_rows_by_id() {
    let cols = vec![s("name"), s("amount")];
    assert_eq!(
        select_rows_query("account", &cols, &vec![1, 22, 333]),
        "SELECT id, sfid, name,amount FROM salesforce.account WHERE id IN(1,22,333)"
    );
    assert_eq!(
        select_rows_query("account", &cols, &vec![]),
        "SELECT id, sfid, name,amount FROM salesforce.account WHERE false"
    );
}

#[test]
fn mirror_write_is_wrapped_in_the_lock() {
    let v = with_lock(s("INSERT x"), "account");
    assert_eq!(v.len(), 3);
    assert_eq!(v[0], get_lock_query("account", true));
    assert_eq!(v[1], "INSERT x");
    assert_eq!(v[2], get_lock_query("account", false));
}

#[test]
fn maintenance_statements() {
    assert_eq!(drop_table_query("Account"), "DROP TABLE salesforce.account");
    assert_eq!(delete_config_query(12), "DELETE FROM config.objects where id = 12");
    assert_eq!(count_query("Account"), "SELECT count(*)::int FROM salesforce.\"account\"");
    assert_eq!(
        selected_objects_query(-1),
        "SELECT id, name, fields, last_sync_time FROM config.objects WHERE last_sync_time < current_timestamp - interval '-1 minutes'"
    );
}

#[test]
fn literals_are_quoted_with_inner_quotes_doubled() {
    assert_eq!(quote_literal("a'b"), "'a''b'");
    assert_eq!(quote_literal(""), "''");
    assert_eq!(quote_literal("plain"), "'plain'");
}

#[test]
fn builders_take_columns_and_ready_values_as_given() {
    let mut c = CreateQueryBuilder::new("t");
    c.add_column("name", s("varchar(255)"));
    assert_eq!(c.build(), "CREATE TABLE t(name varchar(255))");
    let mut u = UpdateQueryBuilder::new("t");
    u.add_raw_field("name", "'a''b'");
    assert_eq!(u.build(), "UPDATE t SET name='a''b', _s_updated = NOW() ");
    assert_eq!(drop_local_table_query("account"), "DROP TABLE salesforce.account");
    assert_eq!(count_local_query("account"), "SELECT count(*)::int FROM salesforce.\"account\"");
}

#[test]
fn upsert_updates_existing_and_inserts_new() {
    let cols = vec![s("sfid"), s("name")];
    let vals = vec![s("'X'"), s("'Acme'")];
    let (update, insert) = upsert_statements("X", "account", &cols, &vals);
    assert_eq!(update, "UPDATE salesforce.account SET sfid='X',name='Acme', _s_updated = NOW()  WHERE sfid = 'X'");
    assert_eq!(insert, "INSERT INTO salesforce.account (sfid,name) VALUES ('X','Acme');");
    let mut t = UpsertTally::new();
    assert!(!t.after_update(1));
    assert_eq!(t.total, 1);
    assert!(t.after_update(0));
    assert!(t.insert_due);
    t.after_insert(1);
    assert_eq!(t.total, 2);
    assert!(!t.insert_due);
}
