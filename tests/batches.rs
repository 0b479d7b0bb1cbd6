use sfsync::batch::{BatchError, QueryPage, RemoteRecord, RemoteValue, SObjectRowResultWrapper};
use sfsync::notify::{group_notifications, parse_i32, parse_notification};
use sfsync::objects::{Field, ObjectConfig, SObject, SObjectList};
use sfsync::record::{Record, Value};

fn s(x: &str) -> String {
    x.to_string()
}

fn field(name: &str, kind: &str, updateable: bool) -> Field {
    Field { name: s(name), length: 80, label: s(name), sf_type: s(kind), updateable, calculated: false }
}

fn account_fields() -> Vec<Field> {
    vec![
        field("Id", "id", false),
        field("Name", "string", true),
        field("Amount", "double", true),
        field("BillingAddress", "address", true),
    ]
}

fn rec(id: &str, name: &str, amount: &str) -> RemoteRecord {
    RemoteRecord {
        cells: vec![
            (s("Id"), RemoteValue::Text(s(id))),
            (s("Name"), RemoteValue::Text(s(name))),
            (s("Amount"), RemoteValue::Other(s(amount))),
        ],
    }
}

#[test]
fn page_rows_rename_id_wrap_strings_and_drop_addresses() {
    let page = QueryPage {
        records: Some(vec![rec("001A", "Acme", "12.5"), rec("001B", "O'Hara", "null")]),
        next_records_url: Some(s("/services/data/v40.0/query/01g-2000")),
        done: Some(false),
    };
    let w = SObjectRowResultWrapper::new(&s("Account"), &account_fields(), &page).unwrap();
    assert_eq!(w.object_name, "Account");
    assert_eq!(w.next_url, "/services/data/v40.0/query/01g-2000");
    assert!(!w.done);
    assert_eq!(w.rows.len(), 2);
    assert_eq!(w.rows[0].0, "001A");
    assert_eq!((w.rows[0].1).0, vec![s("sfid"), s("name"), s("amount")]);
    assert_eq!((w.rows[0].1).1, vec![s("'001A'"), s("'Acme'"), s("12.5")]);
    assert_eq!((w.rows[1].1).1, vec![s("'001B'"), s("'O''Hara'"), s("null")]);
}

#[test]
fn page_missing_cells_read_as_null_and_defaults_apply() {
    let page = QueryPage {
        records: Some(vec![RemoteRecord { cells: vec![(s("Id"), RemoteValue::Text(s("9")))] }]),
        next_records_url: None,
        done: None,
    };
    let w = SObjectRowResultWrapper::new(&s("Account"), &account_fields(), &page).unwrap();
    assert_eq!((w.rows[0].1).1, vec![s("'9'"), s("null"), s("null")]);
    assert_eq!(w.next_url, "");
    assert!(!w.done);
}

#[test]
fn page_duplicate_ids_keep_one_row() {
    let page = QueryPage {
        records: Some(vec![rec("001A", "Old", "1"), rec("001B", "B", "2"), rec("001A", "New", "3")]),
        next_records_url: None,
        done: Some(true),
    };
    let w = SObjectRowResultWrapper::new(&s("Account"), &account_fields(), &page).unwrap();
    assert_eq!(w.rows.len(), 2);
    assert_eq!(w.rows[0].0, "001A");
    assert_eq!((w.rows[0].1).1[1], "'New'");
    assert!(w.done);
}

#[test]
fn page_errors() {
    let none = QueryPage { records: None, next_records_url: None, done: None };
    assert_eq!(
        SObjectRowResultWrapper::new(&s("A"), &account_fields(), &none).err(),
        Some(BatchError::MissingRecords)
    );
    let no_id = QueryPage {
        records: Some(vec![RemoteRecord { cells: vec![(s("Id"), RemoteValue::Other(s("null")))] }]),
        next_records_url: None,
        done: None,
    };
    assert_eq!(
        SObjectRowResultWrapper::new(&s("A"), &account_fields(), &no_id).err(),
        Some(BatchError::MissingId)
    );
}

#[test]
fn notification_payloads() {
    assert_eq!(parse_notification("account::17"), Some((s("account"), 17)));
    assert_eq!(parse_notification("a::5::x"), Some((s("a"), 5)));
    assert_eq!(parse_notification("account:17"), None);
    assert_eq!(parse_notification("account::x"), None);
    assert_eq!(parse_notification("account::"), None);
    assert_eq!(parse_i32("-2147483648"), Some(i32::MIN));
    assert_eq!(parse_i32("+2147483647"), Some(i32::MAX));
    assert_eq!(parse_i32("2147483648"), None);
    assert_eq!(parse_i32("99999999999999999999"), None);
    assert_eq!(parse_i32("-"), None);
    assert_eq!(parse_i32(""), None);
}

#[test]
fn notifications_grouped_by_table_in_order() {
    let notes = vec![s("account::3"), s("contact::1"), s("bad"), s("account::4"), s("account::3")];
    let g = group_notifications(&notes);
    assert_eq!(g, vec![(s("account"), vec![3, 4, 3]), (s("contact"), vec![1])]);
    assert!(group_notifications(&vec![]).is_empty());
}

#[test]
fn catalog_filter() {
    let obj = |name: &str, c: bool, q: bool, l: bool, cs: bool| SObject {
        label: s(name),
        createable: c,
        updateable: true,
        queryable: q,
        layoutable: l,
        custom_setting: cs,
        name: s(name),
    };
    let list = SObjectList {
        encoding: s("UTF-8"),
        sobjects: vec![
            obj("Account", true, true, true, false),
            obj("Hidden", true, true, false, false),
            obj("Setting__c", false, false, false, true),
        ],
    };
    let names: Vec<String> = list.listable().iter().map(|o| o.name.clone()).collect();
    assert_eq!(names, vec![s("Account"), s("Setting__c")]);
}

#[test]
fn object_config_field_names() {
    let c = ObjectConfig::new(1, s("account"), 0, account_fields());
    assert_eq!(c.get_field_names(), vec![s("Id"), s("Name"), s("Amount"), s("BillingAddress")]);
    assert_eq!(c.get_db_field_names(), vec![s("name"), s("amount"), s("billingaddress")]);
}

#[test]
fn record_keeps_every_column_and_rejects_empty_rows() {
    let cols = || vec![(s("name"), Some(Value::Str(s("Acme")))), (s("amount"), None), (s("n"), Some(Value::I32(3)))];
    let r = Record::new(1, None, cols());
    assert_eq!(r.data().len(), 3);
    assert_eq!(r.data()[0].0, "name");
    assert_eq!(r.data()[1].0, "amount");
    assert!(r.data()[1].1.is_none());
    assert_eq!(r.data()[2].0, "n");
    assert!(r.is_pushable());
    let r = Record::new(1, Some(s("001")), vec![(s("amount"), None)]);
    assert!(r.is_pushable());
    let r = Record::new(2, None, vec![(s("amount"), None), (s("name"), None)]);
    assert_eq!(r.data().len(), 2);
    assert!(!r.is_pushable());
}

#[test]
fn object_config_db_field_selection() {
    let c = ObjectConfig::new(1, s("account"), 0, account_fields());
    assert_eq!(c.db_field_selection(), vec![s("Name"), s("Amount"), s("BillingAddress")]);
}
