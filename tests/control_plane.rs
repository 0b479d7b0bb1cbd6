use sfsync::config::SalesforceConfig;
use sfsync::control::{
    parse_number, route, setup_delete_reply, setup_new_reply, ws_tick_frames, Route, Trigger,
};
use sfsync::menu::{Menu, MenuAction};
use sfsync::objects::{ObjectConfig, SObject, SyncObjectCache};
use sfsync::remote::{describe_url, next_page_url, objects_url, push_target, query_url, records_query, PushMethod};
use sfsync::session::{bearer, login_form};
use sfsync::setup::{db_listing, sf_listing, SetupError};

fn s(x: &str) -> String {
    x.to_string()
}

#[test]
fn routes() {
    assert_eq!(route("GET", "/"), Route::Index);
    assert_eq!(route("GET", "/info"), Route::Info);
    assert_eq!(route("GET", "/setup/list"), Route::SetupList);
    assert_eq!(route("GET", "/setup/available"), Route::SetupAvailable);
    assert_eq!(route("POST", "/setup/new"), Route::SetupNew);
    assert_eq!(route("POST", "/setup/delete"), Route::SetupDelete);
    assert_eq!(route("GET", "/messages"), Route::Messages);
    assert_eq!(route("GET", "/sync/messages"), Route::SyncMessages);
    assert_eq!(route("PUT", "/sync/start"), Route::SyncStart);
    assert_eq!(route("PUT", "/sync/stop"), Route::SyncStop);
    assert_eq!(route("GET", "/ws/messages"), Route::WsMessages);
    assert_eq!(route("GET", "/ws/sync/messages"), Route::WsSyncMessages);
    assert_eq!(route("GET", "/setup/new"), Route::NotFound);
    assert_eq!(route("DELETE", "/"), Route::NotFound);
}

#[test]
fn form_numbers() {
    assert_eq!(parse_number("1"), Some(1));
    assert_eq!(parse_number("+12"), Some(12));
    assert_eq!(parse_number("007"), Some(7));
    assert_eq!(parse_number(""), None);
    assert_eq!(parse_number("-1"), None);
    assert_eq!(parse_number("1x"), None);
    assert_eq!(parse_number("18446744073709551615"), Some(usize::MAX));
    assert_eq!(parse_number("18446744073709551616"), None);
}

#[test]
fn post_replies() {
    let r = setup_new_reply(Some(1), Ok(false));
    assert_eq!((r.status, r.enqueue), (201, Some(Trigger::SetupNew(1))));
    let r = setup_new_reply(Some(1), Ok(true));
    assert_eq!((r.status, r.enqueue), (422, None));
    let r = setup_new_reply(None, Ok(false));
    assert_eq!((r.status, r.enqueue), (422, None));
    assert_eq!(setup_new_reply(Some(1), Err(SetupError::CacheNotReady)).status, 409);
    assert_eq!(setup_new_reply(Some(9), Err(SetupError::ObjectNotFound)).status, 404);
    let r = setup_delete_reply(Some(1));
    assert_eq!((r.status, r.enqueue), (200, Some(Trigger::SetupDelete(1))));
    assert_eq!(setup_delete_reply(None).status, 422);
}

#[test]
fn websocket_tick_frames() {
    assert_eq!(ws_tick_frames(vec![]), vec![s("{}")]);
    assert_eq!(ws_tick_frames(vec![s("a"), s("b")]), vec![s("a"), s("b"), s("{}")]);
}

fn sobj(name: &str) -> SObject {
    SObject {
        label: s(name),
        createable: true,
        updateable: true,
        queryable: true,
        layoutable: true,
        custom_setting: false,
        name: s(name),
    }
}

#[test]
fn cache_lookups() {
    let mut cache = SyncObjectCache::new();
    assert_eq!(cache.sf_object_name(1), Err(SetupError::CacheNotReady));
    assert_eq!(cache.db_object(1), Err(SetupError::CacheNotReady));
    cache.set_sf_objects(vec![sobj("Account"), sobj("Contact")]);
    assert_eq!(cache.sf_object_name(2), Ok(s("Contact")));
    assert_eq!(cache.sf_object_name(0), Err(SetupError::ObjectNotFound));
    assert_eq!(cache.sf_object_name(3), Err(SetupError::ObjectNotFound));
    cache.set_db_objects(vec![ObjectConfig::new(7, s("account"), 3, vec![])]);
    assert_eq!(cache.db_object(1), Ok((7, s("account"))));
    assert_eq!(cache.db_object(2), Err(SetupError::ObjectNotFound));
}

#[test]
fn listings_are_numbered_from_one() {
    let l = sf_listing(&vec![sobj("Account"), sobj("Contact")], &vec![true, false]);
    assert_eq!(l.len(), 2);
    assert_eq!((l[0].num, l[0].name.as_str(), l[0].synced), (1, "Account", true));
    assert_eq!((l[1].num, l[1].name.as_str(), l[1].synced), (2, "Contact", false));
    let d = db_listing(&vec![ObjectConfig::new(7, s("account"), 3, vec![])]);
    assert_eq!((d[0].num, d[0].count, d[0].num_fields), (1, 3, 0));
}

#[test]
fn menu_walk() {
    let mut m = Menu::new();
    assert_eq!(m.action(), MenuAction::ShowMain);
    m.read(Some('1'));
    assert_eq!(m.action(), MenuAction::ShowSetup);
    m.read(Some('4'));
    assert_eq!(m.action(), MenuAction::ListObjects);
    m.read(Some('3'));
    assert_eq!(m.action(), MenuAction::SelectObject);
    m.read(Some('x'));
    assert_eq!(m.action(), MenuAction::StopLog);
    m.read(Some('2'));
    assert_eq!(m.action(), MenuAction::ShowSync);
    m.read(Some('3'));
    assert_eq!(m.action(), MenuAction::ShowLog);
    m.read(Some('\n'));
    assert_eq!(m.action(), MenuAction::StopLog);
    m.read(Some('3'));
    assert_eq!(m.action(), MenuAction::Exit);
    m.read(Some('9'));
    m.read(Some('9'));
    assert_eq!(m.action(), MenuAction::Invalid);
    assert_eq!(m.command, 0);
    m.read(None);
    assert_eq!(m.action(), MenuAction::Exit);
}

#[test]
fn remote_addresses() {
    let i = "https://eu1.example.com";
    assert_eq!(objects_url(i, "v40.0"), "https://eu1.example.com/services/data/v40.0/sobjects");
    assert_eq!(
        describe_url(i, "v40.0", "Account"),
        "https://eu1.example.com/services/data/v40.0/sobjects/Account/describe"
    );
    assert_eq!(
        query_url(i, "v40.0", "SELECT+Id+FROM+Account"),
        "https://eu1.example.com/services/data/v40.0/query/?q=SELECT+Id+FROM+Account"
    );
    assert_eq!(next_page_url(i, "/next/2"), "https://eu1.example.com/next/2");
    assert_eq!(records_query(&vec![s("Id"), s("Name")], "Account"), "SELECT+Id,Name+FROM+Account");
    let (m, u) = push_target(i, "v40.0", "Account", &Some(s("001A")));
    assert_eq!(m, PushMethod::Patch);
    assert_eq!(u, "https://eu1.example.com/services/data/v40.0/sobjects/Account/001A");
    let (m, u) = push_target(i, "v40.0", "Account", &None);
    assert_eq!(m, PushMethod::Post);
    assert_eq!(u, "https://eu1.example.com/services/data/v40.0/sobjects/Account");
}

#[test]
fn login() {
    let c = SalesforceConfig {
        uri: s("https://login.example.com/token"),
        client_id: s("cid"),
        client_secret: s("SECRET-REDACTED"),
        username: s("u@example.com"),
        password: s("pw"),
        sec_token: s("TOK"),
        api_version: s("v40.0"),
    };
    let f = login_form(&c);
    assert_eq!(f[0], (s("grant_type"), s("password")));
    assert_eq!(f[4], (s("password"), s("pwTOK")));
    assert_eq!(f.len(), 5);
    assert_eq!(bearer("abc"), "Bearer abc");
}
