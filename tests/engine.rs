use sfsync::control::setup_new_reply;
use sfsync::objects::{ObjectConfig, SyncObjectCache};
use sfsync::sql::{delete_config_query, drop_table_query};
use sfsync::bus::{MessageBus, SyncMessage, TriggerMessage, MessageType, MESSAGE_CHANNEL_SIZE};
use sfsync::engine::{Listen, Supervisor, Worker};
use sfsync::ingress::{last_sync_query, IngressAction, IngressEvent, IngressPhase, IngressRun};
use sfsync::provision::{note_message, ProvisionAction, ProvisionEvent, ProvisionNote, ProvisionPhase, ProvisionRun};
use sfsync::remote::{egress_writes, ingress_query, push_outcome, PushMethod, PushOutcome};

fn s(x: &str) -> String {
    x.to_string()
}

#[test]
fn bus_lossy_drain_keeps_newest() {
    let mut bus: MessageBus<u32> = MessageBus::new(MESSAGE_CHANNEL_SIZE);
    for i in 0..1000u32 {
        bus.send(i);
    }
    assert_eq!(bus.len(), 1000);
    let k = 7u32;
    for i in 1000..1000 + k {
        bus.send(i);
    }
    assert!(bus.len() <= 1000);
    let got = bus.drain();
    assert_eq!(got.len(), 507);
    assert_eq!(got[0], 500);
    assert_eq!(&got[got.len() - k as usize..], &[1000, 1001, 1002, 1003, 1004, 1005, 1006]);
    assert!(got.windows(2).all(|w| w[0] < w[1]));
    assert_eq!(bus.len(), 0);
}

#[test]
fn bus_many_sends_stay_bounded() {
    let mut bus: MessageBus<u32> = MessageBus::new(4);
    for i in 0..50u32 {
        bus.send(i);
        assert!(bus.len() <= 4);
    }
    let got = bus.drain();
    assert_eq!(*got.last().unwrap(), 49);
}

#[test]
fn messages_carry_their_fields() {
    let m = SyncMessage::new("Done: 3 rows", "Account", 3);
    assert_eq!(m.message_type, MessageType::SyncMessageType);
    assert_eq!(m.obj_type, "Account");
    assert_eq!(m.obj_count, 3);
    let t = TriggerMessage::new("Sync ended for Account", 10, 2);
    assert_eq!(t.message_type, MessageType::TriggerMessageType);
    assert_eq!((t.obj_count, t.elapsed_secs), (10, 2));
}

fn run(events: &[IngressEvent]) -> (IngressRun, Vec<IngressAction>) {
    let mut r = IngressRun::new();
    let acts = events.iter().map(|e| r.step(*e)).collect();
    (r, acts)
}

#[test]
fn ingress_pages_then_one_mark() {
    let (r, acts) = run(&[
        IngressEvent::PageFetched { records: 2, done: false },
        IngressEvent::PageWritten { rows: 2 },
        IngressEvent::PageFetched { records: 3, done: false },
        IngressEvent::PageWritten { rows: 3 },
        IngressEvent::PageFetched { records: 1, done: true },
        IngressEvent::PageWritten { rows: 1 },
    ]);
    assert_eq!(r.rows, 6);
    assert_eq!(r.phase, IngressPhase::Finished);
    assert_eq!(
        acts,
        vec![
            IngressAction::WritePage { upsert: true },
            IngressAction::FetchNextPage,
            IngressAction::WritePage { upsert: false },
            IngressAction::FetchNextPage,
            IngressAction::WritePage { upsert: false },
            IngressAction::MarkSynced,
        ]
    );
    assert_eq!(acts.iter().filter(|a| **a == IngressAction::MarkSynced).count(), 1);
}

#[test]
fn ingress_failure_skips_the_object() {
    let (r, acts) = run(&[
        IngressEvent::PageFetched { records: 2, done: false },
        IngressEvent::Failed,
        IngressEvent::PageWritten { rows: 2 },
    ]);
    assert_eq!(r.phase, IngressPhase::Abandoned);
    assert_eq!(acts[1], IngressAction::Skip);
    assert_eq!(acts[2], IngressAction::Idle);
    assert!(!acts.contains(&IngressAction::MarkSynced));
}

#[test]
fn last_sync_never_moves_back() {
    assert_eq!(
        last_sync_query(4),
        "UPDATE config.objects SET last_sync_time = GREATEST(last_sync_time, now()) WHERE id = 4"
    );
}

#[test]
fn ingress_query_looks_back_one_minute() {
    let fields = vec![s("Id"), s("Name")];
    assert_eq!(
        ingress_query(&fields, "Account", 1_600_000_060).unwrap(),
        "SELECT+Id,Name+FROM+Account+WHERE+lastmodifieddate>2020-09-13T12:26:40Z"
    );
    assert_eq!(
        ingress_query(&fields, "Account", 0).unwrap(),
        "SELECT+Id,Name+FROM+Account+WHERE+lastmodifieddate>1969-12-31T23:59:00Z"
    );
    assert_eq!(ingress_query(&fields, "Account", i64::MIN), None);
    assert!(ingress_query(&fields, "Account", 60).is_some());
    assert_eq!(
        ingress_query(&fields, "Account", 253402300799 + 60).unwrap(),
        "SELECT+Id,Name+FROM+Account+WHERE+lastmodifieddate>9999-12-31T23:59:59Z"
    );
    assert_eq!(ingress_query(&fields, "Account", i64::MAX), None);
}

#[test]
fn supervisor_runs_each_worker_once_at_a_time() {
    let mut sup = Supervisor::new();
    let p = sup.tick();
    assert!(!p.ingress && !p.egress);
    assert_eq!(sup.start(), Listen::On);
    let p = sup.tick();
    assert!(p.ingress && p.egress);
    sup.finished(Worker::Egress);
    let p = sup.tick();
    assert!(!p.ingress && p.egress);
    assert_eq!(sup.stop(), Listen::Off);
    sup.finished(Worker::Ingress);
    let p = sup.tick();
    assert!(!p.ingress && !p.egress);
    assert!(!sup.is_running());
}

#[test]
fn provisioning_runs_all_steps() {
    let (mut r, a, notes) = ProvisionRun::start(true);
    assert_eq!(a, ProvisionAction::Describe);
    assert_eq!(notes, vec![ProvisionNote::Selected]);
    assert_eq!(r.step(ProvisionEvent::Done).0, ProvisionAction::CreateTable);
    assert_eq!(r.step(ProvisionEvent::Done).0, ProvisionAction::SaveConfig);
    assert_eq!(r.step(ProvisionEvent::Done).0, ProvisionAction::InstallTrigger);
    assert_eq!(r.step(ProvisionEvent::Done).0, ProvisionAction::FetchFirstPage);
    let (a, n) = r.step(ProvisionEvent::PageLoaded { rows: 200, last: false });
    assert_eq!((a, n), (ProvisionAction::FetchNextPage, vec![ProvisionNote::SyncStarted]));
    let (a, n) = r.step(ProvisionEvent::PageLoaded { rows: 50, last: true });
    assert_eq!(a, ProvisionAction::Finish);
    assert_eq!(n, vec![ProvisionNote::SyncRunning, ProvisionNote::SyncEnded]);
    assert_eq!(r.rows, 250);
    assert_eq!(r.phase, ProvisionPhase::Finished);
}

#[test]
fn provisioning_without_trigger_and_table_error() {
    let (mut r, _, _) = ProvisionRun::start(false);
    r.step(ProvisionEvent::Done);
    r.step(ProvisionEvent::Done);
    assert_eq!(r.step(ProvisionEvent::Done).0, ProvisionAction::FetchFirstPage);
    let (mut r, _, _) = ProvisionRun::start(true);
    r.step(ProvisionEvent::Done);
    let (a, n) = r.step(ProvisionEvent::Failed);
    assert_eq!((a, n), (ProvisionAction::Abort, vec![ProvisionNote::TableError]));
    assert_eq!(r.phase, ProvisionPhase::Failed);
    assert_eq!(note_message(ProvisionNote::SyncEnded, "Account"), "Sync ended for Account");
}

#[test]
fn egress_outcomes_become_write_backs() {
    let outcomes = vec![
        (1, PushOutcome::Created(s("001NEW"))),
        (2, PushOutcome::Updated),
        (3, PushOutcome::Failed(s("400 INVALID_FIELD"))),
    ];
    let w = egress_writes("account", &outcomes);
    assert_eq!(
        w,
        vec![
            s("UPDATE salesforce.account SET sfid='001NEW', _s_updated = NOW()  WHERE id = '1'"),
            s("UPDATE salesforce.account SET _s_error='400 INVALID_FIELD',_s_state='ERROR', _s_updated = NOW()  WHERE id = '3'"),
        ]
    );
}

#[test]
fn duplicate_provision_is_refused_before_work() {
    let first = setup_new_reply(Some(1), Ok(false));
    assert_eq!(first.status, 201);
    let second = setup_new_reply(Some(1), Ok(true));
    assert_eq!(second.status, 422);
    assert_eq!(second.enqueue, None);
}

#[test]
fn delete_drops_table_and_config_row() {
    let mut cache = SyncObjectCache::new();
    cache.set_db_objects(vec![ObjectConfig::new(4, s("account"), 10, vec![])]);
    let (id, name) = cache.db_object(1).unwrap();
    assert_eq!(drop_table_query(&name), "DROP TABLE salesforce.account");
    assert_eq!(delete_config_query(id), "DELETE FROM config.objects where id = 4");
}

#[test]
fn ingress_delta_single_page() {
    let (r, acts) = run(&[
        IngressEvent::PageFetched { records: 1, done: true },
        IngressEvent::PageWritten { rows: 1 },
    ]);
    assert_eq!(r.rows, 1);
    assert_eq!(acts, vec![IngressAction::WritePage { upsert: true }, IngressAction::MarkSynced]);
}

#[test]
fn push_outcomes() {
    use_outcome(PushMethod::Post, Ok(s("{\"id\":\"001\"}")), Some(s("001")), "created 001");
    use_outcome(PushMethod::Post, Ok(s("{}")), None, "failed {}");
    use_outcome(PushMethod::Patch, Ok(s("")), None, "updated");
    use_outcome(PushMethod::Patch, Err(s("400 bad")), None, "failed 400 bad");
}

fn use_outcome(m: PushMethod, r: Result<String, String>, id: Option<String>, want: &str) {
    let got = match push_outcome(m, r, id) {
        PushOutcome::Created(i) => format!("created {}", i),
        PushOutcome::Updated => s("updated"),
        PushOutcome::Failed(e) => format!("failed {}", e),
    };
    assert_eq!(got, want);
}
