//! The steps of provisioning a mirrored object end to end: describe it,
//! create its table, store its configuration, install the change trigger and
//! back-fill its rows page by page.

use vstd::prelude::*;
use crate::text::push_str;

verus! {

/// Where a provisioning run stands.
#[derive(PartialEq, Eq, Structural, Debug, Clone, Copy)]
pub enum ProvisionPhase {
    Describing,
    CreatingTable,
    SavingConfig,
    InstallingTrigger,
    LoadingFirstPage,
    LoadingPages,
    Finished,
    Failed,
}

/// What happened since the last step.
#[derive(PartialEq, Eq, Structural, Debug, Clone, Copy)]
pub enum ProvisionEvent {
    /// The step asked for last succeeded (describe, create, save, trigger).
    Done,
    /// A page was fetched and inserted: `rows` rows, `last` when no page follows.
    PageLoaded { rows: u64, last: bool },
    /// The step asked for last failed.
    Failed,
}

/// What the caller does next.
#[derive(PartialEq, Eq, Structural, Debug, Clone, Copy)]
pub enum ProvisionAction {
    Describe,
    CreateTable,
    SaveConfig,
    InstallTrigger,
    FetchFirstPage,
    FetchNextPage,
    /// Provisioning succeeded with the run's row count.
    Finish,
    /// Provisioning stopped on an error.
    Abort,
}

/// The progress note a step emits, if any.
#[derive(PartialEq, Eq, Structural, Debug, Clone, Copy)]
pub enum ProvisionNote {
    Selected,
    TableError,
    SyncStarted,
    SyncRunning,
    SyncEnded,
}

/// A provisioning run: its phase, whether it installs the change trigger, and
/// the rows loaded so far.
#[derive(PartialEq, Eq, Structural, Debug, Clone, Copy)]
pub struct ProvisionRun {
    pub phase: ProvisionPhase,
    pub install_trigger: bool,
    pub rows: u64,
}

/// `a + b`, saturating at the largest `u64`.
pub open spec fn sat_add(a: u64, b: u64) -> u64 {
    if a + b > u64::MAX { u64::MAX } else { (a + b) as u64 }
}

/// The state, action and notes after `e` in state `s`.
pub open spec fn provision_next(s: ProvisionRun, e: ProvisionEvent) -> (ProvisionRun, ProvisionAction, Seq<ProvisionNote>) {
    let fail = (ProvisionRun { phase: ProvisionPhase::Failed, ..s }, ProvisionAction::Abort, Seq::<ProvisionNote>::empty());
    match (s.phase, e) {
        (ProvisionPhase::Describing, ProvisionEvent::Done) => (
            ProvisionRun { phase: ProvisionPhase::CreatingTable, ..s },
            ProvisionAction::CreateTable,
            Seq::empty(),
        ),
        (ProvisionPhase::CreatingTable, ProvisionEvent::Done) => (
            ProvisionRun { phase: ProvisionPhase::SavingConfig, ..s },
            ProvisionAction::SaveConfig,
            Seq::empty(),
        ),
        (ProvisionPhase::CreatingTable, ProvisionEvent::Failed) => (
            ProvisionRun { phase: ProvisionPhase::Failed, ..s },
            ProvisionAction::Abort,
            seq![ProvisionNote::TableError],
        ),
        (ProvisionPhase::SavingConfig, ProvisionEvent::Done) => if s.install_trigger {
            (ProvisionRun { phase: ProvisionPhase::InstallingTrigger, ..s }, ProvisionAction::InstallTrigger, Seq::empty())
        } else {
            (ProvisionRun { phase: ProvisionPhase::LoadingFirstPage, ..s }, ProvisionAction::FetchFirstPage, Seq::empty())
        },
        (ProvisionPhase::InstallingTrigger, ProvisionEvent::Done) => (
            ProvisionRun { phase: ProvisionPhase::LoadingFirstPage, ..s },
            ProvisionAction::FetchFirstPage,
            Seq::empty(),
        ),
        (ProvisionPhase::LoadingFirstPage, ProvisionEvent::PageLoaded { rows, last }) => {
            let t = sat_add(s.rows, rows);
            if last {
                (ProvisionRun { phase: ProvisionPhase::Finished, rows: t, ..s }, ProvisionAction::Finish, seq![ProvisionNote::SyncStarted])
            } else {
                (ProvisionRun { phase: ProvisionPhase::LoadingPages, rows: t, ..s }, ProvisionAction::FetchNextPage, seq![ProvisionNote::SyncStarted])
            }
        },
        (ProvisionPhase::LoadingPages, ProvisionEvent::PageLoaded { rows, last }) => {
            let t = sat_add(s.rows, rows);
            if last {
                (
                    ProvisionRun { phase: ProvisionPhase::Finished, rows: t, ..s },
                    ProvisionAction::Finish,
                    seq![ProvisionNote::SyncRunning, ProvisionNote::SyncEnded],
                )
            } else {
                (ProvisionRun { phase: ProvisionPhase::LoadingPages, rows: t, ..s }, ProvisionAction::FetchNextPage, seq![ProvisionNote::SyncRunning])
            }
        },
        (ProvisionPhase::Finished, _) => (s, ProvisionAction::Finish, Seq::empty()),
        (ProvisionPhase::Failed, _) => (s, ProvisionAction::Abort, Seq::empty()),
        _ => fail,
    }
}

impl ProvisionRun {
    /// A run for a selected object: it first asks for the describe document
    /// and notes the selection.
    pub fn start(install_trigger: bool) -> (r: (ProvisionRun, ProvisionAction, Vec<ProvisionNote>))
        ensures
            r.0 == (ProvisionRun { phase: ProvisionPhase::Describing, install_trigger, rows: 0 }),
            r.1 == ProvisionAction::Describe,
            r.2@ == seq![ProvisionNote::Selected],
    {
        let mut notes: Vec<ProvisionNote> = Vec::new();
        notes.push(ProvisionNote::Selected);
        (ProvisionRun { phase: ProvisionPhase::Describing, install_trigger, rows: 0 }, ProvisionAction::Describe, notes)
    }

    /// Takes one event; says what to do next and which notes to emit.
    pub fn step(&mut self, e: ProvisionEvent) -> (r: (ProvisionAction, Vec<ProvisionNote>))
        ensures
            (*final(self), r.0, r.1@) == provision_next(*old(self), e),
    {
        let mut notes: Vec<ProvisionNote> = Vec::new();
        let action = match (self.phase, e) {
            (ProvisionPhase::Describing, ProvisionEvent::Done) => {
                self.phase = ProvisionPhase::CreatingTable;
                ProvisionAction::CreateTable
            },
            (ProvisionPhase::CreatingTable, ProvisionEvent::Done) => {
                self.phase = ProvisionPhase::SavingConfig;
                ProvisionAction::SaveConfig
            },
            (ProvisionPhase::CreatingTable, ProvisionEvent::Failed) => {
                self.phase = ProvisionPhase::Failed;
                notes.push(ProvisionNote::TableError);
                ProvisionAction::Abort
            },
            (ProvisionPhase::SavingConfig, ProvisionEvent::Done) => {
                if self.install_trigger {
                    self.phase = ProvisionPhase::InstallingTrigger;
                    ProvisionAction::InstallTrigger
                } else {
                    self.phase = ProvisionPhase::LoadingFirstPage;
                    ProvisionAction::FetchFirstPage
                }
            },
            (ProvisionPhase::InstallingTrigger, ProvisionEvent::Done) => {
                self.phase = ProvisionPhase::LoadingFirstPage;
                ProvisionAction::FetchFirstPage
            },
            (ProvisionPhase::LoadingFirstPage, ProvisionEvent::PageLoaded { rows, last }) => {
                self.rows = if rows > u64::MAX - self.rows { u64::MAX } else { self.rows + rows };
                notes.push(ProvisionNote::SyncStarted);
                if last {
                    self.phase = ProvisionPhase::Finished;
                    ProvisionAction::Finish
                } else {
                    self.phase = ProvisionPhase::LoadingPages;
                    ProvisionAction::FetchNextPage
                }
            },
            (ProvisionPhase::LoadingPages, ProvisionEvent::PageLoaded { rows, last }) => {
                self.rows = if rows > u64::MAX - self.rows { u64::MAX } else { self.rows + rows };
                notes.push(ProvisionNote::SyncRunning);
                if last {
                    notes.push(ProvisionNote::SyncEnded);
                    self.phase = ProvisionPhase::Finished;
                    ProvisionAction::Finish
                } else {
                    ProvisionAction::FetchNextPage
                }
            },
            (ProvisionPhase::Finished, _) => ProvisionAction::Finish,
            (ProvisionPhase::Failed, _) => ProvisionAction::Abort,
            _ => {
                self.phase = ProvisionPhase::Failed;
                ProvisionAction::Abort
            },
        };
        proof {
            let ex = provision_next(*old(self), e);
            assert(notes@ =~= ex.2);
        }
        (action, notes)
    }
}

/// The text of a progress note about the object `name`.
pub open spec fn note_text(note: ProvisionNote, name: Seq<char>) -> Seq<char> {
    match note {
        ProvisionNote::Selected => "Selected Object: "@ + name,
        ProvisionNote::TableError => "Error on Object: "@ + name,
        ProvisionNote::SyncStarted => "Sync started for "@ + name,
        ProvisionNote::SyncRunning => "Sync running for "@ + name,
        ProvisionNote::SyncEnded => "Sync ended for "@ + name,
    }
}

/// Writes a progress note about the object `name`.
pub fn note_message(note: ProvisionNote, name: &str) -> (r: String)
    ensures
        r@ == note_text(note, name@),
{
    let mut s = match note {
        ProvisionNote::Selected => String::from_str("Selected Object: "),
        ProvisionNote::TableError => String::from_str("Error on Object: "),
        ProvisionNote::SyncStarted => String::from_str("Sync started for "),
        ProvisionNote::SyncRunning => String::from_str("Sync running for "),
        ProvisionNote::SyncEnded => String::from_str("Sync ended for "),
    };
    push_str(&mut s, name);
    s
}

} // verus!

verus! {

/// The state, the actions and the notes after a run of events.
pub open spec fn provision_run(s: ProvisionRun, es: Seq<ProvisionEvent>) -> (ProvisionRun, Seq<ProvisionAction>)
    decreases es.len(),
{
    if es.len() == 0 {
        (s, Seq::empty())
    } else {
        let (t, acts) = provision_run(s, es.drop_last());
        let (u, a, _) = provision_next(t, es.last());
        (u, acts.push(a))
    }
}

/// The page events of a back-fill whose pages hold `pages[i]` rows, none last.
pub open spec fn page_loads(pages: Seq<u64>) -> Seq<ProvisionEvent>
    decreases pages.len(),
{
    if pages.len() == 0 {
        Seq::empty()
    } else {
        page_loads(pages.drop_last()).push(ProvisionEvent::PageLoaded { rows: pages.last(), last: false })
    }
}

/// The sum of the page sizes.
pub open spec fn rows_of(pages: Seq<u64>) -> nat
    decreases pages.len(),
{
    if pages.len() == 0 { 0 } else { (rows_of(pages.drop_last()) + pages.last()) as nat }
}

/// The events of a run that succeeds at every step and installs the trigger:
/// describe, create, save, trigger, then the pages, the last one marked last.
pub open spec fn provision_events(pages: Seq<u64>) -> Seq<ProvisionEvent> {
    let setup = seq![ProvisionEvent::Done, ProvisionEvent::Done, ProvisionEvent::Done, ProvisionEvent::Done];
    let loads = page_loads(pages);
    setup + loads.update(
        loads.len() - 1,
        ProvisionEvent::PageLoaded { rows: pages.last(), last: true },
    )
}

/// The state a run started with the trigger reaches.
pub open spec fn provision_start() -> ProvisionRun {
    ProvisionRun { phase: ProvisionPhase::Describing, install_trigger: true, rows: 0 }
}

proof fn lemma_setup_steps()
    ensures
        ({
            let (s, acts) = provision_run(
                provision_start(),
                seq![ProvisionEvent::Done, ProvisionEvent::Done, ProvisionEvent::Done, ProvisionEvent::Done],
            );
            &&& s == ProvisionRun { phase: ProvisionPhase::LoadingFirstPage, install_trigger: true, rows: 0 }
            &&& acts == seq![
                ProvisionAction::CreateTable,
                ProvisionAction::SaveConfig,
                ProvisionAction::InstallTrigger,
                ProvisionAction::FetchFirstPage,
            ]
        }),
{
    let d = ProvisionEvent::Done;
    let e4 = seq![d, d, d, d];
    assert(e4.drop_last() =~= seq![d, d, d]);
    assert(seq![d, d, d].drop_last() =~= seq![d, d]);
    assert(seq![d, d].drop_last() =~= seq![d]);
    assert(seq![d].drop_last() =~= Seq::<ProvisionEvent>::empty());
    let s0 = provision_start();
    assert(provision_run(s0, Seq::<ProvisionEvent>::empty()).1 =~= Seq::<ProvisionAction>::empty());
    let r1 = provision_run(s0, seq![d]);
    assert(r1.0.phase == ProvisionPhase::CreatingTable && r1.1 =~= seq![ProvisionAction::CreateTable]);
    let r2 = provision_run(s0, seq![d, d]);
    assert(r2.0.phase == ProvisionPhase::SavingConfig);
    assert(r2.1 =~= seq![ProvisionAction::CreateTable, ProvisionAction::SaveConfig]);
    let r3 = provision_run(s0, seq![d, d, d]);
    assert(r3.0.phase == ProvisionPhase::InstallingTrigger);
    assert(r3.1 =~= seq![ProvisionAction::CreateTable, ProvisionAction::SaveConfig, ProvisionAction::InstallTrigger]);
    let (_, a4) = provision_run(provision_start(), e4);
    assert(a4 =~= seq![
        ProvisionAction::CreateTable,
        ProvisionAction::SaveConfig,
        ProvisionAction::InstallTrigger,
        ProvisionAction::FetchFirstPage,
    ]);
}

proof fn lemma_run_append(s: ProvisionRun, a: Seq<ProvisionEvent>, b: Seq<ProvisionEvent>)
    ensures
        provision_run(s, a + b).0 == provision_run(provision_run(s, a).0, b).0,
        provision_run(s, a + b).1 == provision_run(s, a).1 + provision_run(provision_run(s, a).0, b).1,
    decreases b.len(),
{
    if b.len() == 0 {
        assert(a + b =~= a);
        assert(provision_run(s, a).1 + Seq::<ProvisionAction>::empty() =~= provision_run(s, a).1);
    } else {
        assert((a + b).drop_last() =~= a + b.drop_last());
        lemma_run_append(s, a, b.drop_last());
        let t = provision_run(s, a).0;
        let r = provision_run(t, b.drop_last());
        assert(provision_run(s, a).1 + r.1.push(provision_next(r.0, b.last()).1) =~= (provision_run(s, a).1
            + r.1).push(provision_next(r.0, b.last()).1));
    }
}

proof fn lemma_pages(pages: Seq<u64>)
    requires
        rows_of(pages) <= u64::MAX,
    ensures
        ({
            let s0 = ProvisionRun { phase: ProvisionPhase::LoadingFirstPage, install_trigger: true, rows: 0 };
            let (s, acts) = provision_run(s0, page_loads(pages));
            &&& s == ProvisionRun {
                phase: if pages.len() == 0 { ProvisionPhase::LoadingFirstPage } else { ProvisionPhase::LoadingPages },
                install_trigger: true,
                rows: rows_of(pages) as u64,
            }
            &&& acts.len() == pages.len()
            &&& forall|i: int| 0 <= i < acts.len() ==> #[trigger] acts[i] == ProvisionAction::FetchNextPage
        }),
        page_loads(pages).len() == pages.len(),
    decreases pages.len(),
{
    let s0 = ProvisionRun { phase: ProvisionPhase::LoadingFirstPage, install_trigger: true, rows: 0 };
    if pages.len() > 0 {
        lemma_pages(pages.drop_last());
        let ev = page_loads(pages);
        assert(ev.drop_last() =~= page_loads(pages.drop_last()));
        let (t, acts0) = provision_run(s0, page_loads(pages.drop_last()));
        let (_, acts) = provision_run(s0, ev);
        assert(acts == acts0.push(ProvisionAction::FetchNextPage));
        assert forall|i: int| 0 <= i < acts.len() implies #[trigger] acts[i] == ProvisionAction::FetchNextPage by {
            if i < acts0.len() {
                assert(acts[i] == acts0[i]);
            }
        }
    }
}

/// A provisioning run that succeeds at every step loads every row of every
/// page: it ends finished with the sum of the page sizes, asks to create the
/// table, store the configuration and install the trigger once each before
/// any page, and finishes only at the last page, never aborting.
pub proof fn lemma_provision_complete(pages: Seq<u64>)
    requires
        pages.len() > 0,
        rows_of(pages) <= u64::MAX,
    ensures
        ({
            let (s, acts) = provision_run(provision_start(), provision_events(pages));
            &&& s.phase == ProvisionPhase::Finished
            &&& s.rows == rows_of(pages)
            &&& acts.len() == pages.len() + 4
            &&& acts.subrange(0, 4) == seq![
                ProvisionAction::CreateTable,
                ProvisionAction::SaveConfig,
                ProvisionAction::InstallTrigger,
                ProvisionAction::FetchFirstPage,
            ]
            &&& acts.last() == ProvisionAction::Finish
            &&& forall|i: int| 0 <= i < acts.len() - 1 ==> #[trigger] acts[i] != ProvisionAction::Finish
                && acts[i] != ProvisionAction::Abort
        }),
{
    let d = ProvisionEvent::Done;
    let setup = seq![d, d, d, d];
    let prev = pages.drop_last();
    lemma_setup_steps();
    lemma_pages(prev);
    let loads = page_loads(pages);
    assert(loads == page_loads(prev).push(ProvisionEvent::PageLoaded { rows: pages.last(), last: false }));
    let last_ev = ProvisionEvent::PageLoaded { rows: pages.last(), last: true };
    let tail = page_loads(prev).push(last_ev);
    assert(loads.update(loads.len() - 1, last_ev) =~= tail);
    let ev = provision_events(pages);
    assert(ev =~= setup + tail);
    lemma_run_append(provision_start(), setup, tail);
    let s1 = ProvisionRun { phase: ProvisionPhase::LoadingFirstPage, install_trigger: true, rows: 0 };
    assert(tail.drop_last() =~= page_loads(prev));
    let (s2, acts2) = provision_run(s1, page_loads(prev));
    let (s3, acts3) = provision_run(s1, tail);
    assert(acts3 == acts2.push(provision_next(s2, last_ev).1));
    assert(rows_of(pages) == rows_of(prev) + pages.last());
    let acts = provision_run(provision_start(), ev).1;
    let head = seq![
        ProvisionAction::CreateTable,
        ProvisionAction::SaveConfig,
        ProvisionAction::InstallTrigger,
        ProvisionAction::FetchFirstPage,
    ];
    assert(acts == head + acts3);
    assert(acts.subrange(0, 4) =~= head);
    assert forall|i: int| 0 <= i < acts.len() - 1 implies #[trigger] acts[i] != ProvisionAction::Finish
        && acts[i] != ProvisionAction::Abort by {
        if i < 4 {
            assert(acts[i] == head[i]);
        } else {
            assert(acts[i] == acts3[i - 4]);
            assert(acts3[i - 4] == acts2[i - 4]);
        }
    }
}

/// A run whose table cannot be created (because the object is mirrored
/// already, say) aborts at once, before the configuration is stored, the
/// trigger installed or any row loaded, and stays aborted whatever follows.
pub proof fn lemma_failed_create_aborts(install_trigger: bool, rows: u64, later: ProvisionEvent)
    ensures
        ({
            let s = ProvisionRun { phase: ProvisionPhase::CreatingTable, install_trigger, rows };
            let (t, a, _) = provision_next(s, ProvisionEvent::Failed);
            let (u, b, _) = provision_next(t, later);
            &&& a == ProvisionAction::Abort
            &&& t.phase == ProvisionPhase::Failed
            &&& t.rows == rows
            &&& b == ProvisionAction::Abort
            &&& u == t
        }),
{
}

} // verus!
