//! The decisions of the ingress worker for one mirrored object: which page to
//! fetch, how to write it, and when to move the high-water mark.

use vstd::prelude::*;
use crate::text::push_signed_decimal;

verus! {

/// Where a pull of one object stands.
#[derive(PartialEq, Eq, Structural, Debug, Clone, Copy)]
pub enum IngressPhase {
    /// Waiting for the first page of the delta query.
    AwaitFirstPage,
    /// Waiting for a page to be written; `done` tells whether it was the last.
    AwaitWrite { first: bool, done: bool },
    /// Waiting for the next page.
    AwaitNextPage,
    /// The high-water mark has been moved; nothing is left to do.
    Finished,
    /// The pull was abandoned for this tick.
    Abandoned,
}

/// What happened since the last step.
#[derive(PartialEq, Eq, Structural, Debug, Clone, Copy)]
pub enum IngressEvent {
    /// A page with `records` records arrived; `done` when no page follows.
    PageFetched { records: u64, done: bool },
    /// The page was written, touching `rows` rows.
    PageWritten { rows: u64 },
    /// The remote service or the database failed.
    Failed,
}

/// What the worker does next.
#[derive(PartialEq, Eq, Structural, Debug, Clone, Copy)]
pub enum IngressAction {
    /// Write the page: update-or-insert for the first page, insert for later ones.
    WritePage { upsert: bool },
    /// Fetch the next page.
    FetchNextPage,
    /// Move the object's `lastSyncAt` to now.
    MarkSynced,
    /// Leave the object for this tick.
    Skip,
    /// Nothing: the pull is over.
    Idle,
}

/// The state of a pull: its phase and the rows written so far.
#[derive(PartialEq, Eq, Structural, Debug, Clone, Copy)]
pub struct IngressRun {
    pub phase: IngressPhase,
    pub rows: u64,
}

/// The state and action after `e` in state `s`. Row counts saturate.
pub open spec fn ingress_next(s: IngressRun, e: IngressEvent) -> (IngressRun, IngressAction) {
    match (s.phase, e) {
        (IngressPhase::AwaitFirstPage, IngressEvent::PageFetched { records, done }) => (
            IngressRun { phase: IngressPhase::AwaitWrite { first: true, done }, rows: s.rows },
            IngressAction::WritePage { upsert: true },
        ),
        (IngressPhase::AwaitNextPage, IngressEvent::PageFetched { records, done }) => (
            IngressRun { phase: IngressPhase::AwaitWrite { first: false, done }, rows: s.rows },
            IngressAction::WritePage { upsert: false },
        ),
        (IngressPhase::AwaitWrite { first, done }, IngressEvent::PageWritten { rows }) => {
            let total = if s.rows + rows > u64::MAX { u64::MAX } else { (s.rows + rows) as u64 };
            if done {
                (IngressRun { phase: IngressPhase::Finished, rows: total }, IngressAction::MarkSynced)
            } else {
                (IngressRun { phase: IngressPhase::AwaitNextPage, rows: total }, IngressAction::FetchNextPage)
            }
        },
        (IngressPhase::Finished, _) => (s, IngressAction::Idle),
        (IngressPhase::Abandoned, _) => (s, IngressAction::Idle),
        _ => (IngressRun { phase: IngressPhase::Abandoned, rows: s.rows }, IngressAction::Skip),
    }
}

impl IngressRun {
    /// A pull that waits for its first page.
    pub fn new() -> (r: IngressRun)
        ensures
            r == (IngressRun { phase: IngressPhase::AwaitFirstPage, rows: 0 }),
    {
        IngressRun { phase: IngressPhase::AwaitFirstPage, rows: 0 }
    }

    /// Takes one event and says what to do next.
    pub fn step(&mut self, e: IngressEvent) -> (a: IngressAction)
        ensures
            (*final(self), a) == ingress_next(*old(self), e),
    {
        match (self.phase, e) {
            (IngressPhase::AwaitFirstPage, IngressEvent::PageFetched { records, done }) => {
                self.phase = IngressPhase::AwaitWrite { first: true, done };
                IngressAction::WritePage { upsert: true }
            },
            (IngressPhase::AwaitNextPage, IngressEvent::PageFetched { records, done }) => {
                self.phase = IngressPhase::AwaitWrite { first: false, done };
                IngressAction::WritePage { upsert: false }
            },
            (IngressPhase::AwaitWrite { first, done }, IngressEvent::PageWritten { rows }) => {
                self.rows = if rows > u64::MAX - self.rows { u64::MAX } else { self.rows + rows };
                if done {
                    self.phase = IngressPhase::Finished;
                    IngressAction::MarkSynced
                } else {
                    self.phase = IngressPhase::AwaitNextPage;
                    IngressAction::FetchNextPage
                }
            },
            (IngressPhase::Finished, _) => IngressAction::Idle,
            (IngressPhase::Abandoned, _) => IngressAction::Idle,
            _ => {
                self.phase = IngressPhase::Abandoned;
                IngressAction::Skip
            },
        }
    }
}

/// The events of a pull whose pages hold `pages[i]` records each, every page
/// written in full: fetched, then written, page after page; the last page says
/// it is done.
pub open spec fn page_events(pages: Seq<u64>) -> Seq<IngressEvent>
    decreases pages.len(),
{
    if pages.len() == 0 {
        Seq::empty()
    } else {
        page_events(pages.drop_last()).push(
            IngressEvent::PageFetched { records: pages.last(), done: false },
        ).push(IngressEvent::PageWritten { rows: pages.last() })
    }
}

/// The events with the done flag set on the last fetch.
pub open spec fn pull_events(pages: Seq<u64>) -> Seq<IngressEvent> {
    let ev = page_events(pages);
    if pages.len() == 0 {
        ev
    } else {
        ev.update(ev.len() - 2, IngressEvent::PageFetched { records: pages.last(), done: true })
    }
}

/// The state and the actions after a run of events.
pub open spec fn ingress_run(s: IngressRun, es: Seq<IngressEvent>) -> (IngressRun, Seq<IngressAction>)
    decreases es.len(),
{
    if es.len() == 0 {
        (s, Seq::empty())
    } else {
        let (t, acts) = ingress_run(s, es.drop_last());
        let (u, a) = ingress_next(t, es.last());
        (u, acts.push(a))
    }
}

/// The sum of the page sizes.
pub open spec fn total_of(pages: Seq<u64>) -> nat
    decreases pages.len(),
{
    if pages.len() == 0 { 0 } else { (total_of(pages.drop_last()) + pages.last()) as nat }
}

proof fn lemma_pages_prefix(pages: Seq<u64>)
    requires
        total_of(pages) <= u64::MAX,
    ensures
        ingress_run(IngressRun { phase: IngressPhase::AwaitFirstPage, rows: 0 }, page_events(pages)).0
            == (IngressRun {
            phase: if pages.len() == 0 { IngressPhase::AwaitFirstPage } else { IngressPhase::AwaitNextPage },
            rows: total_of(pages) as u64,
        }),
        page_events(pages).len() == 2 * pages.len(),
        forall|i: int|
            0 <= i < 2 * pages.len() ==> (#[trigger] ingress_run(
                IngressRun { phase: IngressPhase::AwaitFirstPage, rows: 0 },
                page_events(pages),
            ).1[i]) == if i % 2 == 0 {
                IngressAction::WritePage { upsert: i == 0 }
            } else {
                IngressAction::FetchNextPage
            },
        ingress_run(IngressRun { phase: IngressPhase::AwaitFirstPage, rows: 0 }, page_events(pages)).1.len()
            == 2 * pages.len(),
    decreases pages.len(),
{
    let s0 = IngressRun { phase: IngressPhase::AwaitFirstPage, rows: 0 };
    if pages.len() > 0 {
        let prev = pages.drop_last();
        lemma_pages_prefix(prev);
        let ev = page_events(pages);
        let pe = page_events(prev);
        let f = IngressEvent::PageFetched { records: pages.last(), done: false };
        let w = IngressEvent::PageWritten { rows: pages.last() };
        assert(ev == pe.push(f).push(w));
        assert(ev.drop_last() =~= pe.push(f));
        assert(pe.push(f).drop_last() =~= pe);
        let r1 = ingress_run(s0, pe.push(f));
        let r0 = ingress_run(s0, pe);
        assert(r1.1 == r0.1.push(ingress_next(r0.0, f).1));
        let r2 = ingress_run(s0, ev);
        assert(r2.1 == r1.1.push(ingress_next(r1.0, w).1));
        assert forall|i: int| 0 <= i < 2 * pages.len() implies (#[trigger] r2.1[i]) == if i % 2 == 0 {
            IngressAction::WritePage { upsert: i == 0 }
        } else {
            IngressAction::FetchNextPage
        } by {
            if i < 2 * prev.len() {
                assert(r2.1[i] == r0.1[i]);
            }
        }
    }
}

/// A pull over pages that hold `pages[i]` records each writes every record,
/// so its row count is their sum; it moves the high-water mark exactly once,
/// as its last action; it upserts the first page and inserts the others.
pub proof fn lemma_pagination_complete(pages: Seq<u64>)
    requires
        pages.len() > 0,
        total_of(pages) <= u64::MAX,
    ensures
        ({
            let (s, acts) = ingress_run(
                IngressRun { phase: IngressPhase::AwaitFirstPage, rows: 0 },
                pull_events(pages),
            );
            &&& s.rows == total_of(pages)
            &&& s.phase == IngressPhase::Finished
            &&& acts.len() == 2 * pages.len()
            &&& acts.last() == IngressAction::MarkSynced
            &&& forall|i: int| 0 <= i < acts.len() - 1 ==> #[trigger] acts[i] != IngressAction::MarkSynced
            &&& forall|i: int|
                0 <= i < acts.len() && i % 2 == 0 ==> #[trigger] acts[i] == IngressAction::WritePage {
                    upsert: i == 0,
                }
        }),
{
    let s0 = IngressRun { phase: IngressPhase::AwaitFirstPage, rows: 0 };
    let prev = pages.drop_last();
    lemma_pages_prefix(prev);
    let pe = page_events(prev);
    let f = IngressEvent::PageFetched { records: pages.last(), done: true };
    let w = IngressEvent::PageWritten { rows: pages.last() };
    let ev = pull_events(pages);
    assert(page_events(pages) == pe.push(IngressEvent::PageFetched { records: pages.last(), done: false }).push(w));
    assert(ev =~= pe.push(f).push(w));
    assert(ev.drop_last() =~= pe.push(f));
    assert(pe.push(f).drop_last() =~= pe);
    let r0 = ingress_run(s0, pe);
    let r1 = ingress_run(s0, pe.push(f));
    let r2 = ingress_run(s0, ev);
    assert(r1.1 == r0.1.push(ingress_next(r0.0, f).1));
    assert(r2.1 == r1.1.push(ingress_next(r1.0, w).1));
    assert(total_of(pages) == total_of(prev) + pages.last());
    assert forall|i: int| 0 <= i < r2.1.len() - 1 implies #[trigger] r2.1[i] != IngressAction::MarkSynced by {
        if i < 2 * prev.len() {
            assert(r2.1[i] == r0.1[i]);
        }
    }
    assert forall|i: int| 0 <= i < r2.1.len() && i % 2 == 0 implies #[trigger] r2.1[i] == IngressAction::WritePage {
        upsert: i == 0,
    } by {
        if i < 2 * prev.len() {
            assert(r2.1[i] == r0.1[i]);
        }
    }
}

/// The high-water mark that the statement of `last_sync_query` leaves: it
/// sets `last_sync_time = GREATEST(last_sync_time, now())`, the larger of the
/// stored value and the sync instant.
pub open spec fn next_sync_time(last: int, now: int) -> int {
    if now > last { now } else { last }
}

/// The high-water mark after syncs at each of `nows`.
pub open spec fn sync_times(last: int, nows: Seq<int>) -> int
    decreases nows.len(),
{
    if nows.len() == 0 { last } else { next_sync_time(sync_times(last, nows.drop_last()), nows.last()) }
}

/// Across any run of ticks, `lastSyncAt` never decreases: after more ticks it
/// is at least what it was after fewer.
pub proof fn lemma_last_sync_monotonic(last: int, nows: Seq<int>, k: int)
    requires
        0 <= k <= nows.len(),
    ensures
        sync_times(last, nows.subrange(0, k)) <= sync_times(last, nows),
        last <= sync_times(last, nows),
    decreases nows.len(),
{
    if nows.len() > 0 {
        if k == nows.len() {
            assert(nows.subrange(0, k) =~= nows);
            lemma_last_sync_monotonic(last, nows.drop_last(), 0);
        } else {
            assert(nows.drop_last().subrange(0, k) =~= nows.subrange(0, k));
            lemma_last_sync_monotonic(last, nows.drop_last(), k);
        }
    }
}

/// Moves the high-water mark of the configuration `id` to now, never back:
/// each run leaves `next_sync_time` of the stored value and the instant.
pub fn last_sync_query(id: i32) -> (r: String)
    ensures
        r@ == "UPDATE config.objects SET last_sync_time = GREATEST(last_sync_time, now()) WHERE id = "@
            + crate::text::signed_decimal(id as int),
{
    let mut q = String::from_str(
        "UPDATE config.objects SET last_sync_time = GREATEST(last_sync_time, now()) WHERE id = ",
    );
    push_signed_decimal(&mut q, id as i64);
    q
}

} // verus!
