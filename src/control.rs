//! The control plane's decisions: which route a request takes, how a form
//! number is read, what a POST answers and enqueues, and what a WebSocket
//! subscriber is sent on each tick.

use vstd::prelude::*;
use crate::notify::{all_digits, digits_value, lemma_digits_monotone};
use crate::setup::SetupError;
use crate::text::str_eq;

verus! {

/// The routes of the control plane.
#[derive(PartialEq, Eq, Structural, Debug, Clone, Copy)]
pub enum Route {
    Index,
    Info,
    SetupList,
    SetupAvailable,
    SetupNew,
    SetupDelete,
    Messages,
    SyncMessages,
    SyncStart,
    SyncStop,
    WsMessages,
    WsSyncMessages,
    NotFound,
}

/// The route of a request with `method` on `path`.
pub open spec fn route_of(method: Seq<char>, path: Seq<char>) -> Route {
    if method == "GET"@ {
        if path == "/"@ {
            Route::Index
        } else if path == "/info"@ {
            Route::Info
        } else if path == "/setup/list"@ {
            Route::SetupList
        } else if path == "/setup/available"@ {
            Route::SetupAvailable
        } else if path == "/messages"@ {
            Route::Messages
        } else if path == "/sync/messages"@ {
            Route::SyncMessages
        } else if path == "/ws/messages"@ {
            Route::WsMessages
        } else if path == "/ws/sync/messages"@ {
            Route::WsSyncMessages
        } else {
            Route::NotFound
        }
    } else if method == "POST"@ {
        if path == "/setup/new"@ {
            Route::SetupNew
        } else if path == "/setup/delete"@ {
            Route::SetupDelete
        } else {
            Route::NotFound
        }
    } else if method == "PUT"@ {
        if path == "/sync/start"@ {
            Route::SyncStart
        } else if path == "/sync/stop"@ {
            Route::SyncStop
        } else {
            Route::NotFound
        }
    } else {
        Route::NotFound
    }
}

/// Routes a request.
pub fn route(method: &str, path: &str) -> (r: Route)
    ensures
        r == route_of(method@, path@),
{
    if str_eq(method, "GET") {
        if str_eq(path, "/") {
            Route::Index
        } else if str_eq(path, "/info") {
            Route::Info
        } else if str_eq(path, "/setup/list") {
            Route::SetupList
        } else if str_eq(path, "/setup/available") {
            Route::SetupAvailable
        } else if str_eq(path, "/messages") {
            Route::Messages
        } else if str_eq(path, "/sync/messages") {
            Route::SyncMessages
        } else if str_eq(path, "/ws/messages") {
            Route::WsMessages
        } else if str_eq(path, "/ws/sync/messages") {
            Route::WsSyncMessages
        } else {
            Route::NotFound
        }
    } else if str_eq(method, "POST") {
        if str_eq(path, "/setup/new") {
            Route::SetupNew
        } else if str_eq(path, "/setup/delete") {
            Route::SetupDelete
        } else {
            Route::NotFound
        }
    } else if str_eq(method, "PUT") {
        if str_eq(path, "/sync/start") {
            Route::SyncStart
        } else if str_eq(path, "/sync/stop") {
            Route::SyncStop
        } else {
            Route::NotFound
        }
    } else {
        Route::NotFound
    }
}

/// The unsigned integer `t` denotes, as `str::parse::<usize>` reads it: an
/// optional `+`, then one or more digits, within range.
pub open spec fn usize_text(t: Seq<char>) -> Option<usize> {
    let d = if t.len() > 0 && t[0] == '+' { t.drop_first() } else { t };
    if d.len() > 0 && all_digits(d) && digits_value(d) <= usize::MAX {
        Some(digits_value(d) as usize)
    } else {
        None
    }
}

/// Reads the `number` of a form.
pub fn parse_number(t: &str) -> (r: Option<usize>)
    ensures
        r == usize_text(t@),
{
    let n = t.unicode_len();
    let start: usize = if n > 0 && t.get_char(0) == '+' { 1 } else { 0 };
    let ghost d = t@.subrange(start as int, n as int);
    assert(start == 1 ==> d =~= t@.drop_first());
    assert(start == 0 ==> d =~= t@);
    if start >= n {
        return None;
    }
    let mut v: usize = 0;
    let mut i = start;
    while i < n
        invariant
            n == t@.len(),
            start <= i <= n,
            start < n,
            d == t@.subrange(start as int, n as int),
            start == 1 ==> d == t@.drop_first(),
            start == 0 ==> d == t@,
            (start == 1) == (t@[0] == '+'),
            start <= 1,
            all_digits(t@.subrange(start as int, i as int)),
            v as nat == digits_value(t@.subrange(start as int, i as int)),
        decreases n - i,
    {
        let c = t.get_char(i);
        if c < '0' || c > '9' {
            assert(d[i - start] == c);
            assert(!all_digits(d));
            return None;
        }
        let dv = (c as u32 - '0' as u32) as usize;
        assert(t@.subrange(start as int, i + 1).drop_last() =~= t@.subrange(start as int, i as int));
        assert(digits_value(t@.subrange(start as int, i + 1)) == v * 10 + dv);
        if v > (usize::MAX - dv) / 10 {
            proof {
                assert(v * 10 + dv > usize::MAX) by (nonlinear_arith)
                    requires
                        v > (usize::MAX - dv) / 10,
                        dv <= 9,
                ;
                if all_digits(d) {
                    assert(d.subrange(0, i + 1 - start) =~= t@.subrange(start as int, i + 1));
                    lemma_digits_monotone(d, i + 1 - start);
                }
            }
            return None;
        }
        v = v * 10 + dv;
        i = i + 1;
    }
    Some(v)
}

/// The work a POST hands to the background worker.
#[derive(PartialEq, Eq, Structural, Debug, Clone, Copy)]
pub enum Trigger {
    /// Provision the remote object numbered as given.
    SetupNew(usize),
    /// Delete the mirrored object numbered as given.
    SetupDelete(usize),
}

/// The answer to a POST: its status, and the work to enqueue if any.
#[derive(PartialEq, Eq, Structural, Debug, Clone, Copy)]
pub struct PostReply {
    pub status: u16,
    pub enqueue: Option<Trigger>,
}

/// Status of an accepted provisioning request.
pub const STATUS_CREATED: u16 = 201;
/// Status of an accepted deletion request.
pub const STATUS_OK: u16 = 200;
/// Status of a request whose form or object is not acceptable.
pub const STATUS_UNPROCESSABLE: u16 = 422;
/// Status of a request made before the listing it numbers into.
pub const STATUS_CONFLICT: u16 = 409;
/// Status of a request whose number selects nothing.
pub const STATUS_NOT_FOUND: u16 = 404;

/// The answer to `POST /setup/new`, given the form number and what a lookup
/// of the numbered object found: whether it is mirrored already, or why it
/// could not be looked up.
pub open spec fn setup_new_reply_of(number: Option<usize>, lookup: Result<bool, SetupError>) -> PostReply {
    match number {
        None => PostReply { status: STATUS_UNPROCESSABLE, enqueue: None },
        Some(n) => match lookup {
            Ok(true) => PostReply { status: STATUS_UNPROCESSABLE, enqueue: None },
            Ok(false) => PostReply { status: STATUS_CREATED, enqueue: Some(Trigger::SetupNew(n)) },
            Err(SetupError::CacheNotReady) => PostReply { status: STATUS_CONFLICT, enqueue: None },
            Err(SetupError::ObjectNotFound) => PostReply { status: STATUS_NOT_FOUND, enqueue: None },
        },
    }
}

/// Answers `POST /setup/new`.
pub fn setup_new_reply(number: Option<usize>, lookup: Result<bool, SetupError>) -> (r: PostReply)
    ensures
        r == setup_new_reply_of(number, lookup),
{
    match number {
        None => PostReply { status: STATUS_UNPROCESSABLE, enqueue: None },
        Some(n) => match lookup {
            Ok(true) => PostReply { status: STATUS_UNPROCESSABLE, enqueue: None },
            Ok(false) => PostReply { status: STATUS_CREATED, enqueue: Some(Trigger::SetupNew(n)) },
            Err(SetupError::CacheNotReady) => PostReply { status: STATUS_CONFLICT, enqueue: None },
            Err(SetupError::ObjectNotFound) => PostReply { status: STATUS_NOT_FOUND, enqueue: None },
        },
    }
}

/// Answers `POST /setup/delete`: a readable number is enqueued.
pub fn setup_delete_reply(number: Option<usize>) -> (r: PostReply)
    ensures
        r == (match number {
            None => PostReply { status: STATUS_UNPROCESSABLE, enqueue: None },
            Some(n) => PostReply { status: STATUS_OK, enqueue: Some(Trigger::SetupDelete(n)) },
        }),
{
    match number {
        None => PostReply { status: STATUS_UNPROCESSABLE, enqueue: None },
        Some(n) => PostReply { status: STATUS_OK, enqueue: Some(Trigger::SetupDelete(n)) },
    }
}

/// The keepalive frame sent on every tick.
pub open spec fn keepalive() -> Seq<char> {
    "{}"@
}

/// The frames a WebSocket subscriber is sent on one tick: every pending
/// message in order, then the keepalive.
pub fn ws_tick_frames(pending: Vec<String>) -> (r: Vec<String>)
    ensures
        r@.len() == pending@.len() + 1,
        r@.subrange(0, pending@.len() as int) == pending@,
        r@.last()@ == keepalive(),
{
    let mut frames = pending;
    frames.push(String::from_str("{}"));
    frames
}

/// With no message pending a tick sends exactly the keepalive, and with a
/// burst pending every message of it goes out on that tick, before the
/// keepalive.
pub proof fn lemma_ws_liveness(pending: Seq<String>, frames: Seq<String>)
    requires
        frames.len() == pending.len() + 1,
        frames.subrange(0, pending.len() as int) == pending,
        frames.last()@ == keepalive(),
    ensures
        pending.len() == 0 ==> frames.len() == 1 && frames[0]@ == keepalive(),
        forall|i: int| 0 <= i < pending.len() ==> #[trigger] frames[i] == pending[i],
{
    assert forall|i: int| 0 <= i < pending.len() implies #[trigger] frames[i] == pending[i] by {
        assert(frames.subrange(0, pending.len() as int)[i] == frames[i]);
    }
}

} // verus!
