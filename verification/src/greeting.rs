//! The handler of the greeting endpoint, as a script.
//!
//! Answering `GET /api/hello` is three pieces of outside work in a fixed
//! order: wait, read one row, reply with it. The caller does the work and
//! reports each result; `hello_step` says what comes next.

use crate::model::Message;
use vstd::prelude::*;

verus! {

/// How long a request is held before the table is read, in seconds.
pub const HELLO_DELAY_SECONDS: u64 = 5;

/// The statement that reads the greeting: at most one row, whatever the
/// table holds.
pub open spec fn hello_query() -> Seq<char> {
    "SELECT id, text FROM messages LIMIT 1"@
}

/// What the caller reports to the script.
#[derive(Clone, Debug)]
pub enum HelloEvent {
    /// A request has arrived.
    Received,
    /// The wait is over.
    DelayElapsed,
    /// The statement gave this row.
    RowFetched(Message),
    /// The statement gave no row, or the database failed.
    QueryFailed,
}

/// What the caller has to do next.
#[derive(Clone, Debug)]
pub enum HelloAction {
    /// Hold the request for this many seconds, then report `DelayElapsed`.
    Wait(u64),
    /// Run this statement for one row and report the result.
    Query(&'static str),
    /// Answer 200 with this message as the body.
    Reply(Message),
    /// Give the request up without an answer.
    Abort,
}

/// Whether `action` is what `hello_step` gives for `event`.
pub open spec fn hello_outcome(event: HelloEvent, action: HelloAction) -> bool {
    match event {
        HelloEvent::Received => action == HelloAction::Wait(HELLO_DELAY_SECONDS),
        HelloEvent::DelayElapsed => action matches HelloAction::Query(statement) && statement@
            == hello_query(),
        HelloEvent::RowFetched(row) => action == HelloAction::Reply(row),
        HelloEvent::QueryFailed => action == HelloAction::Abort,
    }
}

/// The next piece of work after an event. A request is first held for
/// `HELLO_DELAY_SECONDS`; only when that wait is over is the table read;
/// the row that was read is the reply, unchanged.
pub fn hello_step(event: HelloEvent) -> (action: HelloAction)
    ensures
        hello_outcome(event, action),
{
    match event {
        HelloEvent::Received => HelloAction::Wait(HELLO_DELAY_SECONDS),
        HelloEvent::DelayElapsed => HelloAction::Query("SELECT id, text FROM messages LIMIT 1"),
        HelloEvent::RowFetched(row) => HelloAction::Reply(row),
        HelloEvent::QueryFailed => HelloAction::Abort,
    }
}

/// The table is read only after the wait, and a reply only repeats a row
/// that was read: no other event leads to either.
pub proof fn hello_order(event: HelloEvent, action: HelloAction)
    requires
        hello_outcome(event, action),
    ensures
        action is Query <==> event is DelayElapsed,
        action is Wait <==> event is Received,
        action is Reply <==> event is RowFetched,
        action is Abort <==> event is QueryFailed,
        action matches HelloAction::Reply(message) ==> event == HelloEvent::RowFetched(message),
{
}

} // verus!
