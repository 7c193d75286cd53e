//! Request handling as a state machine: each request becomes at most one
//! store call, and the call's outcome becomes the reply.
use vstd::prelude::*;

use crate::clock::{kolkata_stamp, stamp_at, LAST_STAMPED_SECOND};
use crate::message::{records, FetchedMessage, Record, StoreError};
use crate::store::{delete_mesg, fetch_all, insert_data, MessageTable};

verus! {

/// The one path id that opens the message listing.
pub const LIST_ACCESS_ID: i32 = 121121;

/// An incoming request, already matched to its route.
pub enum Request {
    /// `GET /`: the submission form.
    Home,
    /// `POST /submit` with the form's `message` field.
    Submit { message: String },
    /// `GET /messages/{id}`.
    List { id: i32 },
    /// `POST /delete_mesg/{id}`.
    Delete { id: i32 },
    /// Any other route.
    Unmatched,
}

/// The single store operation that a request asks for.
pub enum StoreCall {
    Insert { timestamp: String, message: String },
    FetchAll,
    Remove { id: i32 },
}

/// What a store operation came back with.
pub enum Outcome {
    Done,
    Rows(Vec<FetchedMessage>),
    Failed(StoreError),
}

/// The page a reply shows; rendering it is left to the caller.
pub enum Page {
    Form,
    ServerError,
    DeleteFailed,
    NotFound,
    Listing(Vec<FetchedMessage>),
}

/// The HTTP reply to a request.
pub enum Reply {
    /// A `302 Found` redirect.
    Found { location: String },
    /// A page with the given status code.
    Show { status: u16, page: Page },
}

/// What to do next with a request: call the store, or reply at once.
pub enum Step {
    Call(StoreCall),
    Respond(Reply),
}

/// Where a submission, and a denied listing request, are redirected.
pub open spec fn root_location() -> Seq<char> {
    "/"@
}

/// Where a delete is redirected: the listing under the access id.
pub open spec fn listing_location() -> Seq<char> {
    "/messages/121121"@
}

/// A `302` redirect to `location`.
pub open spec fn redirects_to(r: Reply, location: Seq<char>) -> bool {
    r matches Reply::Found { location: l } && l@ == location
}

/// A `200` page with the submission form.
pub open spec fn shows_form(r: Reply) -> bool {
    r matches Reply::Show { status, page } && status == 200 && page is Form
}

/// A `500` page with the generic server error.
pub open spec fn shows_server_error(r: Reply) -> bool {
    r matches Reply::Show { status, page } && status == 500 && page is ServerError
}

/// A `500` reply saying that a delete failed.
pub open spec fn shows_delete_failed(r: Reply) -> bool {
    r matches Reply::Show { status, page } && status == 500 && page is DeleteFailed
}

/// A `404` page.
pub open spec fn shows_not_found(r: Reply) -> bool {
    r matches Reply::Show { status, page } && status == 404 && page is NotFound
}

/// A `200` page listing exactly `rows`, in order.
pub open spec fn shows_listing(r: Reply, rows: Seq<Record>) -> bool {
    r matches Reply::Show { status, page: Page::Listing(v) } && status == 200 && records(v@) == rows
}

fn redirect(location: &str) -> (r: Reply)
    ensures
        redirects_to(r, location@),
{
    Reply::Found { location: location.to_owned() }
}

fn show(status: u16, page: Page) -> (r: Reply)
    ensures
        r == (Reply::Show { status, page }),
{
    Reply::Show { status, page }
}

/// The step for a submission, given the stamp that was computed for it (or
/// `None` when no stamp could be made): insert the text under that stamp, or
/// reply with a server error.
pub fn submit_step(stamp: Option<String>, message: String) -> (st: Step)
    ensures
        match stamp {
            Some(t) => st matches Step::Call(StoreCall::Insert { timestamp, message: m }) && timestamp@
                == t@ && m@ == message@,
            None => st matches Step::Respond(r) && shows_server_error(r),
        },
{
    match stamp {
        Some(t) => Step::Call(StoreCall::Insert { timestamp: t, message }),
        None => Step::Respond(show(500, Page::ServerError)),
    }
}

/// The first step of a request: either the one store call it needs, or its
/// reply when it needs none. A listing request with any id but the access id
/// is redirected to the root without touching the store.
pub fn begin(req: Request, now_secs: i64) -> (st: Step)
    ensures
        req is Home ==> (st matches Step::Respond(r) && shows_form(r)),
        req is Unmatched ==> (st matches Step::Respond(r) && shows_not_found(r)),
        req matches Request::List { id } && id == LIST_ACCESS_ID ==> st matches Step::Call(
            StoreCall::FetchAll,
        ),
        req matches Request::List { id } && id != LIST_ACCESS_ID ==> (st matches Step::Respond(r)
            && redirects_to(r, root_location())),
        req matches Request::Delete { id } ==> (st matches Step::Call(StoreCall::Remove { id: d })
            && d == id),
        req matches Request::Submit { message } ==> {
            ||| st matches Step::Call(StoreCall::Insert { timestamp, message: m }) && timestamp@
                == kolkata_stamp(now_secs as int) && m@ == message@
            ||| st matches Step::Respond(r) && shows_server_error(r) && !(0 <= now_secs
                <= LAST_STAMPED_SECOND)
        },
{
    match req {
        Request::Home => Step::Respond(show(200, Page::Form)),
        Request::Submit { message } => submit_step(stamp_at(now_secs), message),
        Request::List { id } => {
            if id == LIST_ACCESS_ID {
                Step::Call(StoreCall::FetchAll)
            } else {
                Step::Respond(redirect("/"))
            }
        },
        Request::Delete { id } => Step::Call(StoreCall::Remove { id }),
        Request::Unmatched => Step::Respond(show(404, Page::NotFound)),
    }
}

/// The reply to a request once its store call has come back.
pub fn finish(call: &StoreCall, outcome: Outcome) -> (r: Reply)
    ensures
        call is Insert ==> if outcome is Done {
            redirects_to(r, root_location())
        } else {
            shows_server_error(r)
        },
        call is FetchAll ==> match outcome {
            Outcome::Rows(v) => shows_listing(r, records(v@)),
            _ => shows_server_error(r),
        },
        call is Remove ==> if outcome is Done {
            redirects_to(r, listing_location())
        } else {
            shows_delete_failed(r)
        },
{
    match call {
        StoreCall::Insert { .. } => match outcome {
            Outcome::Done => redirect("/"),
            _ => show(500, Page::ServerError),
        },
        StoreCall::FetchAll => match outcome {
            Outcome::Rows(v) => show(200, Page::Listing(v)),
            _ => show(500, Page::ServerError),
        },
        StoreCall::Remove { .. } => match outcome {
            Outcome::Done => redirect("/messages/121121"),
            _ => show(500, Page::DeleteFailed),
        },
    }
}

/// Runs one store call against a table.
pub fn perform(table: &mut MessageTable, call: &StoreCall) -> (out: Outcome)
    requires
        old(table)@.wf(),
    ensures
        final(table)@.wf(),
        call matches StoreCall::Insert { timestamp, message } ==> if old(table)@.has_room() {
            out is Done && final(table)@ == old(table)@.inserted(timestamp@, message@)
        } else {
            out matches Outcome::Failed(e) && e is IdsExhausted && final(table)@ == old(table)@
        },
        call is FetchAll ==> (out matches Outcome::Rows(v) && records(v@) == old(table)@.rows
            && final(table)@ == old(table)@),
        call matches StoreCall::Remove { id } ==> (out is Done && final(table)@ == old(
            table,
        )@.deleted(id as int)),
{
    match call {
        StoreCall::Insert { timestamp, message } => match insert_data(table, timestamp.as_str(), message.as_str()) {
            Ok(()) => Outcome::Done,
            Err(e) => Outcome::Failed(e),
        },
        StoreCall::FetchAll => Outcome::Rows(fetch_all(table)),
        StoreCall::Remove { id } => {
            delete_mesg(table, *id);
            Outcome::Done
        },
    }
}

/// Serves one request against a table: at most one store call, then the
/// reply. A listing request with any id but the access id is redirected to
/// the root; it leaves the table as it was and shows nothing of it.
pub fn handle(table: &mut MessageTable, req: Request, now_secs: i64) -> (r: Reply)
    requires
        old(table)@.wf(),
    ensures
        final(table)@.wf(),
        req is Home ==> (shows_form(r) && final(table)@ == old(table)@),
        req is Unmatched ==> (shows_not_found(r) && final(table)@ == old(table)@),
        req matches Request::List { id } && id != LIST_ACCESS_ID ==> (redirects_to(r, root_location())
            && final(table)@ == old(table)@),
        req matches Request::List { id } && id == LIST_ACCESS_ID ==> (shows_listing(r, old(table)@.rows)
            && final(table)@ == old(table)@),
        req matches Request::Delete { id } ==> (redirects_to(r, listing_location()) && final(table)@
            == old(table)@.deleted(id as int)),
        req matches Request::Submit { message } ==> {
            ||| old(table)@.has_room() && final(table)@ == old(table)@.inserted(
                kolkata_stamp(now_secs as int),
                message@,
            ) && redirects_to(r, root_location())
            ||| final(table)@ == old(table)@ && shows_server_error(r) && (!old(table)@.has_room() || !(0
                <= now_secs <= LAST_STAMPED_SECOND))
        },
{
    match begin(req, now_secs) {
        Step::Respond(r) => r,
        Step::Call(call) => {
            let out = perform(table, &call);
            finish(&call, out)
        },
    }
}

} // verus!
