//! The request pipeline: authenticate, check existence where the route
//! mutates, run the repository operation, and map its outcome to a status.
use crate::auth::{accepted, Credentials};
use crate::models::{newest_first, NewRustacean, RepoError, Rustacean};
use crate::repositories::RustaceanRepository;
use diesel::sqlite::SqliteConnection;
use vstd::prelude::*;
use vstd::string::StringSliceAdditionalSpecFns;

verus! {

pub const OK: u16 = 200;
pub const NO_CONTENT: u16 = 204;
pub const UNAUTHORIZED: u16 = 401;
pub const NOT_FOUND: u16 = 404;
pub const UNPROCESSABLE_ENTITY: u16 = 422;
pub const INTERNAL_SERVER_ERROR: u16 = 500;

/// The most rows the listing route returns.
pub const LIST_LIMIT: i64 = 1000;

/// What a response carries: a record, a list of records, an error text, or
/// nothing.
#[derive(Clone, Debug)]
pub enum Reply {
    Record(Rustacean),
    Records(Vec<Rustacean>),
    Message(String),
    Empty,
}

/// A status code and what goes with it.
#[derive(Clone, Debug)]
pub struct Response {
    pub status: u16,
    pub reply: Reply,
}

/// A parsed request on the `/rustaceans` resource.
#[derive(Clone, Debug)]
pub enum Request {
    /// `GET /rustaceans`
    List,
    /// `GET /rustaceans/<id>`
    View(i32),
    /// `POST /rustaceans`
    Create(NewRustacean),
    /// `PUT /rustaceans/<id>`
    Update(i32, Rustacean),
    /// `DELETE /rustaceans/<id>`
    Delete(i32),
}

pub open spec fn missing_message() -> Seq<char> {
    "Rustacean not found"@
}

/// The status an error maps to on a route that answers a missing row with
/// `not_found`.
pub open spec fn error_status(e: RepoError, not_found: u16) -> u16 {
    match e {
        RepoError::NotFound => not_found,
        RepoError::Storage(_) => INTERNAL_SERVER_ERROR,
    }
}

/// The text an error is reported with.
pub open spec fn error_text(e: RepoError) -> Seq<char> {
    match e {
        RepoError::NotFound => missing_message(),
        RepoError::Storage(m) => m@,
    }
}

/// The message of a response, if it carries one.
pub open spec fn message_is(r: Response, status: u16, text: Seq<char>) -> bool {
    r.status == status && (r.reply matches Reply::Message(m) && m@ == text)
}

/// Whether the request presented exactly the configured credentials.
pub open spec fn authorized(creds: Credentials, authorization: Option<&str>) -> bool {
    authorization matches Some(h) && accepted(creds, h.spec_bytes())
}

fn missing() -> (r: String)
    ensures
        r@ == missing_message(),
{
    proof {
        reveal_strlit("Rustacean not found");
    }
    "Rustacean not found".to_owned()
}

/// Maps a repository outcome to a response: `success` with the value, the
/// `not_found` status for a missing row, 500 for any other store failure.
/// A store failure passes the store's own text on to the client, which a
/// hardened deployment would replace with a fixed message.
pub fn respond(r: Result<Reply, RepoError>, success: u16, not_found: u16) -> (out: Response)
    ensures
        match r {
            Ok(reply) => out == (Response { status: success, reply }),
            Err(e) => message_is(out, error_status(e, not_found), error_text(e)),
        },
{
    match r {
        Ok(reply) => Response { status: success, reply },
        Err(RepoError::NotFound) => Response { status: not_found, reply: Reply::Message(missing()) },
        Err(RepoError::Storage(m)) => Response { status: INTERNAL_SERVER_ERROR, reply: Reply::Message(m) },
    }
}

/// The existence check run before a write: `None` when the row was found and
/// the write may go ahead; otherwise the response that ends the request, 404
/// for a missing row and 500 with the store's text for any other failure.
pub fn existence_checked(found: Result<Rustacean, RepoError>) -> (r: Option<Response>)
    ensures
        found is Ok ==> r is None,
        found matches Err(RepoError::NotFound) ==> (r matches Some(resp) && message_is(resp, NOT_FOUND, missing_message())),
        found matches Err(RepoError::Storage(m)) ==> (r matches Some(resp) && message_is(resp, INTERNAL_SERVER_ERROR, m@)),
{
    match found {
        Ok(_) => None,
        Err(e) => Some(respond(Err(e), OK, NOT_FOUND)),
    }
}

/// Fallback for requests rejected by the authentication guard.
pub fn unauthorized() -> (r: Response)
    ensures
        message_is(r, UNAUTHORIZED, "Unauthorized"@),
{
    proof {
        reveal_strlit("Unauthorized");
    }
    Response { status: UNAUTHORIZED, reply: Reply::Message("Unauthorized".to_owned()) }
}

/// Fallback for paths that match no route.
pub fn not_found() -> (r: Response)
    ensures
        message_is(r, NOT_FOUND, "Not found!"@),
{
    proof {
        reveal_strlit("Not found!");
    }
    Response { status: NOT_FOUND, reply: Reply::Message("Not found!".to_owned()) }
}

/// Fallback for request bodies that do not parse.
pub fn unprocessable_entity() -> (r: Response)
    ensures
        message_is(r, UNPROCESSABLE_ENTITY, "Unprocessable Entity: Invalid input data"@),
{
    proof {
        reveal_strlit("Unprocessable Entity: Invalid input data");
    }
    Response {
        status: UNPROCESSABLE_ENTITY,
        reply: Reply::Message("Unprocessable Entity: Invalid input data".to_owned()),
    }
}

/// Fallback for failures no route mapped.
pub fn internal_server_error() -> (r: Response)
    ensures
        message_is(r, INTERNAL_SERVER_ERROR, "Internal Server Error: Database connection error"@),
{
    proof {
        reveal_strlit("Internal Server Error: Database connection error");
    }
    Response {
        status: INTERNAL_SERVER_ERROR,
        reply: Reply::Message("Internal Server Error: Database connection error".to_owned()),
    }
}

/// A response the routes may give for `req` once the guard has let it
/// through: the success each route promises, or an error text with the
/// statuses that route can fail with.
pub open spec fn route_response(req: Request, out: Response) -> bool {
    let failed = out.status == INTERNAL_SERVER_ERROR && out.reply is Message;
    let missing = message_is(out, NOT_FOUND, missing_message());
    match req {
        Request::List => failed || (out.status == OK && (out.reply matches Reply::Records(v)
            && v.len() <= LIST_LIMIT && newest_first(v@))),
        Request::View(id) => failed || (out.status == NOT_FOUND && out.reply is Message) || (out.status
            == OK && (out.reply matches Reply::Record(row) && row.id == id)),
        Request::Create(n) => failed || (out.status == OK && (out.reply matches Reply::Record(row)
            && row.name@ == n.name@ && row.email@ == n.email@)),
        Request::Update(id, rec) => failed || missing || (out.status == OK && (out.reply matches Reply::Record(
            row) && row.id == id && row.name@ == rec.name@ && row.email@ == rec.email@)),
        Request::Delete(_) => failed || missing || (out.status == NO_CONTENT && out.reply is Empty),
    }
}

/// Runs one authenticated request against the store.
pub fn route(c: &mut SqliteConnection, req: Request) -> (out: Response)
    ensures
        route_response(req, out),
{
    match req {
        Request::List => {
            let r = RustaceanRepository::find_multiple(c, LIST_LIMIT);
            match r {
                Ok(rows) => respond(Ok(Reply::Records(rows)), OK, INTERNAL_SERVER_ERROR),
                Err(e) => respond(Err(e), OK, INTERNAL_SERVER_ERROR),
            }
        },
        Request::View(id) => {
            match RustaceanRepository::find(c, id) {
                Ok(row) => respond(Ok(Reply::Record(row)), OK, NOT_FOUND),
                Err(e) => respond(Err(e), OK, NOT_FOUND),
            }
        },
        Request::Create(n) => {
            match RustaceanRepository::create(c, n) {
                Ok(row) => respond(Ok(Reply::Record(row)), OK, INTERNAL_SERVER_ERROR),
                Err(e) => respond(Err(e), OK, INTERNAL_SERVER_ERROR),
            }
        },
        Request::Update(id, rec) => {
            if let Some(stop) = existence_checked(RustaceanRepository::find(c, id)) {
                return stop;
            }
            match RustaceanRepository::update(c, id, rec) {
                Ok(row) => respond(Ok(Reply::Record(row)), OK, INTERNAL_SERVER_ERROR),
                Err(e) => respond(Err(e), OK, INTERNAL_SERVER_ERROR),
            }
        },
        Request::Delete(id) => {
            if let Some(stop) = existence_checked(RustaceanRepository::find(c, id)) {
                return stop;
            }
            match RustaceanRepository::delete(c, id) {
                Ok(_) => respond(Ok(Reply::Empty), NO_CONTENT, INTERNAL_SERVER_ERROR),
                Err(e) => respond(Err(e), NO_CONTENT, INTERNAL_SERVER_ERROR),
            }
        },
    }
}

/// The whole pipeline for one request: a request without exactly the
/// configured Basic credentials gets 401 and never reaches the store;
/// any other is routed.
pub fn handle(c: &mut SqliteConnection, creds: &Credentials, authorization: Option<&str>, req: Request) -> (out: Response)
    ensures
        !authorized(*creds, authorization) ==> message_is(out, UNAUTHORIZED, "Unauthorized"@) && *final(c)
            == *old(c),
        authorized(*creds, authorization) ==> route_response(req, out),
{
    match creds.authenticate(authorization) {
        Some(_) => route(c, req),
        None => unauthorized(),
    }
}

} // verus!
