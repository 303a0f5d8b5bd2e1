//! The request handling decisions: routing, validation, the store call and
//! the choice of response envelope. Reading the request and writing the
//! response are the glue layer's work; everything between them is here,
//! verified against the store's model.

use vstd::prelude::*;

use crate::cache::Cache;
use crate::cache::CacheError;
use crate::model::after_put;
use crate::model::byte_len;
use crate::model::has_key;
use crate::model::value_of;
use crate::models::ErrorResponse;
use crate::models::GetResponse;
use crate::models::PutRequest;
use crate::models::PutResponse;

verus! {

/// Where a request is dispatched, by its method and path.
#[derive(Debug, Clone, Copy, PartialEq, Eq, Structural)]
pub enum Route {
    Put,
    Get,
    Health,
    MethodNotAllowed,
    NotFound,
}

/// Dispatches a request: `POST /put` and `GET /get` reach the store, any
/// method on `/` is the health check, a wrong method on a known path is
/// refused, and everything else is not found.
pub fn route(method: &String, path: &String) -> (r: Route)
    ensures
        path@ == "/"@ ==> r == Route::Health,
        path@ == "/put"@ && method@ == "POST"@ ==> r == Route::Put,
        path@ == "/put"@ && method@ != "POST"@ ==> r == Route::MethodNotAllowed,
        path@ == "/get"@ && method@ == "GET"@ ==> r == Route::Get,
        path@ == "/get"@ && method@ != "GET"@ ==> r == Route::MethodNotAllowed,
        path@ != "/"@ && path@ != "/put"@ && path@ != "/get"@ ==> r == Route::NotFound,
{
    proof {
        reveal_strlit("/");
        reveal_strlit("/put");
        reveal_strlit("/get");
        assert("/"@.len() == 1);
        assert("/put"@.len() == 4);
        assert("/get"@.len() == 4);
        assert("/put"@[1] == 'p');
        assert("/get"@[1] == 'g');
    }
    let root = "/".to_owned();
    let put_path = "/put".to_owned();
    let get_path = "/get".to_owned();
    if *path == root {
        Route::Health
    } else if *path == put_path {
        let post = "POST".to_owned();
        if *method == post {
            Route::Put
        } else {
            Route::MethodNotAllowed
        }
    } else if *path == get_path {
        let get_method = "GET".to_owned();
        if *method == get_method {
            Route::Get
        } else {
            Route::MethodNotAllowed
        }
    } else {
        Route::NotFound
    }
}

/// The input without leading and trailing whitespace; a function of the
/// characters alone. It is empty exactly when the input is all whitespace.
pub uninterp spec fn trim_of(s: Seq<char>) -> Seq<char>;

/// Relies on `str::trim`: it returns the input with leading and trailing
/// whitespace removed.
#[verifier::external_body]
fn trim<'a>(s: &'a str) -> (r: &'a str)
    ensures
        r@ == trim_of(s@),
{
    s.trim()
}

/// The response to a `POST /put` request.
pub enum PutReply {
    /// The entry was stored; served with HTTP status 200.
    Success(PutResponse),
    /// The request was rejected; served with HTTP status 400.
    Invalid(ErrorResponse),
}

/// The response to a `GET /get` request.
pub enum GetReply {
    /// The key was found; served with HTTP status 200.
    Found(GetResponse),
    /// The key was absent: an ERROR envelope, still HTTP status 200.
    Missing(ErrorResponse),
    /// The key parameter was missing or blank; served with HTTP status 400.
    Invalid(ErrorResponse),
}

/// The HTTP status code a `PutReply` is served with.
pub fn put_reply_status(r: &PutReply) -> (c: u16)
    ensures
        *r is Success ==> c == 200,
        *r is Invalid ==> c == 400,
{
    match r {
        PutReply::Success(_) => 200,
        PutReply::Invalid(_) => 400,
    }
}

/// The HTTP status code a `GetReply` is served with: a miss is not an HTTP
/// error, only a blank key is.
pub fn get_reply_status(r: &GetReply) -> (c: u16)
    ensures
        *r is Found ==> c == 200,
        *r is Missing ==> c == 200,
        *r is Invalid ==> c == 400,
{
    match r {
        GetReply::Found(_) => 200,
        GetReply::Missing(_) => 200,
        GetReply::Invalid(_) => 400,
    }
}

/// Handles a parsed `POST /put` request: a blank key is rejected before the
/// store is touched; otherwise the store decides, and the reply carries the
/// exact envelope the outcome calls for.
pub fn handle_put(store: &mut Cache, req: PutRequest) -> (r: PutReply)
    requires
        old(store).wf(),
    ensures
        final(store).wf(),
        final(store).same_limits(old(store)),
        trim_of(req.key@).len() == 0 ==> (r matches PutReply::Invalid(e) && e.status@ == "ERROR"@
            && e.message@ == "Key cannot be empty"@) && final(store)@ == old(store)@,
        trim_of(req.key@).len() > 0 && byte_len(req.key@) > old(store).key_limit() ==> (
        r matches PutReply::Invalid(e) && e.status@ == "ERROR"@ && e.message@
            == "Key exceeds maximum length (256 characters)"@) && final(store)@ == old(store)@,
        trim_of(req.key@).len() > 0 && byte_len(req.key@) <= old(store).key_limit() && byte_len(
            req.value@,
        ) > old(store).value_limit() ==> (r matches PutReply::Invalid(e) && e.status@ == "ERROR"@
            && e.message@ == "Value exceeds maximum length (256 characters)"@) && final(store)@
            == old(store)@,
        trim_of(req.key@).len() > 0 && byte_len(req.key@) <= old(store).key_limit() && byte_len(
            req.value@,
        ) <= old(store).value_limit() ==> (r matches PutReply::Success(p) && p.status@ == "OK"@
            && p.message@ == "Key inserted/updated successfully."@) && final(store)@ == after_put(
            old(store)@,
            req.key@,
            req.value@,
        ),
{
    let PutRequest { key, value } = req;
    if trim(key.as_str()).is_empty() {
        return PutReply::Invalid(
            ErrorResponse {
                status: "ERROR".to_owned(),
                message: "Key cannot be empty".to_owned(),
            },
        );
    }
    match store.put(key, value) {
        Ok(_) => PutReply::Success(
            PutResponse {
                status: "OK".to_owned(),
                message: "Key inserted/updated successfully.".to_owned(),
            },
        ),
        Err(CacheError::KeyTooLarge) => PutReply::Invalid(
            ErrorResponse {
                status: "ERROR".to_owned(),
                message: "Key exceeds maximum length (256 characters)".to_owned(),
            },
        ),
        Err(CacheError::ValueTooLarge) => PutReply::Invalid(
            ErrorResponse {
                status: "ERROR".to_owned(),
                message: "Value exceeds maximum length (256 characters)".to_owned(),
            },
        ),
        Err(CacheError::KeyNotFound) => vstd::pervasive::unreached(),
    }
}

/// Handles a `GET /get` request once the glue layer has extracted the key
/// parameter (an absent parameter arrives as the empty string): a blank key
/// is rejected; a hit returns the value and refreshes the entry's recency;
/// a miss is reported in a normal envelope, not as an HTTP error.
pub fn handle_get(store: &mut Cache, key: String) -> (r: GetReply)
    requires
        old(store).wf(),
    ensures
        final(store).wf(),
        final(store).same_limits(old(store)),
        trim_of(key@).len() == 0 ==> (r matches GetReply::Invalid(e) && e.status@ == "ERROR"@
            && e.message@ == "Key parameter is missing"@) && final(store)@ == old(store)@,
        trim_of(key@).len() > 0 && has_key(old(store)@, key@) ==> (r matches GetReply::Found(g)
            && g.status@ == "OK"@ && g.key@ == key@ && g.value@ == value_of(old(store)@, key@)
            && g.message@ == "Key retrieved successfully."@) && final(store)@ == after_put(
            old(store)@,
            key@,
            value_of(old(store)@, key@),
        ),
        trim_of(key@).len() > 0 && !has_key(old(store)@, key@) ==> (
        r matches GetReply::Missing(e) && e.status@ == "ERROR"@ && e.message@ == "Key not found."@)
            && final(store)@ == old(store)@,
{
    if trim(key.as_str()).is_empty() {
        return GetReply::Invalid(
            ErrorResponse {
                status: "ERROR".to_owned(),
                message: "Key parameter is missing".to_owned(),
            },
        );
    }
    match store.get(key.as_str()) {
        Ok(value) => GetReply::Found(
            GetResponse {
                status: "OK".to_owned(),
                key,
                value,
                message: "Key retrieved successfully.".to_owned(),
            },
        ),
        Err(CacheError::KeyNotFound) => GetReply::Missing(
            ErrorResponse {
                status: "ERROR".to_owned(),
                message: "Key not found.".to_owned(),
            },
        ),
        Err(CacheError::KeyTooLarge) => vstd::pervasive::unreached(),
        Err(CacheError::ValueTooLarge) => vstd::pervasive::unreached(),
    }
}

} // verus!
