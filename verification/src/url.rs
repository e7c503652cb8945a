//! The management handlers and the public redirect resolver. Each handler
//! validates its input, performs at most one store operation, and maps the
//! outcome onto exactly one response; the mapping from store outcome to
//! response stands alone so that a deployment whose store runs elsewhere can
//! reuse it unchanged.

use vstd::prelude::*;
use vstd::string::StrSliceExecFns;
use vstd::string::StringExecFns;

use crate::api::{
    envelope_is, is_err_envelope, is_success_envelope, ApiResponse, GenericResponse, HttpStatus,
};
use crate::store::{create_map, create_ok, delete_map, delete_ok, fetch_of, Error, Store, Url};

verus! {

/// A short id may not exceed this many characters.
pub const MAX_SHORT_LEN: usize = 20;

/// A target URL may not exceed this many characters.
pub const MAX_TARGET_URL_LEN: usize = 500;

/// Characters that may appear in an HTTP header value: horizontal tab and
/// everything except the other control characters. Characters beyond ASCII
/// encode to bytes that a header value accepts.
pub open spec fn valid_header_char(c: char) -> bool {
    c == '\t' || (c as u32 >= 32 && c as u32 != 127)
}

/// Whether a target URL can be sent as the value of a location header.
pub open spec fn valid_redirect_target(s: Seq<char>) -> bool {
    forall|i: int| 0 <= i < s.len() ==> valid_header_char(s[i])
}

/// Decides `valid_redirect_target` for a target URL.
pub fn is_valid_redirect_target(s: &str) -> (r: bool)
    ensures
        r == valid_redirect_target(s@),
{
    let n = s.unicode_len();
    for i in 0..n
        invariant
            n == s@.len(),
            forall|j: int| 0 <= j < i ==> valid_header_char(s@[j]),
    {
        let c = s.get_char(i);
        if !(c == '\t' || (c as u32 >= 32 && c as u32 != 127)) {
            assert(!valid_header_char(s@[i as int]));
            return false;
        }
    }
    true
}

/// What `validate_create` answers for `body`: the first bound exceeded, in
/// the order short id then target URL, or nothing when both hold.
pub open spec fn validate_create_post(
    body: Url,
    r: Option<(HttpStatus, GenericResponse)>,
) -> bool {
    if body.short@.len() > MAX_SHORT_LEN {
        match r {
            Some(p) => p.0 == HttpStatus::PayloadTooLarge && envelope_is(
                p.1,
                false,
                "Could not create short url"@,
                Some("The short ID may not exceed 20 characters"@),
            ),
            None => false,
        }
    } else if body.target_url@.len() > MAX_TARGET_URL_LEN {
        match r {
            Some(p) => p.0 == HttpStatus::PayloadTooLarge && envelope_is(
                p.1,
                false,
                "Could not create short url"@,
                Some("The target URL may not exceed 500 characters"@),
            ),
            None => false,
        }
    } else {
        r is None
    }
}

/// Checks the declared bounds on a mapping about to be created, before any
/// store is touched. `None` means the input is acceptable; `Some` carries
/// the response that rejects it, naming the bound exceeded.
pub fn validate_create(body: &Url) -> (r: Option<(HttpStatus, GenericResponse)>)
    ensures
        validate_create_post(*body, r),
{
    if body.short.as_str().unicode_len() > MAX_SHORT_LEN {
        return Some((
            HttpStatus::PayloadTooLarge,
            GenericResponse::err(
                "Could not create short url",
                "The short ID may not exceed 20 characters",
            ),
        ));
    }
    if body.target_url.as_str().unicode_len() > MAX_TARGET_URL_LEN {
        return Some((
            HttpStatus::PayloadTooLarge,
            GenericResponse::err(
                "Could not create short url",
                "The target URL may not exceed 500 characters",
            ),
        ));
    }
    None
}

/// The envelope a `Create` store outcome is answered with.
pub open spec fn create_outcome_post(
    outcome: Result<(), Error>,
    status: HttpStatus,
    body: GenericResponse,
) -> bool {
    match outcome {
        Ok(_) => status == HttpStatus::Success && envelope_is(
            body,
            true,
            "Successfully created short URL"@,
            None,
        ),
        Err(e) => if e == Error::ShortExists {
            status == HttpStatus::UnprocessableEntity && envelope_is(
                body,
                false,
                "Could not create short URL"@,
                Some("This short id is already taken"@),
            )
        } else {
            status == HttpStatus::InternalServerError && envelope_is(
                body,
                false,
                "Could not create short URL"@,
                Some("Database failure"@),
            )
        },
    }
}

/// Maps the outcome of the store's `create_url` onto the response that
/// answers the request: conflict is named, every other failure stays an
/// opaque storage failure.
pub fn create_response(outcome: Result<(), Error>) -> (r: (HttpStatus, GenericResponse))
    ensures
        create_outcome_post(outcome, r.0, r.1),
{
    match outcome {
        Ok(_) => (
            HttpStatus::Success,
            GenericResponse::success("Successfully created short URL"),
        ),
        Err(Error::ShortExists) => (
            HttpStatus::UnprocessableEntity,
            GenericResponse::err("Could not create short URL", "This short id is already taken"),
        ),
        Err(_) => (
            HttpStatus::InternalServerError,
            GenericResponse::err("Could not create short URL", "Database failure"),
        ),
    }
}

/// Everything the create handler guarantees: `pre` and `post` are the store
/// before and after, and `r` the response.
pub open spec fn create_post(
    pre: Map<Seq<char>, Seq<char>>,
    post: Map<Seq<char>, Seq<char>>,
    body: Url,
    r: ApiResponse,
) -> bool {
    &&& body.short@.len() > MAX_SHORT_LEN ==> post == pre && is_err_envelope(
        r,
        HttpStatus::PayloadTooLarge,
        "Could not create short url"@,
        "The short ID may not exceed 20 characters"@,
    )
    &&& body.short@.len() <= MAX_SHORT_LEN && body.target_url@.len() > MAX_TARGET_URL_LEN
        ==> post == pre && is_err_envelope(
        r,
        HttpStatus::PayloadTooLarge,
        "Could not create short url"@,
        "The target URL may not exceed 500 characters"@,
    )
    &&& body.short@.len() <= MAX_SHORT_LEN && body.target_url@.len() <= MAX_TARGET_URL_LEN ==> {
        &&& post == create_map(pre, body.short@, body.target_url@)
        &&& create_ok(pre, body.short@) ==> is_success_envelope(
            r,
            "Successfully created short URL"@,
        )
        &&& !create_ok(pre, body.short@) ==> is_err_envelope(
            r,
            HttpStatus::UnprocessableEntity,
            "Could not create short URL"@,
            "This short id is already taken"@,
        )
    }
}

/// Creates a mapping: rejects an input over its bounds before the store is
/// touched, reports a taken short id, and otherwise records the mapping.
pub fn create_url(body: &Url, store: &mut Store) -> (r: ApiResponse)
    ensures
        create_post(old(store)@, final(store)@, *body, r),
{
    if let Some((status, response)) = validate_create(body) {
        return ApiResponse::Envelope { status, body: response };
    }
    let outcome = store.create_url(body);
    let (status, response) = create_response(outcome);
    ApiResponse::Envelope { status, body: response }
}

/// The envelope a `Delete` store outcome is answered with.
pub open spec fn delete_outcome_post(
    outcome: Result<(), Error>,
    status: HttpStatus,
    body: GenericResponse,
) -> bool {
    match outcome {
        Ok(_) => status == HttpStatus::Success && envelope_is(
            body,
            true,
            "Successfully deleted URL"@,
            None,
        ),
        Err(e) => if e == Error::ShortDoesNotExist {
            status == HttpStatus::UnprocessableEntity && envelope_is(
                body,
                false,
                "Could not delete URL"@,
                Some("This short id does not exist"@),
            )
        } else {
            status == HttpStatus::InternalServerError && envelope_is(
                body,
                false,
                "Could not delete URL"@,
                Some("Database failure"@),
            )
        },
    }
}

/// Maps the outcome of the store's `delete_url` onto the response that
/// answers the request.
pub fn delete_response(outcome: Result<(), Error>) -> (r: (HttpStatus, GenericResponse))
    ensures
        delete_outcome_post(outcome, r.0, r.1),
{
    match outcome {
        Ok(_) => (HttpStatus::Success, GenericResponse::success("Successfully deleted URL")),
        Err(Error::ShortDoesNotExist) => (
            HttpStatus::UnprocessableEntity,
            GenericResponse::err("Could not delete URL", "This short id does not exist"),
        ),
        Err(_) => (
            HttpStatus::InternalServerError,
            GenericResponse::err("Could not delete URL", "Database failure"),
        ),
    }
}

/// Everything the delete handler guarantees.
pub open spec fn delete_post(
    pre: Map<Seq<char>, Seq<char>>,
    post: Map<Seq<char>, Seq<char>>,
    short: Seq<char>,
    r: ApiResponse,
) -> bool {
    &&& post == delete_map(pre, short)
    &&& delete_ok(pre, short) ==> is_success_envelope(r, "Successfully deleted URL"@)
    &&& !delete_ok(pre, short) ==> is_err_envelope(
        r,
        HttpStatus::UnprocessableEntity,
        "Could not delete URL"@,
        "This short id does not exist"@,
    )
}

/// Deletes the mapping with the given short id; an absent id is reported and
/// changes nothing, so a repeated delete keeps failing the same way.
pub fn delete_url(to_delete: &str, store: &mut Store) -> (r: ApiResponse)
    ensures
        delete_post(old(store)@, final(store)@, to_delete@, r),
{
    let outcome = store.delete_url(to_delete);
    let (status, response) = delete_response(outcome);
    ApiResponse::Envelope { status, body: response }
}

/// The response an `Inspect` store outcome is answered with: the mapping
/// itself, a not-found answer for an absent id, or — kept strictly apart —
/// an opaque server error for a storage malfunction.
pub open spec fn inspect_outcome_post(
    outcome: Result<Url, Error>,
    short: Seq<char>,
    r: ApiResponse,
) -> bool {
    match outcome {
        Ok(url) => match r {
            ApiResponse::Record { status, body } => status == HttpStatus::Success && body == url,
            _ => false,
        },
        Err(e) => if e == Error::ShortDoesNotExist {
            is_err_envelope(
                r,
                HttpStatus::UnprocessableEntity,
                "Cannot get target URL of `"@ + short + "`"@,
                "this shortened url was not found"@,
            )
        } else {
            is_err_envelope(
                r,
                HttpStatus::InternalServerError,
                "Cannot get target URL of `"@ + short + "`"@,
                "Database failure"@,
            )
        },
    }
}

/// Maps the outcome of the store's `get_url` onto the response that answers
/// an inspect request, naming the requested resource on failure. Absence
/// and storage failure are never conflated: only the former reads as
/// not-found, the latter stays an opaque server error.
pub fn inspect_response(outcome: Result<Url, Error>, requested_resource: &str) -> (r: ApiResponse)
    ensures
        inspect_outcome_post(outcome, requested_resource@, r),
{
    match outcome {
        Ok(url) => ApiResponse::Record { status: HttpStatus::Success, body: url },
        Err(e) => {
            let mut message: String = "Cannot get target URL of `".to_owned();
            message.append(requested_resource);
            message.append("`");
            match e {
                Error::ShortDoesNotExist => ApiResponse::Envelope {
                    status: HttpStatus::UnprocessableEntity,
                    body: GenericResponse::err(
                        message.as_str(),
                        "this shortened url was not found",
                    ),
                },
                _ => ApiResponse::Envelope {
                    status: HttpStatus::InternalServerError,
                    body: GenericResponse::err(message.as_str(), "Database failure"),
                },
            }
        },
    }
}

/// Everything the inspect handler guarantees.
pub open spec fn inspect_post(
    m: Map<Seq<char>, Seq<char>>,
    short: Seq<char>,
    r: ApiResponse,
) -> bool {
    match fetch_of(m, short) {
        Some(target) => match r {
            ApiResponse::Record { status, body } => status == HttpStatus::Success
                && body.short@ == short && body.target_url@ == target,
            _ => false,
        },
        None => is_err_envelope(
            r,
            HttpStatus::UnprocessableEntity,
            "Cannot get target URL of `"@ + short + "`"@,
            "this shortened url was not found"@,
        ),
    }
}

/// Returns the mapping with the given short id, or a not-found answer naming
/// it. The store is never changed.
pub fn get_target(requested_resource: &str, store: &Store) -> (r: ApiResponse)
    ensures
        inspect_post(store@, requested_resource@, r),
{
    let outcome = store.get_url(requested_resource);
    inspect_response(outcome, requested_resource)
}

/// The response a `List` store outcome is answered with.
pub open spec fn list_outcome_post(outcome: Result<Vec<Url>, Error>, r: ApiResponse) -> bool {
    match outcome {
        Ok(urls) => match r {
            ApiResponse::Records { status, body } => status == HttpStatus::Success
                && body@ == urls@,
            _ => false,
        },
        Err(_) => is_err_envelope(
            r,
            HttpStatus::InternalServerError,
            "Could not list URLs"@,
            "database failure"@,
        ),
    }
}

/// Maps the outcome of the store's `list_urls` onto the response that
/// answers the request.
pub fn list_response(outcome: Result<Vec<Url>, Error>) -> (r: ApiResponse)
    ensures
        list_outcome_post(outcome, r),
{
    match outcome {
        Ok(urls) => ApiResponse::Records { status: HttpStatus::Success, body: urls },
        Err(_) => ApiResponse::Envelope {
            status: HttpStatus::InternalServerError,
            body: GenericResponse::err("Could not list URLs", "database failure"),
        },
    }
}

/// Everything the list handler guarantees: up to `limit` mappings, oldest
/// first.
pub open spec fn list_post(entries: Seq<Url>, limit: u32, r: ApiResponse) -> bool {
    match r {
        ApiResponse::Records { status, body } => {
            &&& status == HttpStatus::Success
            &&& body@.len() == vstd::math::min(limit as int, entries.len() as int)
            &&& forall|i: int| 0 <= i < body@.len() ==> body@[i] == entries[i]
        },
        _ => false,
    }
}

/// Lists up to `limit` mappings. A limit of zero yields an empty sequence;
/// the maximum representable limit yields all mappings.
pub fn list_urls(limit: u32, store: &Store) -> (r: ApiResponse)
    ensures
        list_post(store.entries(), limit, r),
{
    let urls = store.list_urls(limit);
    list_response(Ok(urls))
}

/// The response a redirect-resolution store outcome is answered with: a
/// method-preserving redirect; a not-found answer naming the resource; an
/// unprocessable-input answer when the stored target cannot be sent as a
/// header value; or an opaque server error for a storage malfunction. These
/// failures are distinct and never conflated.
pub open spec fn redirect_outcome_post(
    outcome: Result<Url, Error>,
    short: Seq<char>,
    r: ApiResponse,
) -> bool {
    match outcome {
        Ok(url) => if valid_redirect_target(url.target_url@) {
            match r {
                ApiResponse::Redirect { status, location, body } => status
                    == HttpStatus::TemporaryRedirect && location@ == url.target_url@ && body
                    == url,
                _ => false,
            }
        } else {
            is_err_envelope(
                r,
                HttpStatus::UnprocessableEntity,
                "Cannot redirect to resource `{path}`"@,
                "invalid target URL: failed to parse header value"@,
            )
        },
        Err(e) => if e == Error::ShortDoesNotExist {
            is_err_envelope(
                r,
                HttpStatus::NotFound,
                "Cannot redirect to resource `"@ + short + "`"@,
                "this shortened url was not found"@,
            )
        } else {
            is_err_envelope(
                r,
                HttpStatus::InternalServerError,
                "Cannot redirect to resource `"@ + short + "`"@,
                "Database failure"@,
            )
        },
    }
}

/// Maps the outcome of the store's `get_url` onto the response that answers
/// a public redirect request. As in `inspect_response`, only absence reads
/// as not-found; a storage malfunction stays an opaque server error.
pub fn redirect_response(outcome: Result<Url, Error>, requested_resource: &str) -> (r: ApiResponse)
    ensures
        redirect_outcome_post(outcome, requested_resource@, r),
{
    match outcome {
        Ok(url) => {
            if is_valid_redirect_target(url.target_url.as_str()) {
                let location = url.target_url.clone();
                ApiResponse::Redirect {
                    status: HttpStatus::TemporaryRedirect,
                    location,
                    body: url,
                }
            } else {
                ApiResponse::Envelope {
                    status: HttpStatus::UnprocessableEntity,
                    body: GenericResponse::err(
                        "Cannot redirect to resource `{path}`",
                        "invalid target URL: failed to parse header value",
                    ),
                }
            }
        },
        Err(e) => {
            let mut message: String = "Cannot redirect to resource `".to_owned();
            message.append(requested_resource);
            message.append("`");
            match e {
                Error::ShortDoesNotExist => ApiResponse::Envelope {
                    status: HttpStatus::NotFound,
                    body: GenericResponse::err(
                        message.as_str(),
                        "this shortened url was not found",
                    ),
                },
                _ => ApiResponse::Envelope {
                    status: HttpStatus::InternalServerError,
                    body: GenericResponse::err(message.as_str(), "Database failure"),
                },
            }
        },
    }
}

/// Everything the public redirect resolver guarantees.
pub open spec fn redirect_post(
    m: Map<Seq<char>, Seq<char>>,
    short: Seq<char>,
    r: ApiResponse,
) -> bool {
    match fetch_of(m, short) {
        Some(target) => if valid_redirect_target(target) {
            match r {
                ApiResponse::Redirect { status, location, body } => status
                    == HttpStatus::TemporaryRedirect && location@ == target && body.short@
                    == short && body.target_url@ == target,
                _ => false,
            }
        } else {
            is_err_envelope(
                r,
                HttpStatus::UnprocessableEntity,
                "Cannot redirect to resource `{path}`"@,
                "invalid target URL: failed to parse header value"@,
            )
        },
        None => is_err_envelope(
            r,
            HttpStatus::NotFound,
            "Cannot redirect to resource `"@ + short + "`"@,
            "this shortened url was not found"@,
        ),
    }
}

/// Resolves a short id to a redirect. This path is public: it is reachable
/// without credentials, and it never changes the store.
pub fn handle_redirect(requested_resource: &str, store: &Store) -> (r: ApiResponse)
    ensures
        redirect_post(store@, requested_resource@, r),
{
    let outcome = store.get_url(requested_resource);
    redirect_response(outcome, requested_resource)
}

} // verus!
