//! The credential guard in front of the management scope. It compares the
//! credentials presented by a request, if any were extracted from it, against
//! the single configured identity, and either lets the request through
//! unchanged or short-circuits it with a forbidden response. The public
//! redirect path never passes through this guard.

use vstd::prelude::*;
use vstd::string::StringSliceAdditionalSpecFns;
use vstd::string::StrSliceExecFns;
use vstd::utf8::encode_utf8;

use crate::api::{envelope_is, GenericResponse, HttpStatus};
use crate::config::User;
use crate::query::{bytes_eq, parse_credentials, parse_query};

verus! {

/// Exact equality on both fields; any mismatch rejects. The one generic
/// forbidden answer never tells an unknown username from a wrong password.
pub open spec fn credentials_match(presented: User, expected: User) -> bool {
    presented.username@ == expected.username@ && presented.password@ == expected.password@
}

/// Whether a request carrying `presented` may reach the management scope
/// guarded for `expected`; absent or malformed credentials never may.
pub open spec fn admitted(presented: Option<&User>, expected: User) -> bool {
    match presented {
        Some(user) => credentials_match(*user, expected),
        None => false,
    }
}

/// Whether a request whose query string has the UTF-8 bytes `q` may reach
/// the management scope guarded for `expected`: the query must present
/// exactly the configured pair, compared as decoded byte sequences.
pub open spec fn query_admits(q: Seq<u8>, expected: User) -> bool {
    parse_credentials(q) == Some(
        (encode_utf8(expected.username@), encode_utf8(expected.password@)),
    )
}

/// Holds when `r` is the response the guard short-circuits rejected requests
/// with.
pub open spec fn forbidden_envelope(status: HttpStatus, r: GenericResponse) -> bool {
    &&& status == HttpStatus::Forbidden
    &&& envelope_is(r, false, "Forbidden"@, Some("You must be authenticated to use the API"@))
}

/// The credential guard, holding the configured identity.
pub struct ValidCredentials {
    pub user: User,
}

impl ValidCredentials {
    /// Decides whether a request is let through. `presented` is `None` when
    /// the request carried no readable credential pair.
    pub fn check(&self, presented: Option<&User>) -> (r: bool)
        ensures
            r == admitted(presented, self.user),
    {
        match presented {
            Some(user) => user.username == self.user.username
                && user.password == self.user.password,
            None => false,
        }
    }

    /// Decides whether a request whose query string is `query` is let
    /// through: the query must present, in the guard's grammar, exactly the
    /// configured username and password.
    pub fn check_query(&self, query: &str) -> (r: bool)
        ensures
            r == query_admits(query.spec_bytes(), self.user),
    {
        match parse_query(query) {
            Some((username, password)) => {
                let expected_username = self.user.username.as_str().as_bytes_vec();
                let expected_password = self.user.password.as_str().as_bytes_vec();
                bytes_eq(&username, &expected_username) && bytes_eq(
                    &password,
                    &expected_password,
                )
            },
            None => false,
        }
    }

    /// Applies the guard to a raw query string, as `guard` does to extracted
    /// credentials.
    pub fn guard_query(&self, query: &str) -> (r: Option<(HttpStatus, GenericResponse)>)
        ensures
            query_admits(query.spec_bytes(), self.user) ==> r is None,
            !query_admits(query.spec_bytes(), self.user) ==> match r {
                Some(p) => forbidden_envelope(p.0, p.1),
                None => false,
            },
    {
        if self.check_query(query) {
            None
        } else {
            Some((
                HttpStatus::Forbidden,
                GenericResponse::err("Forbidden", "You must be authenticated to use the API"),
            ))
        }
    }

    /// Applies the guard: `None` forwards the request to its handler, and
    /// `Some` carries the forbidden response that answers it instead.
    pub fn guard(&self, presented: Option<&User>) -> (r: Option<(HttpStatus, GenericResponse)>)
        ensures
            admitted(presented, self.user) ==> r is None,
            !admitted(presented, self.user) ==> match r {
                Some(p) => forbidden_envelope(p.0, p.1),
                None => false,
            },
    {
        if self.check(presented) {
            None
        } else {
            Some((
                HttpStatus::Forbidden,
                GenericResponse::err("Forbidden", "You must be authenticated to use the API"),
            ))
        }
    }
}

} // verus!
