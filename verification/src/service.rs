//! The management scope: every operation here first passes the credential
//! guard and only then reaches its handler, so a rejected request never
//! touches the store. The public redirect path lives in `url` and does not
//! pass through here.

use vstd::prelude::*;
use vstd::string::StringSliceAdditionalSpecFns;

use crate::api::{is_err_envelope, ApiResponse, HttpStatus};
use crate::config::User;
use crate::middleware::{query_admits, ValidCredentials};
use crate::store::{Store, Url};
use crate::url::{create_post, create_url, delete_post, delete_url, get_target, handle_redirect,
    inspect_post, list_post, list_urls, redirect_post};

verus! {

/// Holds when `r` is the response the guard answers rejected requests with.
pub open spec fn rejected(r: ApiResponse) -> bool {
    is_err_envelope(
        r,
        HttpStatus::Forbidden,
        "Forbidden"@,
        "You must be authenticated to use the API"@,
    )
}

/// The process-wide state every request handler sees: the store, which is
/// the single source of truth, and the configured identity, immutable for
/// the lifetime of the process.
pub struct State {
    pub store: Store,
    pub user: User,
}

impl State {
    /// The credential guard in front of this state's management scope.
    fn checker(&self) -> (g: ValidCredentials)
        ensures
            g.user == self.user,
    {
        ValidCredentials { user: self.user.clone() }
    }

    /// The credential probe: answers 200 exactly on valid credentials, and
    /// does nothing else.
    pub fn serve_auth(&self, query: &str) -> (r: ApiResponse)
        ensures
            query_admits(query.spec_bytes(), self.user) ==> r == (ApiResponse::Status {
                status: HttpStatus::Success,
            }),
            !query_admits(query.spec_bytes(), self.user) ==> rejected(r),
    {
        match self.checker().guard_query(query) {
            Some((status, body)) => ApiResponse::Envelope { status, body },
            None => ApiResponse::Status { status: HttpStatus::Success },
        }
    }

    /// Creates a mapping, unless the guard rejects the request; a rejected
    /// request leaves the store untouched.
    pub fn serve_create(&mut self, query: &str, body: &Url) -> (r: ApiResponse)
        ensures
            final(self).user == old(self).user,
            query_admits(query.spec_bytes(), old(self).user) ==> create_post(
                old(self).store@,
                final(self).store@,
                *body,
                r,
            ),
            !query_admits(query.spec_bytes(), old(self).user) ==> final(self).store@ == old(self).store@
                && final(self).store.entries() == old(self).store.entries() && rejected(r),
    {
        match self.checker().guard_query(query) {
            Some((status, response)) => ApiResponse::Envelope { status, body: response },
            None => create_url(body, &mut self.store),
        }
    }

    /// Deletes a mapping, unless the guard rejects the request; a rejected
    /// request leaves the store untouched.
    pub fn serve_delete(&mut self, query: &str, to_delete: &str) -> (r: ApiResponse)
        ensures
            final(self).user == old(self).user,
            query_admits(query.spec_bytes(), old(self).user) ==> delete_post(
                old(self).store@,
                final(self).store@,
                to_delete@,
                r,
            ),
            !query_admits(query.spec_bytes(), old(self).user) ==> final(self).store@ == old(self).store@
                && final(self).store.entries() == old(self).store.entries() && rejected(r),
    {
        match self.checker().guard_query(query) {
            Some((status, response)) => ApiResponse::Envelope { status, body: response },
            None => delete_url(to_delete, &mut self.store),
        }
    }

    /// Inspects a mapping, unless the guard rejects the request.
    pub fn serve_get_target(&self, query: &str, requested_resource: &str) -> (r: ApiResponse)
        ensures
            query_admits(query.spec_bytes(), self.user) ==> inspect_post(
                self.store@,
                requested_resource@,
                r,
            ),
            !query_admits(query.spec_bytes(), self.user) ==> rejected(r),
    {
        match self.checker().guard_query(query) {
            Some((status, response)) => ApiResponse::Envelope { status, body: response },
            None => get_target(requested_resource, &self.store),
        }
    }

    /// Lists mappings, unless the guard rejects the request.
    pub fn serve_list(&self, query: &str, limit: u32) -> (r: ApiResponse)
        ensures
            query_admits(query.spec_bytes(), self.user) ==> list_post(self.store.entries(), limit, r),
            !query_admits(query.spec_bytes(), self.user) ==> rejected(r),
    {
        match self.checker().guard_query(query) {
            Some((status, response)) => ApiResponse::Envelope { status, body: response },
            None => list_urls(limit, &self.store),
        }
    }

    /// Resolves a redirect. This path carries no guard: any client that knows
    /// a short id may follow it.
    pub fn serve_redirect(&self, requested_resource: &str) -> (r: ApiResponse)
        ensures
            redirect_post(self.store@, requested_resource@, r),
    {
        handle_redirect(requested_resource, &self.store)
    }
}

} // verus!
