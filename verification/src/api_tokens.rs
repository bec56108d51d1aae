//! Access tokens of API clients and the scopes they grant.

use crate::text::{has_text, join3, pieces, split};
use vstd::prelude::*;

verus! {

/// A token that was given to an application on behalf of a user.
#[derive(Clone, Debug, PartialEq, Eq)]
pub struct ApiToken {
    pub id: i32,
    /// Seconds since the Unix epoch.
    pub creation_date: i64,
    pub value: String,
    /// Scopes, separated by +
    /// Global scopes are read and write
    /// and both can be limited to an endpoint by affixing them with :ENDPOINT
    ///
    /// Examples :
    ///
    /// read
    /// read+write
    /// read:posts
    /// read:posts+write:posts
    pub scopes: String,
    pub app_id: i32,
    pub user_id: i32,
}

/// A token to be stored.
#[derive(Clone, Debug, PartialEq, Eq)]
pub struct NewApiToken {
    pub value: String,
    pub scopes: String,
    pub app_id: i32,
    pub user_id: i32,
}

/// Why a request carried no usable token.
#[derive(Debug, Copy, Clone, PartialEq, Eq, Structural)]
pub enum TokenError {
    /// The Authorization header was not present
    NoHeader,
    /// The type of the token was not specified ("Basic" or "Bearer" for instance)
    NoType,
    /// No value was provided
    NoValue,
    /// Error while connecting to the database to retrieve all the token metadata
    DbError,
}

/// Whether scopes allow an action on an endpoint: one of them must be the
/// action itself, or the action limited to that endpoint.
pub open spec fn allows(scopes: Seq<char>, what: Seq<char>, scope: Seq<char>) -> bool {
    pieces(scopes, '+').contains(what) || pieces(scopes, '+').contains(what + ":"@ + scope)
}

impl ApiToken {
    /// Whether the token allows an action on an endpoint.
    pub fn can(&self, what: &'static str, scope: &'static str) -> (yes: bool)
        ensures
            yes == allows(self.scopes@, what@, scope@),
    {
        let full_scope = join3(what, ":", scope);
        let granted = split(self.scopes.as_str(), '+');
        has_text(&granted, what) || has_text(&granted, full_scope.as_str())
    }

    /// Whether the token allows reading on an endpoint.
    pub fn can_read(&self, scope: &'static str) -> (yes: bool)
        ensures
            yes == allows(self.scopes@, "read"@, scope@),
    {
        self.can("read", scope)
    }

    /// Whether the token allows writing on an endpoint.
    pub fn can_write(&self, scope: &'static str) -> (yes: bool)
        ensures
            yes == allows(self.scopes@, "write"@, scope@),
    {
        self.can("write", scope)
    }
}

} // verus!
