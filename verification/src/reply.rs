//! What the relay answers.

use crate::alias::AliasView;
use vstd::prelude::*;

verus! {

/// The fields of a created alias as the caller sees them.
#[derive(Debug)]
pub struct AliasResponseData {
    /// An opaque number: the time of creation in milliseconds since the
    /// epoch. Two aliases made in the same millisecond share it.
    pub id: u64,
    /// The full address.
    pub email: String,
    /// The address before the `@`.
    pub local_part: String,
    /// The address after the `@`.
    pub domain: String,
    /// Always absent.
    pub description: Option<String>,
    /// Always true.
    pub enabled: bool,
}

impl AliasResponseData {
    /// These fields report the alias `alias` under the number `id`.
    pub open spec fn echoes(&self, alias: AliasView, id: u64) -> bool {
        &&& self.id == id
        &&& self.email@ == alias.address()
        &&& self.local_part@ == alias.username
        &&& self.domain@ == alias.domain
        &&& self.description is None
        &&& self.enabled
    }
}

/// The body of a successful answer: the alias under the key `data`.
#[derive(Debug)]
pub struct AliasResponse {
    pub data: AliasResponseData,
}

/// An answer of the relay to a request for an alias.
#[derive(Debug)]
pub enum Reply {
    /// The bearer token was missing or wrong. No body.
    Unauthorized,
    /// The upstream service could not be reached. No body.
    InternalServerError,
    /// The alias was made. The body reports it.
    Created(AliasResponse),
}

impl Reply {
    /// The HTTP status code of the answer.
    pub open spec fn status(&self) -> u16 {
        match self {
            Reply::Unauthorized => 401,
            Reply::InternalServerError => 500,
            Reply::Created(_) => 201,
        }
    }

    /// The HTTP status code of the answer.
    pub fn status_code(&self) -> (code: u16)
        ensures
            code == self.status(),
    {
        match self {
            Reply::Unauthorized => 401,
            Reply::InternalServerError => 500,
            Reply::Created(_) => 201,
        }
    }

    /// The body of the answer. Only a created alias has one.
    pub open spec fn content(&self) -> Option<AliasResponse> {
        match *self {
            Reply::Created(response) => Some(response),
            _ => None,
        }
    }

    /// The body of the answer. Only a created alias has one.
    pub fn body(&self) -> (body: Option<&AliasResponse>)
        ensures
            match body {
                Some(response) => self.content() == Some(*response),
                None => self.content() is None,
            },
    {
        match self {
            Reply::Created(response) => Some(response),
            _ => None,
        }
    }
}

} // verus!
