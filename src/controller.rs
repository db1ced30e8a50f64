use vstd::prelude::*;

use crate::error::DbServiceError;
use crate::model::{RedirectDTO, RedirectListDTO};

verus! {

/// The answer the HTTP layer gives to a request on the store.
#[derive(Debug)]
pub enum Reply {
    /// A temporary redirect to the address.
    Redirect(String),
    /// The record was created; it is echoed back.
    Created(RedirectDTO),
    /// The record as it now stands.
    Updated(RedirectDTO),
    /// Every record.
    Listed(RedirectListDTO),
    /// Done, with nothing to show.
    NoContent,
    /// No record has the alias.
    NotFound,
    /// The named field broke the listed rules.
    Invalid { on_item: String, errors: Vec<String> },
    /// Any other failure, without its details.
    Internal,
}

impl Reply {
    /// The HTTP status code of the reply.
    pub open spec fn status_spec(&self) -> u16 {
        match self {
            Reply::Redirect(_) => 307,
            Reply::Created(_) => 201,
            Reply::Updated(_) => 200,
            Reply::Listed(_) => 200,
            Reply::NoContent => 204,
            Reply::NotFound => 404,
            Reply::Invalid { .. } => 400,
            Reply::Internal => 500,
        }
    }

    /// The HTTP status code of the reply.
    pub fn status(&self) -> (r: u16)
        ensures
            r == self.status_spec(),
    {
        match self {
            Reply::Redirect(_) => 307,
            Reply::Created(_) => 201,
            Reply::Updated(_) => 200,
            Reply::Listed(_) => 200,
            Reply::NoContent => 204,
            Reply::NotFound => 404,
            Reply::Invalid { .. } => 400,
            Reply::Internal => 500,
        }
    }
}

/// `r` reports the validation failure of `e`.
pub open spec fn reports_invalid(r: Reply, e: DbServiceError) -> bool {
    r matches Reply::Invalid { on_item, errors } && e matches DbServiceError::PayloadValidationError(
        f,
        m,
    ) && on_item == f && errors == m
}

/// The answer to a lookup of an alias: a redirect to its address, or not found.
pub fn fetch_reply(outcome: Result<RedirectDTO, DbServiceError>) -> (r: Reply)
    ensures
        match outcome {
            Ok(d) => r == Reply::Redirect(d.url),
            Err(DbServiceError::NotFoundError) => r == Reply::NotFound,
            Err(_) => r == Reply::Internal,
        },
{
    match outcome {
        Ok(d) => Reply::Redirect(d.url),
        Err(DbServiceError::NotFoundError) => Reply::NotFound,
        Err(_) => Reply::Internal,
    }
}

/// The answer to a listing of every record.
pub fn list_reply(outcome: Result<RedirectListDTO, DbServiceError>) -> (r: Reply)
    ensures
        match outcome {
            Ok(l) => r == Reply::Listed(l),
            Err(_) => r == Reply::Internal,
        },
{
    match outcome {
        Ok(l) => Reply::Listed(l),
        Err(_) => Reply::Internal,
    }
}

/// The answer to a create of `payload`: the record echoed back, the rules it broke, or a
/// failure (a conflict included).
pub fn create_reply(payload: RedirectDTO, outcome: Result<(), DbServiceError>) -> (r: Reply)
    ensures
        match outcome {
            Ok(()) => r == Reply::Created(payload),
            Err(e) => if e is PayloadValidationError {
                reports_invalid(r, e)
            } else {
                r == Reply::Internal
            },
        },
{
    match outcome {
        Ok(()) => Reply::Created(payload),
        Err(DbServiceError::PayloadValidationError(on_item, errors)) => Reply::Invalid {
            on_item,
            errors,
        },
        Err(_) => Reply::Internal,
    }
}

/// The answer to a delete: nothing to show, not found, or a failure.
pub fn delete_reply(outcome: Result<(), DbServiceError>) -> (r: Reply)
    ensures
        match outcome {
            Ok(()) => r == Reply::NoContent,
            Err(DbServiceError::NotFoundError) => r == Reply::NotFound,
            Err(_) => r == Reply::Internal,
        },
{
    match outcome {
        Ok(()) => Reply::NoContent,
        Err(DbServiceError::NotFoundError) => Reply::NotFound,
        Err(_) => Reply::Internal,
    }
}

/// The answer to pointing `alias` at `url`: the record as it now stands, not found, the
/// rules the address broke, or a failure.
pub fn update_reply(alias: String, url: String, outcome: Result<(), DbServiceError>) -> (r: Reply)
    ensures
        match outcome {
            Ok(()) => r matches Reply::Updated(d) && d.alias == alias && d.url == url,
            Err(DbServiceError::NotFoundError) => r == Reply::NotFound,
            Err(e) => if e is PayloadValidationError {
                reports_invalid(r, e)
            } else {
                r == Reply::Internal
            },
        },
{
    match outcome {
        Ok(()) => Reply::Updated(RedirectDTO { alias, url }),
        Err(DbServiceError::NotFoundError) => Reply::NotFound,
        Err(DbServiceError::PayloadValidationError(on_item, errors)) => Reply::Invalid {
            on_item,
            errors,
        },
        Err(_) => Reply::Internal,
    }
}

} // verus!
