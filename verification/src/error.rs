//! The application error type, its message and its HTTP rendering.

use vstd::prelude::*;

use crate::text::{cat, cat3};

verus! {

/// Errors raised by the workflows and handlers. Upstream, database and
/// internal failures carry their description as text.
#[derive(Debug)]
pub enum AppError {
    Auth(String),
    Upstream { service: String, message: String },
    Validation(String),
    NotFound(String),
    Database(String),
    Internal(String),
}

impl AppError {
    /// The characters of the error's message (its `Display` text).
    pub open spec fn message_view(&self) -> Seq<char> {
        match self {
            AppError::Auth(m) => "Authentication error: "@ + m@,
            AppError::Upstream { service, message } => "Upstream API error from "@ + service@ + ": "@
                + message@,
            AppError::Validation(m) => "Validation error: "@ + m@,
            AppError::NotFound(m) => "Not found: "@ + m@,
            AppError::Database(m) => "Database error: "@ + m@,
            AppError::Internal(m) => "Internal error: "@ + m@,
        }
    }

    /// The error's message: its kind, then its details.
    pub fn to_message(&self) -> (res: String)
        ensures
            res@ == self.message_view(),
    {
        match self {
            AppError::Auth(m) => cat("Authentication error: ", m.as_str()),
            AppError::Upstream { service, message } => {
                let s = cat3("Upstream API error from ", service.as_str(), ": ");
                s.concat(message.as_str())
            },
            AppError::Validation(m) => cat("Validation error: ", m.as_str()),
            AppError::NotFound(m) => cat("Not found: ", m.as_str()),
            AppError::Database(m) => cat("Database error: ", m.as_str()),
            AppError::Internal(m) => cat("Internal error: ", m.as_str()),
        }
    }

    /// The HTTP status that the error is rendered with.
    pub open spec fn spec_status(&self) -> u16 {
        match self {
            AppError::Auth(_) => 401,
            AppError::NotFound(_) => 404,
            AppError::Validation(_) => 400,
            AppError::Upstream { .. } => 502,
            AppError::Database(_) => 500,
            AppError::Internal(_) => 500,
        }
    }

    /// The HTTP status code of the error page.
    pub fn status_code(&self) -> (res: u16)
        ensures
            res == self.spec_status(),
    {
        match self {
            AppError::Auth(_) => 401,
            AppError::NotFound(_) => 404,
            AppError::Validation(_) => 400,
            AppError::Upstream { .. } => 502,
            AppError::Database(_) => 500,
            AppError::Internal(_) => 500,
        }
    }

    /// The characters of the message shown to the user on the error page.
    pub open spec fn user_message_view(&self) -> Seq<char> {
        match self {
            AppError::Auth(_) => "Authentication required."@,
            AppError::NotFound(m) => m@,
            AppError::Validation(m) => m@,
            AppError::Upstream { service, .. } => "An upstream service ("@ + service@
                + ") is unavailable or returned an error."@,
            AppError::Database(_) => "A database error occurred."@,
            AppError::Internal(_) => "An internal error occurred."@,
        }
    }

    /// The message shown to the user on the error page; internal details of
    /// upstream, database and internal errors are not shown.
    pub fn user_message(&self) -> (res: String)
        ensures
            res@ == self.user_message_view(),
    {
        match self {
            AppError::Auth(_) => String::from_str("Authentication required."),
            AppError::NotFound(m) => m.clone(),
            AppError::Validation(m) => m.clone(),
            AppError::Upstream { service, .. } => cat3(
                "An upstream service (",
                service.as_str(),
                ") is unavailable or returned an error.",
            ),
            AppError::Database(_) => String::from_str("A database error occurred."),
            AppError::Internal(_) => String::from_str("An internal error occurred."),
        }
    }

    /// A copy of the error.
    pub fn duplicate(&self) -> (res: AppError)
        ensures
            res == *self,
    {
        match self {
            AppError::Auth(m) => AppError::Auth(m.clone()),
            AppError::Upstream { service, message } => AppError::Upstream {
                service: service.clone(),
                message: message.clone(),
            },
            AppError::Validation(m) => AppError::Validation(m.clone()),
            AppError::NotFound(m) => AppError::NotFound(m.clone()),
            AppError::Database(m) => AppError::Database(m.clone()),
            AppError::Internal(m) => AppError::Internal(m.clone()),
        }
    }
}

/// An upstream error for a failed HTTP call to `service`: the message is
/// `HTTP <status>` when the call got a status back, else `request failed`,
/// so that no URL or token reaches the message.
pub fn upstream_error(service: &str, http_status: Option<&str>) -> (res: AppError)
    ensures
        res matches AppError::Upstream { service: s, message: m } && s@ == service@ && m@ == (
        match http_status {
            Some(st) => "HTTP "@ + st@,
            None => "request failed"@,
        }),
{
    let message = match http_status {
        Some(st) => cat("HTTP ", st),
        None => String::from_str("request failed"),
    };
    AppError::Upstream { service: String::from_str(service), message }
}

} // verus!
