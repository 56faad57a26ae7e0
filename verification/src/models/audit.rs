//! Audit log records.

use vstd::prelude::*;

use crate::text::str_eq;

verus! {

/// Whether an audited action succeeded.
#[derive(Debug, Clone, Copy, PartialEq, Eq, Structural)]
pub enum AuditResult {
    Success,
    Failure,
}

impl AuditResult {
    /// The stored text of a result.
    pub open spec fn text(self) -> Seq<char> {
        match self {
            AuditResult::Success => "success"@,
            AuditResult::Failure => "failure"@,
        }
    }

    /// The stored text of the result: `success` or `failure`.
    pub fn to_string(&self) -> (res: String)
        ensures
            res@ == self.text(),
    {
        match self {
            AuditResult::Success => String::from_str("success"),
            AuditResult::Failure => String::from_str("failure"),
        }
    }

    /// Parses a stored result: exactly `success` is a success, anything else
    /// a failure.
    pub fn from_str(s: &str) -> (res: AuditResult)
        ensures
            res == (if s@ == "success"@ {
                AuditResult::Success
            } else {
                AuditResult::Failure
            }),
    {
        if str_eq(s, "success") {
            AuditResult::Success
        } else {
            AuditResult::Failure
        }
    }

    /// The result of an outside call: success exactly when it returned `Ok`.
    pub fn of<T, E>(r: &Result<T, E>) -> (res: AuditResult)
        ensures
            res == (if r is Ok {
                AuditResult::Success
            } else {
                AuditResult::Failure
            }),
    {
        match r {
            Ok(_) => AuditResult::Success,
            Err(_) => AuditResult::Failure,
        }
    }
}

/// One row of the audit log.
#[derive(Debug, Clone)]
pub struct AuditLog {
    pub id: String,
    pub timestamp: String,
    pub admin_subject: String,
    pub admin_username: String,
    pub target_keycloak_user_id: Option<String>,
    pub target_matrix_user_id: Option<String>,
    pub action: String,
    pub result: String,
    pub metadata_json: String,
}

} // verus!
