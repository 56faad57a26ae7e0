//! The reactivate button of the user page.

use vstd::prelude::*;

use crate::handlers::notice::{warning_param, warning_value};
use crate::models::workflow::WorkflowOutcome;
use crate::text::cat3;

verus! {

/// The form of the reactivate button.
pub struct ReactivateForm {
    pub _csrf: String,
}

/// The page shown after reactivating user `keycloak_id`.
pub open spec fn reactivate_location(keycloak_id: Seq<char>, o: WorkflowOutcome) -> Seq<char> {
    if o.warnings@.len() > 0 {
        "/users/"@ + keycloak_id + "?warning="@ + warning_value(o)
    } else {
        "/users/"@ + keycloak_id + "?notice=User+reactivated"@
    }
}

/// Where the admin is sent after reactivating user `keycloak_id`.
pub fn reactivate_redirect(keycloak_id: &str, outcome: &WorkflowOutcome) -> (res: String)
    ensures
        res@ == reactivate_location(keycloak_id@, *outcome),
{
    if outcome.has_warnings() {
        let w = warning_param(outcome);
        let p = cat3("/users/", keycloak_id, "?warning=");
        p.concat(w.as_str())
    } else {
        cat3("/users/", keycloak_id, "?notice=User+reactivated")
    }
}

} // verus!
