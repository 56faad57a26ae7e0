//! The reconcile buttons of the user page: where the admin is sent after a
//! reconciliation.

use vstd::prelude::*;

use crate::handlers::notice::{warning_param, warning_value};
use crate::models::workflow::WorkflowOutcome;
use crate::text::cat3;
use crate::utils::{pct_encode, pct_encoded};

verus! {

/// The form of the reconcile and preview buttons.
pub struct ReconcileForm {
    pub _csrf: String,
}

/// The page shown after reconciling user `keycloak_id`: its warnings when
/// there are any, else a notice.
pub open spec fn reconcile_location(keycloak_id: Seq<char>, o: WorkflowOutcome) -> Seq<char> {
    if o.warnings@.len() > 0 {
        "/users/"@ + keycloak_id + "?warning="@ + warning_value(o)
    } else {
        "/users/"@ + keycloak_id + "?notice="@ + pct_encoded("Room membership reconciled"@)
    }
}

/// Where the admin is sent after reconciling user `keycloak_id`.
pub fn reconcile_redirect(keycloak_id: &str, outcome: &WorkflowOutcome) -> (res: String)
    ensures
        res@ == reconcile_location(keycloak_id@, *outcome),
{
    if outcome.has_warnings() {
        let w = warning_param(outcome);
        let p = cat3("/users/", keycloak_id, "?warning=");
        p.concat(w.as_str())
    } else {
        let n = pct_encode("Room membership reconciled");
        let p = cat3("/users/", keycloak_id, "?notice=");
        p.concat(n.as_str())
    }
}

} // verus!
