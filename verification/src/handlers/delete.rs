//! The delete button of the user page.

use vstd::prelude::*;

use crate::handlers::notice::{warning_param, warning_value};
use crate::services::delete_user::DeleteUserResult;
use crate::text::cat3;

verus! {

/// The form of the delete button.
pub struct DeleteUserForm {
    pub _csrf: String,
}

/// The page shown after deleting user `keycloak_id`: the search page after
/// a delete (with its warnings, if any), the user's page after a partial
/// failure.
pub open spec fn delete_location(keycloak_id: Seq<char>, r: DeleteUserResult) -> Seq<char> {
    match r {
        DeleteUserResult::Deleted(o) => if o.warnings@.len() > 0 {
            "/users/search?warning="@ + warning_value(o)
        } else {
            "/users/search"@
        },
        DeleteUserResult::PartialFailure(o) => "/users/"@ + keycloak_id + "?warning="@
            + warning_value(o),
    }
}

/// Where the admin is sent after deleting user `keycloak_id`.
pub fn delete_redirect(keycloak_id: &str, result: &DeleteUserResult) -> (res: String)
    ensures
        res@ == delete_location(keycloak_id@, *result),
{
    match result {
        DeleteUserResult::Deleted(o) => {
            if o.has_warnings() {
                let w = warning_param(o);
                let p = String::from_str("/users/search?warning=");
                p.concat(w.as_str())
            } else {
                String::from_str("/users/search")
            }
        },
        DeleteUserResult::PartialFailure(o) => {
            let w = warning_param(o);
            let p = cat3("/users/", keycloak_id, "?warning=");
            p.concat(w.as_str())
        },
    }
}

} // verus!
