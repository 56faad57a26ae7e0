//! The bulk reconcile button.

use vstd::prelude::*;

verus! {

/// The form of the bulk reconcile button.
pub struct BulkReconcileForm {
    pub _csrf: String,
}

} // verus!
