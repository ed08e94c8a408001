//! A request to change the free-text parts of a rental request.
use vstd::prelude::*;

use crate::error::DomainCoreError;
use crate::rental::RentalStatus;

verus! {

/// The fields of a rental request that an update may set.
#[derive(Debug, Clone, PartialEq, Eq)]
pub struct RentalUpdate {
    pub activity_type: Option<String>,
    pub request_comments: Option<String>,
    pub status: Option<RentalStatus>,
}

impl Default for RentalUpdate {
    fn default() -> (r: Self)
        ensures
            r.activity_type is None && r.request_comments is None && r.status is None,
    {
        RentalUpdate { activity_type: None, request_comments: None, status: None }
    }
}

impl RentalUpdate {
    /// The update that sets nothing.
    pub open spec fn spec_is_empty(&self) -> bool {
        self.activity_type is None && self.request_comments is None && self.status is None
    }

    /// An update that sets nothing.
    pub fn new() -> (r: Self)
        ensures
            r.spec_is_empty(),
    {
        RentalUpdate::default()
    }

    pub fn is_empty(&self) -> (r: bool)
        ensures
            r == self.spec_is_empty(),
            r <==> (self.activity_type is None && self.request_comments is None && self.status is None),
    {
        self.activity_type.is_none() && self.request_comments.is_none() && self.status.is_none()
    }

    /// An update must set at least one field.
    pub fn is_vaild_update_command(&self) -> (r: Result<(), DomainCoreError>)
        ensures
            r is Ok <==> !self.spec_is_empty(),
            r is Err ==> r == Err::<(), DomainCoreError>(DomainCoreError::MustIncludeFieldForUpdate),
            // setting any one field makes a valid command
            self.activity_type is Some ==> r is Ok,
            self.request_comments is Some ==> r is Ok,
            self.status is Some ==> r is Ok,
    {
        if self.is_empty() {
            return Err(DomainCoreError::MustIncludeFieldForUpdate);
        }
        Ok(())
    }
}

/// An update is empty exactly when it sets none of the activity type, the
/// comments and the status; setting any one of them makes it non-empty.
pub proof fn lemma_rental_update_empty(u: RentalUpdate)
    ensures
        u.spec_is_empty() <==> (u.activity_type is None && u.request_comments is None
            && u.status is None),
        u.activity_type is Some ==> !u.spec_is_empty(),
        u.request_comments is Some ==> !u.spec_is_empty(),
        u.status is Some ==> !u.spec_is_empty(),
{
}

} // verus!
