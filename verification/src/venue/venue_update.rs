//! A request to change a venue's details, and the checks it must pass.
use vstd::prelude::*;
use vstd::string::*;

use crate::error::{DomainCoreError, VenueError};
use crate::user::user_update::length_rejection_opt;
use crate::validation::{
    check_length_opt, check_range_opt, checks_view, opt_text, range_rejection, report_text,
    validation_report, FieldCheck,
};

verus! {

/// The venue fields that an update may set.
#[derive(Debug, Clone, PartialEq, Eq)]
pub struct VenueUpdate {
    pub name: Option<String>,
    pub address: Option<String>,
    pub capacity: Option<i32>,
    pub description: Option<String>,
}

/// The contents of a venue update.
pub struct VenueUpdateView {
    pub name: Option<Seq<char>>,
    pub address: Option<Seq<char>>,
    pub capacity: Option<i32>,
    pub description: Option<Seq<char>>,
}

impl View for VenueUpdate {
    type V = VenueUpdateView;

    open spec fn view(&self) -> VenueUpdateView {
        VenueUpdateView {
            name: opt_text(self.name),
            address: opt_text(self.address),
            capacity: self.capacity,
            description: opt_text(self.description),
        }
    }
}

/// The update sets no field.
pub open spec fn venue_update_is_empty(up: VenueUpdateView) -> bool {
    up.name is None && up.address is None && up.capacity is None && up.description is None
}

/// The range rule on an optional integer.
pub open spec fn range_rejection_opt(v: Option<i32>, min: int, max: int) -> Option<Seq<char>> {
    match v {
        Some(c) => range_rejection(c as int, min, max),
        None => None,
    }
}

/// The checks of a venue update, in field order: the name holds 5 to 200
/// bytes, the capacity lies in 1 to 50000 and the description holds 6 to 200
/// bytes. The address is not checked.
pub open spec fn venue_update_checks(up: VenueUpdateView) -> Seq<(Seq<char>, Option<Seq<char>>)> {
    seq![
        ("name"@, length_rejection_opt(up.name, 5, 200)),
        ("capacity"@, range_rejection_opt(up.capacity, 1, 50000)),
        ("description"@, length_rejection_opt(up.description, 6, 200)),
    ]
}

/// The update sets a field and every check passes.
pub open spec fn venue_update_valid(up: VenueUpdateView) -> bool {
    !venue_update_is_empty(up) && report_text(venue_update_checks(up)).len() == 0
}

/// `e` is the error that an update which is not valid is refused with.
pub open spec fn venue_update_error(e: DomainCoreError, up: VenueUpdateView) -> bool {
    if venue_update_is_empty(up) {
        e == DomainCoreError::MustIncludeFieldForUpdate
    } else {
        e matches DomainCoreError::VenueError(VenueError::FieldValidatedFail(m)) && m@
            == report_text(venue_update_checks(up)) && m@.len() > 0
    }
}

impl Default for VenueUpdate {
    fn default() -> (r: Self)
        ensures
            venue_update_is_empty(r@),
    {
        VenueUpdate { name: None, address: None, capacity: None, description: None }
    }
}

impl VenueUpdate {
    /// An update that sets nothing.
    pub fn new() -> (r: Self)
        ensures
            venue_update_is_empty(r@),
    {
        VenueUpdate::default()
    }

    pub fn is_empty(&self) -> (r: bool)
        ensures
            r == venue_update_is_empty(self@),
            r <==> (self.name is None && self.address is None && self.capacity is None
                && self.description is None),
    {
        self.name.is_none() && self.address.is_none() && self.capacity.is_none()
            && self.description.is_none()
    }

    /// An update must set a field, and every field it sets must pass its check.
    pub fn is_vaild_update_command(&self) -> (r: Result<(), DomainCoreError>)
        ensures
            r is Ok <==> venue_update_valid(self@),
            r matches Err(e) ==> venue_update_error(e, self@),
            // an update that sets nothing must include a field
            (self.name is None && self.address is None && self.capacity is None
                && self.description is None) ==> r == Err::<(), DomainCoreError>(
                DomainCoreError::MustIncludeFieldForUpdate,
            ),
    {
        if self.is_empty() {
            return Err(DomainCoreError::MustIncludeFieldForUpdate);
        }
        let mut checks: Vec<FieldCheck> = Vec::new();
        checks.push(
            FieldCheck {
                path: String::from_str("name"),
                error: check_length_opt(&self.name, 5, 200),
            },
        );
        checks.push(
            FieldCheck {
                path: String::from_str("capacity"),
                error: check_range_opt(self.capacity, 1, 50000),
            },
        );
        checks.push(
            FieldCheck {
                path: String::from_str("description"),
                error: check_length_opt(&self.description, 6, 200),
            },
        );
        proof {
            assert(checks_view(checks@) =~= venue_update_checks(self@));
        }
        let err_msg = validation_report(&checks);
        if err_msg.unicode_len() != 0 {
            return Err(DomainCoreError::VenueError(VenueError::FieldValidatedFail(err_msg)));
        }
        Ok(())
    }
}

} // verus!
