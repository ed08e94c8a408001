//! The errors of the domain core.
use vstd::prelude::*;

verus! {

/// Errors of user entities.
#[derive(Debug, Clone, PartialEq, Eq)]
pub enum UserError {
    /// Some fields failed validation; the text lists them as `path:message;`.
    FieldValidatedFail(String),
}

/// Errors of venue entities.
#[derive(Debug, Clone, PartialEq, Eq)]
pub enum VenueError {
    /// Some fields failed validation; the text lists them as `path:message;`.
    FieldValidatedFail(String),
}

/// Errors of rental requests.
#[derive(Debug, Clone, PartialEq, Eq)]
pub enum RentalError {
    FieldValidatedFail(String),
    /// The requested period is empty or reversed: start and end as printed.
    InvalidRentalTime(String, String),
    RentalStartTimeMustBeFuture,
    RentalMustBePending,
    RentalMustBeAccepted,
    /// The rental does not belong to the organizer with this id.
    RentalNotOwnedOrganizer(i64),
}

/// Every error that the domain core reports.
#[derive(Debug, Clone, PartialEq, Eq)]
pub enum DomainCoreError {
    UserError(UserError),
    RentalError(RentalError),
    VenueError(VenueError),
    EntityBuildFail(String),
    /// A required field of a builder was not set; the text names it.
    MissingField(String),
    MustIncludeFieldForUpdate,
    Other(String),
}

/// Calls `derive_builder::UninitializedFieldError::new(field)` and its
/// `to_string`, whose `Display` writes `Field not initialized: {field}`.
#[verifier::external_body]
fn uninitialized_field_text(field: &'static str) -> (r: String)
    ensures
        r@ == "Field not initialized: "@ + field@,
{
    derive_builder::UninitializedFieldError::new(field).to_string()
}

/// The error that a builder reports for a field that has neither a value nor
/// a default and that its own check did not cover.
pub fn uninitialized_field(field: &'static str) -> (r: DomainCoreError)
    ensures
        r matches DomainCoreError::EntityBuildFail(m) && m@ == "Field not initialized: "@ + field@,
{
    DomainCoreError::EntityBuildFail(uninitialized_field_text(field))
}

/// The error that a builder reports for a required field that is not set.
pub fn missing_field(field: &str) -> (r: DomainCoreError)
    ensures
        r matches DomainCoreError::MissingField(m) && m@ == field@,
{
    DomainCoreError::MissingField(field.to_owned())
}

} // verus!
