//! Rental requests: an organizer asks for a venue over a period, and the
//! request moves from `Pending` to a decision.
//!
//! Only a pending request can be accepted, rejected or cancelled; once one
//! of these has happened the request never changes its decision again.
use vstd::prelude::*;
use vstd::string::*;

use crate::error::{missing_field, DomainCoreError, RentalError};
use crate::time::{before, chrono_datetime_text, datetime_pattern, Clock, Timestamp};

pub mod rental_update;

verus! {

/// Where a rental request stands.
#[derive(Debug, Clone, Copy, PartialEq, Eq, Structural)]
pub enum RentalStatus {
    Pending,
    Accepted,
    Rejected,
    Finished,
    Canceled,
}

impl RentalStatus {
    /// The name of the status as it is shown and stored.
    pub open spec fn text(self) -> Seq<char> {
        match self {
            RentalStatus::Pending => "pending"@,
            RentalStatus::Accepted => "accepted"@,
            RentalStatus::Rejected => "rejected"@,
            RentalStatus::Finished => "finished"@,
            RentalStatus::Canceled => "canceled"@,
        }
    }

    pub fn to_string(&self) -> (r: String)
        ensures
            r@ == self.text(),
    {
        match self {
            RentalStatus::Pending => String::from_str("pending"),
            RentalStatus::Accepted => String::from_str("accepted"),
            RentalStatus::Rejected => String::from_str("rejected"),
            RentalStatus::Finished => String::from_str("finished"),
            RentalStatus::Canceled => String::from_str("canceled"),
        }
    }
}

/// The kind of activity a venue is rented for.
#[derive(Debug, Clone, Copy, PartialEq, Eq, Structural)]
pub enum ActivityType {
    All,
    Exhibition,
    Seminar,
}

impl ActivityType {
    /// The name of the activity type as it is shown and stored.
    pub open spec fn text(self) -> Seq<char> {
        match self {
            ActivityType::All => "all"@,
            ActivityType::Exhibition => "exhibition"@,
            ActivityType::Seminar => "seminar"@,
        }
    }

    pub fn to_string(&self) -> (r: String)
        ensures
            r@ == self.text(),
    {
        match self {
            ActivityType::All => String::from_str("all"),
            ActivityType::Exhibition => String::from_str("exhibition"),
            ActivityType::Seminar => String::from_str("seminar"),
        }
    }
}

/// A rental request.
#[derive(Debug, Clone, PartialEq, Eq)]
pub struct Rental {
    id: Option<i64>,
    venue_id: i64,
    organizer_id: i64,
    start_time: Timestamp,
    end_time: Timestamp,
    activity_type: ActivityType,
    request_comments: Option<String>,
    status: RentalStatus,
    createtime: Timestamp,
    updatetime: Timestamp,
}

/// The contents of a rental request.
pub struct RentalView {
    pub id: Option<i64>,
    pub venue_id: i64,
    pub organizer_id: i64,
    pub start_time: Timestamp,
    pub end_time: Timestamp,
    pub activity_type: ActivityType,
    pub request_comments: Option<Seq<char>>,
    pub status: RentalStatus,
    pub createtime: Timestamp,
    pub updatetime: Timestamp,
}

impl Rental {
    pub closed spec fn model(&self) -> RentalView {
        RentalView {
            id: self.id,
            venue_id: self.venue_id,
            organizer_id: self.organizer_id,
            start_time: self.start_time,
            end_time: self.end_time,
            activity_type: self.activity_type,
            request_comments: crate::validation::opt_text(self.request_comments),
            status: self.status,
            createtime: self.createtime,
            updatetime: self.updatetime,
        }
    }
}

impl View for Rental {
    type V = RentalView;

    open spec fn view(&self) -> RentalView {
        self.model()
    }
}

/// The view of the outcome of a rental operation.
pub open spec fn rental_result(r: Result<Rental, DomainCoreError>) -> Result<
    RentalView,
    DomainCoreError,
> {
    match r {
        Ok(x) => Ok(x@),
        Err(e) => Err(e),
    }
}

/// The error for an operation that needs a pending request.
pub open spec fn must_be_pending() -> DomainCoreError {
    DomainCoreError::RentalError(RentalError::RentalMustBePending)
}

/// Accepting a request at `now`.
pub open spec fn accept_outcome(v: RentalView, now: Timestamp) -> Result<
    RentalView,
    DomainCoreError,
> {
    if v.status != RentalStatus::Pending {
        Err(must_be_pending())
    } else {
        Ok(RentalView { updatetime: now, status: RentalStatus::Accepted, ..v })
    }
}

/// Rejecting a request at `now`.
pub open spec fn reject_outcome(v: RentalView, now: Timestamp) -> Result<
    RentalView,
    DomainCoreError,
> {
    if v.status != RentalStatus::Pending {
        Err(must_be_pending())
    } else {
        Ok(RentalView { updatetime: now, status: RentalStatus::Rejected, ..v })
    }
}

/// The organizer `organizer_id` cancelling a request at `now`.
pub open spec fn cancel_outcome(v: RentalView, organizer_id: i64, now: Timestamp) -> Result<
    RentalView,
    DomainCoreError,
> {
    if v.status != RentalStatus::Pending {
        Err(must_be_pending())
    } else if v.organizer_id != organizer_id {
        Err(DomainCoreError::RentalError(RentalError::RentalNotOwnedOrganizer(organizer_id)))
    } else {
        Ok(RentalView { updatetime: now, status: RentalStatus::Canceled, ..v })
    }
}

/// Closing a request at `now`, whatever its status.
pub open spec fn finish_outcome(v: RentalView, now: Timestamp) -> RentalView {
    RentalView { updatetime: now, status: RentalStatus::Finished, ..v }
}

/// The fields that no operation on a request changes.
pub open spec fn same_request(a: RentalView, b: RentalView) -> bool {
    &&& a.id == b.id
    &&& a.venue_id == b.venue_id
    &&& a.organizer_id == b.organizer_id
    &&& a.activity_type == b.activity_type
    &&& a.request_comments == b.request_comments
    &&& a.createtime == b.createtime
}

impl Rental {
    /// The request with its stored id.
    pub fn update_id(self, id: i64) -> (r: Self)
        ensures
            r@ == (RentalView { id: Some(id), ..self@ }),
    {
        Rental { id: Some(id), ..self }
    }

    /// Accepts a pending request, stamping it with `now`.
    pub fn accepet_rental_at(self, now: Timestamp) -> (r: Result<Self, DomainCoreError>)
        ensures
            rental_result(r) == accept_outcome(self@, now),
            // only a pending request is decided, and it is decided as asked
            self@.status == RentalStatus::Pending <==> r is Ok,
            r matches Ok(x) ==> x@.status == RentalStatus::Accepted && x@.updatetime == now
                && same_request(self@, x@),
    {
        if self.status != RentalStatus::Pending {
            return Err(DomainCoreError::RentalError(RentalError::RentalMustBePending));
        }
        Ok(Rental { updatetime: now, status: RentalStatus::Accepted, ..self })
    }

    /// Accepts a pending request, stamping it with the clock's time.
    pub fn accepet_rental(self, time: &impl Clock) -> (r: Result<Self, DomainCoreError>)
        ensures
            self@.status != RentalStatus::Pending ==> r == Err::<Self, DomainCoreError>(
                must_be_pending(),
            ),
            self@.status == RentalStatus::Pending ==> (r matches Ok(x) && x@ == (RentalView {
                status: RentalStatus::Accepted,
                updatetime: x@.updatetime,
                ..self@
            })),
    {
        if self.status != RentalStatus::Pending {
            return Err(DomainCoreError::RentalError(RentalError::RentalMustBePending));
        }
        let now = time.now();
        self.accepet_rental_at(now)
    }

    /// The organizer `organizer_id` cancels a pending request of theirs,
    /// stamping it with `now`.
    pub fn cancel_rental_at(self, organizer_id: i64, now: Timestamp) -> (r: Result<
        Self,
        DomainCoreError,
    >)
        ensures
            rental_result(r) == cancel_outcome(self@, organizer_id, now),
            // only the organizer's own pending request is cancelled
            (self@.status == RentalStatus::Pending && self@.organizer_id == organizer_id) <==> r is Ok,
            r matches Ok(x) ==> x@.status == RentalStatus::Canceled && x@.updatetime == now
                && same_request(self@, x@),
    {
        if self.status != RentalStatus::Pending {
            return Err(DomainCoreError::RentalError(RentalError::RentalMustBePending));
        }
        if self.organizer_id != organizer_id {
            return Err(
                DomainCoreError::RentalError(RentalError::RentalNotOwnedOrganizer(organizer_id)),
            );
        }
        Ok(Rental { updatetime: now, status: RentalStatus::Canceled, ..self })
    }

    /// The organizer `organizer_id` cancels a pending request of theirs,
    /// stamping it with the clock's time.
    pub fn cancel_rental(self, organizer_id: i64, time: &impl Clock) -> (r: Result<
        Self,
        DomainCoreError,
    >)
        ensures
            self@.status != RentalStatus::Pending ==> r == Err::<Self, DomainCoreError>(
                must_be_pending(),
            ),
            self@.status == RentalStatus::Pending && self@.organizer_id != organizer_id ==> r
                == Err::<Self, DomainCoreError>(
                DomainCoreError::RentalError(RentalError::RentalNotOwnedOrganizer(organizer_id)),
            ),
            self@.status == RentalStatus::Pending && self@.organizer_id == organizer_id ==> (r matches Ok(
                x,
            ) && x@ == (RentalView {
                status: RentalStatus::Canceled,
                updatetime: x@.updatetime,
                ..self@
            })),
    {
        if self.status != RentalStatus::Pending {
            return Err(DomainCoreError::RentalError(RentalError::RentalMustBePending));
        }
        if self.organizer_id != organizer_id {
            return Err(
                DomainCoreError::RentalError(RentalError::RentalNotOwnedOrganizer(organizer_id)),
            );
        }
        let now = time.now();
        self.cancel_rental_at(organizer_id, now)
    }

    /// Rejects a pending request, stamping it with `now`.
    pub fn reject_rental_at(self, now: Timestamp) -> (r: Result<Self, DomainCoreError>)
        ensures
            rental_result(r) == reject_outcome(self@, now),
            // only a pending request is decided, and it is decided as asked
            self@.status == RentalStatus::Pending <==> r is Ok,
            r matches Ok(x) ==> x@.status == RentalStatus::Rejected && x@.updatetime == now
                && same_request(self@, x@),
    {
        if self.status != RentalStatus::Pending {
            return Err(DomainCoreError::RentalError(RentalError::RentalMustBePending));
        }
        Ok(Rental { updatetime: now, status: RentalStatus::Rejected, ..self })
    }

    /// Rejects a pending request, stamping it with the clock's time.
    pub fn reject_rental(self, time: &impl Clock) -> (r: Result<Self, DomainCoreError>)
        ensures
            self@.status != RentalStatus::Pending ==> r == Err::<Self, DomainCoreError>(
                must_be_pending(),
            ),
            self@.status == RentalStatus::Pending ==> (r matches Ok(x) && x@ == (RentalView {
                status: RentalStatus::Rejected,
                updatetime: x@.updatetime,
                ..self@
            })),
    {
        if self.status != RentalStatus::Pending {
            return Err(DomainCoreError::RentalError(RentalError::RentalMustBePending));
        }
        let now = time.now();
        self.reject_rental_at(now)
    }

    /// Closes the request at `now`, whatever its status.
    pub fn finish_request_at(self, now: Timestamp) -> (r: Self)
        ensures
            r@ == finish_outcome(self@, now),
    {
        Rental { updatetime: now, status: RentalStatus::Finished, ..self }
    }

    /// Closes the request at the clock's time, whatever its status.
    pub fn finish_request(self, time: &impl Clock) -> (r: Self)
        ensures
            r@ == (RentalView {
                status: RentalStatus::Finished,
                updatetime: r@.updatetime,
                ..self@
            }),
    {
        let now = time.now();
        self.finish_request_at(now)
    }

    /// The organizer `organizer_id` moves the request to the period from
    /// `start_time` to `end_time`. `now` is the time the start is checked
    /// against and `updatetime` the one the request is stamped with.
    pub fn set_rental_date_at(
        self,
        now: Timestamp,
        updatetime: Timestamp,
        start_time: Timestamp,
        end_time: Timestamp,
        organizer_id: i64,
    ) -> (r: Result<Self, DomainCoreError>)
        ensures
            set_date_outcome(self@, now, updatetime, start_time, end_time, organizer_id, r),
            // only the organizer moves the request, and only to a period that
            // starts no earlier than `now` and ends after it starts
            r is Ok <==> (self@.organizer_id == organizer_id && !before(start_time, now) && before(
                start_time,
                end_time,
            )),
            self@.organizer_id == organizer_id && before(start_time, now) ==> r == Err::<
                Self,
                DomainCoreError,
            >(DomainCoreError::RentalError(RentalError::RentalStartTimeMustBeFuture)),
            r matches Ok(x) ==> x@.start_time == start_time && x@.end_time == end_time
                && x@.updatetime == updatetime && x@.status == self@.status && same_request(
                self@,
                x@,
            ),
    {
        if self.organizer_id != organizer_id {
            return Err(
                DomainCoreError::RentalError(RentalError::RentalNotOwnedOrganizer(organizer_id)),
            );
        }
        if start_time.is_before(&now) {
            return Err(DomainCoreError::RentalError(RentalError::RentalStartTimeMustBeFuture));
        }
        if !start_time.is_before(&end_time) {
            let start = start_time.format_datetime();
            let end = end_time.format_datetime();
            return Err(DomainCoreError::RentalError(RentalError::InvalidRentalTime(start, end)));
        }
        Ok(Rental { start_time, end_time, updatetime, ..self })
    }

    /// The organizer `organizer_id` moves the request to the period from
    /// `start_time` to `end_time`: the start may not lie before the clock's
    /// time and must come before the end. The clock is read once for the
    /// check and, when the period is taken, once more for the stamp; the
    /// outcome is that of `set_rental_date_at` on those readings.
    pub fn set_rental_date(
        self,
        time: &impl Clock,
        start_time: Timestamp,
        end_time: Timestamp,
        organizer_id: i64,
    ) -> (r: Result<Self, DomainCoreError>)
        ensures
            self@.organizer_id != organizer_id ==> r == Err::<Self, DomainCoreError>(
                DomainCoreError::RentalError(RentalError::RentalNotOwnedOrganizer(organizer_id)),
            ),
            exists|now: Timestamp, updatetime: Timestamp|
                set_date_outcome(self@, now, updatetime, start_time, end_time, organizer_id, r),
    {
        if self.organizer_id != organizer_id {
            let r = Err(
                DomainCoreError::RentalError(RentalError::RentalNotOwnedOrganizer(organizer_id)),
            );
            // the clock is not read: the outcome is the same for any reading
            assert(set_date_outcome(
                self@,
                self@.updatetime,
                self@.updatetime,
                start_time,
                end_time,
                organizer_id,
                r,
            ));
            return r;
        }
        let now = time.now();
        if start_time.is_before(&now) || !start_time.is_before(&end_time) {
            return self.set_rental_date_at(now, now, start_time, end_time, organizer_id);
        }
        let updatetime = time.now();
        self.set_rental_date_at(now, updatetime, start_time, end_time, organizer_id)
    }
}

/// The outcome `r` of the organizer `organizer_id` moving the request `v` to
/// the period from `start_time` to `end_time`, the start checked against
/// `now` and the request stamped with `updatetime`: only the request's
/// organizer may move it; a start before `now` is refused; a start not
/// before the end is refused with both times written out; else the period
/// and the stamp are replaced and nothing else changes.
pub open spec fn set_date_outcome(
    v: RentalView,
    now: Timestamp,
    updatetime: Timestamp,
    start_time: Timestamp,
    end_time: Timestamp,
    organizer_id: i64,
    r: Result<Rental, DomainCoreError>,
) -> bool {
    if v.organizer_id != organizer_id {
        r == Err::<Rental, DomainCoreError>(
            DomainCoreError::RentalError(RentalError::RentalNotOwnedOrganizer(organizer_id)),
        )
    } else if before(start_time, now) {
        r == Err::<Rental, DomainCoreError>(
            DomainCoreError::RentalError(RentalError::RentalStartTimeMustBeFuture),
        )
    } else if !before(start_time, end_time) {
        r matches Err(DomainCoreError::RentalError(RentalError::InvalidRentalTime(s, e))) && s@
            == chrono_datetime_text(start_time.spec_secs(), start_time.spec_nanos(), datetime_pattern()) && e@
            == chrono_datetime_text(end_time.spec_secs(), end_time.spec_nanos(), datetime_pattern())
    } else {
        r matches Ok(x) && x@ == (RentalView { start_time, end_time, updatetime, ..v })
    }
}

impl Rental {
    pub fn id(&self) -> (r: Option<i64>)
        ensures
            r == self@.id,
    {
        self.id
    }

    pub fn venue_id(&self) -> (r: i64)
        ensures
            r == self@.venue_id,
    {
        self.venue_id
    }

    pub fn organizer_id(&self) -> (r: i64)
        ensures
            r == self@.organizer_id,
    {
        self.organizer_id
    }

    pub fn start_time(&self) -> (r: &Timestamp)
        ensures
            *r == self@.start_time,
    {
        &self.start_time
    }

    pub fn end_time(&self) -> (r: &Timestamp)
        ensures
            *r == self@.end_time,
    {
        &self.end_time
    }

    pub fn activity_type(&self) -> (r: &ActivityType)
        ensures
            *r == self@.activity_type,
    {
        &self.activity_type
    }

    pub fn request_comments(&self) -> (r: &Option<String>)
        ensures
            crate::validation::opt_text(*r) == self@.request_comments,
    {
        &self.request_comments
    }

    pub fn status(&self) -> (r: &RentalStatus)
        ensures
            *r == self@.status,
    {
        &self.status
    }

    pub fn createtime(&self) -> (r: &Timestamp)
        ensures
            *r == self@.createtime,
    {
        &self.createtime
    }

    pub fn updatetime(&self) -> (r: &Timestamp)
        ensures
            *r == self@.updatetime,
    {
        &self.updatetime
    }
}

/// Collects the fields of a rental request before it is built.
#[derive(Debug, Clone)]
pub struct RentalBuilder {
    pub id: Option<Option<i64>>,
    pub venue_id: Option<i64>,
    pub organizer_id: Option<i64>,
    pub start_time: Option<Timestamp>,
    pub end_time: Option<Timestamp>,
    pub activity_type: Option<ActivityType>,
    pub request_comments: Option<Option<String>>,
    pub status: Option<RentalStatus>,
    pub createtime: Option<Timestamp>,
    pub updatetime: Option<Timestamp>,
}

/// The first required field of a rental builder that is not set, in the
/// order in which they are checked.
pub open spec fn rental_builder_first_missing(b: RentalBuilder) -> Option<Seq<char>> {
    if b.venue_id is None {
        Some("venue_id"@)
    } else if b.organizer_id is None {
        Some("organizer_id"@)
    } else if b.start_time is None {
        Some("start_time"@)
    } else if b.end_time is None {
        Some("end_time"@)
    } else if b.activity_type is None {
        Some("activity_type"@)
    } else if b.createtime is None {
        Some("createtime"@)
    } else if b.updatetime is None {
        Some("updatetime"@)
    } else {
        None
    }
}

impl Default for RentalBuilder {
    fn default() -> (r: Self)
        ensures
            r.id is None && r.venue_id is None && r.organizer_id is None && r.start_time is None
                && r.end_time is None && r.activity_type is None && r.request_comments is None
                && r.status is None && r.createtime is None && r.updatetime is None,
    {
        RentalBuilder {
            id: None,
            venue_id: None,
            organizer_id: None,
            start_time: None,
            end_time: None,
            activity_type: None,
            request_comments: None,
            status: None,
            createtime: None,
            updatetime: None,
        }
    }
}

impl RentalBuilder {
    pub fn id(self, v: Option<i64>) -> (r: Self)
        ensures
            r == (RentalBuilder { id: Some(v), ..self }),
    {
        RentalBuilder { id: Some(v), ..self }
    }

    pub fn venue_id(self, v: i64) -> (r: Self)
        ensures
            r == (RentalBuilder { venue_id: Some(v), ..self }),
    {
        RentalBuilder { venue_id: Some(v), ..self }
    }

    pub fn organizer_id(self, v: i64) -> (r: Self)
        ensures
            r == (RentalBuilder { organizer_id: Some(v), ..self }),
    {
        RentalBuilder { organizer_id: Some(v), ..self }
    }

    pub fn start_time(self, v: Timestamp) -> (r: Self)
        ensures
            r == (RentalBuilder { start_time: Some(v), ..self }),
    {
        RentalBuilder { start_time: Some(v), ..self }
    }

    pub fn end_time(self, v: Timestamp) -> (r: Self)
        ensures
            r == (RentalBuilder { end_time: Some(v), ..self }),
    {
        RentalBuilder { end_time: Some(v), ..self }
    }

    pub fn activity_type(self, v: ActivityType) -> (r: Self)
        ensures
            r == (RentalBuilder { activity_type: Some(v), ..self }),
    {
        RentalBuilder { activity_type: Some(v), ..self }
    }

    pub fn request_comments(self, v: Option<String>) -> (r: Self)
        ensures
            r == (RentalBuilder { request_comments: Some(v), ..self }),
    {
        RentalBuilder { request_comments: Some(v), ..self }
    }

    pub fn status(self, v: RentalStatus) -> (r: Self)
        ensures
            r == (RentalBuilder { status: Some(v), ..self }),
    {
        RentalBuilder { status: Some(v), ..self }
    }

    pub fn createtime(self, v: Timestamp) -> (r: Self)
        ensures
            r == (RentalBuilder { createtime: Some(v), ..self }),
    {
        RentalBuilder { createtime: Some(v), ..self }
    }

    pub fn updatetime(self, v: Timestamp) -> (r: Self)
        ensures
            r == (RentalBuilder { updatetime: Some(v), ..self }),
    {
        RentalBuilder { updatetime: Some(v), ..self }
    }

    fn validate_builder(&self) -> (r: Result<(), DomainCoreError>)
        ensures
            r is Ok <==> rental_builder_first_missing(*self) is None,
            r matches Err(e) ==> (e matches DomainCoreError::MissingField(m) && Some(m@)
                == rental_builder_first_missing(*self)),
    {
        if self.venue_id.is_none() {
            return Err(missing_field("venue_id"));
        }
        if self.organizer_id.is_none() {
            return Err(missing_field("organizer_id"));
        }
        if self.start_time.is_none() {
            return Err(missing_field("start_time"));
        }
        if self.end_time.is_none() {
            return Err(missing_field("end_time"));
        }
        if self.activity_type.is_none() {
            return Err(missing_field("activity_type"));
        }
        if self.createtime.is_none() {
            return Err(missing_field("createtime"));
        }
        if self.updatetime.is_none() {
            return Err(missing_field("updatetime"));
        }
        Ok(())
    }

    /// Builds the request: every required field must be set; the id and
    /// comments default to none and the status to `Pending`.
    pub fn build(self) -> (r: Result<Rental, DomainCoreError>)
        ensures
            r is Ok <==> rental_builder_first_missing(self) is None,
            r matches Err(e) ==> (e matches DomainCoreError::MissingField(m) && Some(m@)
                == rental_builder_first_missing(self)),
            r matches Ok(x) ==> x@ == (RentalView {
                id: match self.id {
                    Some(v) => v,
                    None => None,
                },
                venue_id: self.venue_id->0,
                organizer_id: self.organizer_id->0,
                start_time: self.start_time->0,
                end_time: self.end_time->0,
                activity_type: self.activity_type->0,
                request_comments: match self.request_comments {
                    Some(v) => crate::validation::opt_text(v),
                    None => None,
                },
                status: match self.status {
                    Some(v) => v,
                    None => RentalStatus::Pending,
                },
                createtime: self.createtime->0,
                updatetime: self.updatetime->0,
            }),
    {
        match self.validate_builder() {
            Err(e) => return Err(e),
            Ok(()) => {},
        }
        let id = match self.id {
            Some(v) => v,
            None => None,
        };
        let request_comments = match self.request_comments {
            Some(v) => v,
            None => None,
        };
        let status = match self.status {
            Some(v) => v,
            None => RentalStatus::Pending,
        };
        match (
            self.venue_id,
            self.organizer_id,
            self.start_time,
            self.end_time,
            self.activity_type,
            self.createtime,
            self.updatetime,
        ) {
            (
                Some(venue_id),
                Some(organizer_id),
                Some(start_time),
                Some(end_time),
                Some(activity_type),
                Some(createtime),
                Some(updatetime),
            ) => Ok(
                Rental {
                    id,
                    venue_id,
                    organizer_id,
                    start_time,
                    end_time,
                    activity_type,
                    request_comments,
                    status,
                    createtime,
                    updatetime,
                },
            ),
            _ => Err(DomainCoreError::Other(String::new())),
        }
    }
}

/// A request is decided once it has left `Pending`: after that neither
/// accepting, rejecting nor cancelling it succeeds, and each fails with
/// `RentalMustBePending`.
pub proof fn lemma_decided_rental_is_final(v: RentalView, organizer_id: i64, now: Timestamp)
    requires
        v.status != RentalStatus::Pending,
    ensures
        accept_outcome(v, now) == Err::<RentalView, DomainCoreError>(must_be_pending()),
        reject_outcome(v, now) == Err::<RentalView, DomainCoreError>(must_be_pending()),
        cancel_outcome(v, organizer_id, now) == Err::<RentalView, DomainCoreError>(
            must_be_pending(),
        ),
{
}

/// A decision is taken at most once: whatever succeeds on a pending request
/// (accept, reject or cancel), no second decision succeeds on its result.
pub proof fn lemma_decisions_happen_once(
    v: RentalView,
    organizer_id: i64,
    now1: Timestamp,
    now2: Timestamp,
)
    ensures
        accept_outcome(v, now1) matches Ok(a) ==> accept_outcome(a, now2) is Err && reject_outcome(
            a,
            now2,
        ) is Err && cancel_outcome(a, organizer_id, now2) is Err,
        reject_outcome(v, now1) matches Ok(a) ==> accept_outcome(a, now2) is Err && reject_outcome(
            a,
            now2,
        ) is Err && cancel_outcome(a, organizer_id, now2) is Err,
        cancel_outcome(v, organizer_id, now1) matches Ok(a) ==> accept_outcome(a, now2) is Err
            && reject_outcome(a, now2) is Err && cancel_outcome(a, organizer_id, now2) is Err,
{
}

/// No operation changes what was requested: id, venue, organizer, activity,
/// comments and creation time stay as they were.
pub proof fn lemma_operations_keep_request(
    v: RentalView,
    organizer_id: i64,
    now: Timestamp,
)
    ensures
        accept_outcome(v, now) matches Ok(a) ==> same_request(v, a),
        reject_outcome(v, now) matches Ok(a) ==> same_request(v, a),
        cancel_outcome(v, organizer_id, now) matches Ok(a) ==> same_request(v, a) && a.organizer_id
            == organizer_id,
        same_request(v, finish_outcome(v, now)),
{
}

/// Moving a request's dates depends on the clock only through its two
/// readings: for the same request, period, organizer and readings, any two
/// outcomes agree, failing with the same error and the same times written
/// out, or giving requests with the same contents.
pub proof fn lemma_set_date_outcome_determined(
    v: RentalView,
    now: Timestamp,
    updatetime: Timestamp,
    start_time: Timestamp,
    end_time: Timestamp,
    organizer_id: i64,
    r1: Result<Rental, DomainCoreError>,
    r2: Result<Rental, DomainCoreError>,
)
    requires
        set_date_outcome(v, now, updatetime, start_time, end_time, organizer_id, r1),
        set_date_outcome(v, now, updatetime, start_time, end_time, organizer_id, r2),
    ensures
        r1 is Ok <==> r2 is Ok,
        r1 matches Ok(a) ==> (r2 matches Ok(b) && a@ == b@),
        r1 matches Err(DomainCoreError::RentalError(RentalError::InvalidRentalTime(s1, e1))) ==> (
        r2 matches Err(DomainCoreError::RentalError(RentalError::InvalidRentalTime(s2, e2))) && s1@
            == s2@ && e1@ == e2@),
        r1 is Err && !(r1 matches Err(DomainCoreError::RentalError(
            RentalError::InvalidRentalTime(_, _),
        ))) ==> r1 == r2,
{
}

} // verus!
