//! Venues that lessors offer: their details, images and publication status.
use vstd::prelude::*;

use crate::error::{missing_field, DomainCoreError};
use crate::time::{Clock, Timestamp};
use crate::validation::opt_text;

pub mod venue_image;
pub mod venue_update;

use self::venue_image::{VenueImage, VenueImageView};
use self::venue_update::{venue_update_error, venue_update_valid, VenueUpdate, VenueUpdateView};

verus! {

/// Whether a venue is shown to organizers.
#[derive(Debug, Clone, Copy, PartialEq, Eq, Structural)]
pub enum VenueStatus {
    Published,
    Unpublished,
}

/// A venue offered for rent.
#[derive(Debug, Clone, PartialEq, Eq)]
pub struct Venue {
    id: Option<i64>,
    lessor_id: i64,
    name: String,
    address: String,
    images: Vec<VenueImage>,
    capacity: i32,
    description: Option<String>,
    is_show: bool,
    is_delete: bool,
    status: VenueStatus,
    createtime: Timestamp,
    updatetime: Timestamp,
}

/// The contents of a venue.
pub struct VenueView {
    pub id: Option<i64>,
    pub lessor_id: i64,
    pub name: Seq<char>,
    pub address: Seq<char>,
    pub images: Seq<VenueImageView>,
    pub capacity: i32,
    pub description: Option<Seq<char>>,
    pub is_show: bool,
    pub is_delete: bool,
    pub status: VenueStatus,
    pub createtime: Timestamp,
    pub updatetime: Timestamp,
}

/// The views of a sequence of images.
pub open spec fn images_view(images: Seq<VenueImage>) -> Seq<VenueImageView> {
    images.map_values(|i: VenueImage| i@)
}

impl Venue {
    pub closed spec fn model(&self) -> VenueView {
        VenueView {
            id: self.id,
            lessor_id: self.lessor_id,
            name: self.name@,
            address: self.address@,
            images: images_view(self.images@),
            capacity: self.capacity,
            description: opt_text(self.description),
            is_show: self.is_show,
            is_delete: self.is_delete,
            status: self.status,
            createtime: self.createtime,
            updatetime: self.updatetime,
        }
    }
}

impl View for Venue {
    type V = VenueView;

    open spec fn view(&self) -> VenueView {
        self.model()
    }
}

/// The venue after an update that passed its checks: name, address and
/// capacity change where the update sets them, the description becomes the
/// update's, set or not.
pub open spec fn apply_venue_update(v: VenueView, up: VenueUpdateView, now: Timestamp) -> VenueView {
    VenueView {
        name: match up.name {
            Some(x) => x,
            None => v.name,
        },
        address: match up.address {
            Some(x) => x,
            None => v.address,
        },
        capacity: match up.capacity {
            Some(x) => x,
            None => v.capacity,
        },
        description: up.description,
        updatetime: now,
        ..v
    }
}

impl Venue {
    /// Publishes the venue at `now`.
    pub fn list_venue_at(self, now: Timestamp) -> (r: Self)
        ensures
            r@ == (VenueView { status: VenueStatus::Published, updatetime: now, ..self@ }),
    {
        Venue { status: VenueStatus::Published, updatetime: now, ..self }
    }

    /// Publishes the venue at the clock's time.
    pub fn list_venue(self, time: &impl Clock) -> (r: Self)
        ensures
            r@ == (VenueView { status: VenueStatus::Published, updatetime: r@.updatetime, ..self@ }),
    {
        let now = time.now();
        self.list_venue_at(now)
    }

    /// Withdraws the venue at `now`.
    pub fn unlist_venue_at(self, now: Timestamp) -> (r: Self)
        ensures
            r@ == (VenueView { status: VenueStatus::Unpublished, updatetime: now, ..self@ }),
    {
        Venue { status: VenueStatus::Unpublished, updatetime: now, ..self }
    }

    /// Withdraws the venue at the clock's time.
    pub fn unlist_venue(self, time: &impl Clock) -> (r: Self)
        ensures
            r@ == (VenueView {
                status: VenueStatus::Unpublished,
                updatetime: r@.updatetime,
                ..self@
            }),
    {
        let now = time.now();
        self.unlist_venue_at(now)
    }

    /// Marks the venue deleted at `now`.
    pub fn delete_venue_at(self, now: Timestamp) -> (r: Self)
        ensures
            r@ == (VenueView { is_delete: true, updatetime: now, ..self@ }),
    {
        Venue { is_delete: true, updatetime: now, ..self }
    }

    /// Marks the venue deleted at the clock's time.
    pub fn delete_venue(self, time: &impl Clock) -> (r: Self)
        ensures
            r@ == (VenueView { is_delete: true, updatetime: r@.updatetime, ..self@ }),
    {
        let now = time.now();
        self.delete_venue_at(now)
    }

    /// Applies an update at `now`; the update must pass its checks.
    pub fn update_venue_at(self, update: VenueUpdate, now: Timestamp) -> (r: Result<
        Self,
        DomainCoreError,
    >)
        ensures
            !venue_update_valid(update@) ==> (r matches Err(e) && venue_update_error(e, update@)),
            venue_update_valid(update@) ==> (r matches Ok(x) && x@ == apply_venue_update(
                self@,
                update@,
                now,
            )),
            // what the update sets replaces the venue's field; the rest stays
            venue_update_valid(update@) ==> (r matches Ok(x) && (update@.name matches Some(n)
                ==> x@.name == n) && (update@.name is None ==> x@.name == self@.name)),
            venue_update_valid(update@) ==> (r matches Ok(x) && (update@.address matches Some(n)
                ==> x@.address == n) && (update@.address is None ==> x@.address == self@.address)),
            venue_update_valid(update@) ==> (r matches Ok(x) && (update@.capacity matches Some(n)
                ==> x@.capacity == n) && (update@.capacity is None ==> x@.capacity == self@.capacity)),
            venue_update_valid(update@) ==> (r matches Ok(x) && x@.description == update@.description),
            venue_update_valid(update@) ==> (r matches Ok(x) && x@.updatetime == now),
            venue_update_valid(update@) ==> (r matches Ok(x) && x@.id == self@.id
                && x@.lessor_id == self@.lessor_id
                && x@.images == self@.images
                && x@.is_show == self@.is_show
                && x@.is_delete == self@.is_delete
                && x@.status == self@.status
                && x@.createtime == self@.createtime),
    {
        match update.is_vaild_update_command() {
            Err(e) => return Err(e),
            Ok(()) => {},
        }
        let mut venue = self;
        if let Some(v) = update.name {
            venue.name = v;
        }
        if let Some(v) = update.address {
            venue.address = v;
        }
        if let Some(v) = update.capacity {
            venue.capacity = v;
        }
        venue.description = update.description;
        venue.updatetime = now;
        Ok(venue)
    }

    /// Applies an update, stamping the venue with the clock's time.
    pub fn update_venue(self, update: VenueUpdate, time: &impl Clock) -> (r: Result<
        Self,
        DomainCoreError,
    >)
        ensures
            !venue_update_valid(update@) ==> (r matches Err(e) && venue_update_error(e, update@)),
            venue_update_valid(update@) ==> (r matches Ok(x) && x@ == apply_venue_update(
                self@,
                update@,
                x@.updatetime,
            )),
            // what the update sets replaces the venue's field; the rest stays
            venue_update_valid(update@) ==> (r matches Ok(x) && (update@.name matches Some(n)
                ==> x@.name == n) && (update@.name is None ==> x@.name == self@.name)),
            venue_update_valid(update@) ==> (r matches Ok(x) && (update@.address matches Some(n)
                ==> x@.address == n) && (update@.address is None ==> x@.address == self@.address)),
            venue_update_valid(update@) ==> (r matches Ok(x) && (update@.capacity matches Some(n)
                ==> x@.capacity == n) && (update@.capacity is None ==> x@.capacity == self@.capacity)),
            venue_update_valid(update@) ==> (r matches Ok(x) && x@.description == update@.description),
            venue_update_valid(update@) ==> (r matches Ok(x) && x@.id == self@.id
                && x@.lessor_id == self@.lessor_id
                && x@.images == self@.images
                && x@.is_show == self@.is_show
                && x@.is_delete == self@.is_delete
                && x@.status == self@.status
                && x@.createtime == self@.createtime),
    {
        match update.is_vaild_update_command() {
            Err(e) => return Err(e),
            Ok(()) => {},
        }
        let now = time.now();
        self.update_venue_at(update, now)
    }

    /// Replaces the venue's images at `now`.
    pub fn update_images_at(self, images: Vec<VenueImage>, now: Timestamp) -> (r: Self)
        ensures
            r@ == (VenueView { images: images_view(images@), updatetime: now, ..self@ }),
    {
        Venue { images, updatetime: now, ..self }
    }

    /// Replaces the venue's images at the clock's time.
    pub fn update_images(self, images: Vec<VenueImage>, time: &impl Clock) -> (r: Self)
        ensures
            r@ == (VenueView { images: images_view(images@), updatetime: r@.updatetime, ..self@ }),
    {
        let now = time.now();
        self.update_images_at(images, now)
    }
}

impl Venue {
    pub fn id(&self) -> (r: &Option<i64>)
        ensures
            *r == self@.id,
    {
        &self.id
    }

    pub fn lessor_id(&self) -> (r: &i64)
        ensures
            *r == self@.lessor_id,
    {
        &self.lessor_id
    }

    pub fn name(&self) -> (r: &str)
        ensures
            r@ == self@.name,
    {
        self.name.as_str()
    }

    pub fn address(&self) -> (r: &str)
        ensures
            r@ == self@.address,
    {
        self.address.as_str()
    }

    pub fn images(&self) -> (r: &Vec<VenueImage>)
        ensures
            images_view(r@) == self@.images,
    {
        &self.images
    }

    pub fn capacity(&self) -> (r: &i32)
        ensures
            *r == self@.capacity,
    {
        &self.capacity
    }

    pub fn description(&self) -> (r: &Option<String>)
        ensures
            opt_text(*r) == self@.description,
    {
        &self.description
    }

    pub fn is_show(&self) -> (r: &bool)
        ensures
            *r == self@.is_show,
    {
        &self.is_show
    }

    pub fn is_delete(&self) -> (r: &bool)
        ensures
            *r == self@.is_delete,
    {
        &self.is_delete
    }

    pub fn status(&self) -> (r: &VenueStatus)
        ensures
            *r == self@.status,
    {
        &self.status
    }

    pub fn createtime(&self) -> (r: &Timestamp)
        ensures
            *r == self@.createtime,
    {
        &self.createtime
    }

    pub fn updatetime(&self) -> (r: &Timestamp)
        ensures
            *r == self@.updatetime,
    {
        &self.updatetime
    }
}

/// Collects the fields of a venue before it is built.
#[derive(Debug, Clone)]
pub struct VenueBuilder {
    pub id: Option<Option<i64>>,
    pub lessor_id: Option<i64>,
    pub name: Option<String>,
    pub address: Option<String>,
    pub images: Option<Vec<VenueImage>>,
    pub capacity: Option<i32>,
    pub description: Option<Option<String>>,
    pub is_show: Option<bool>,
    pub is_delete: Option<bool>,
    pub status: Option<VenueStatus>,
    pub createtime: Option<Timestamp>,
    pub updatetime: Option<Timestamp>,
}

/// The first required field of a venue builder that is not set.
pub open spec fn venue_builder_first_missing(b: VenueBuilder) -> Option<Seq<char>> {
    if b.lessor_id is None {
        Some("lessor_id"@)
    } else if b.name is None {
        Some("name"@)
    } else if b.address is None {
        Some("address"@)
    } else if b.images is None {
        Some("images"@)
    } else if b.capacity is None {
        Some("capacity"@)
    } else if b.createtime is None {
        Some("createtime"@)
    } else if b.updatetime is None {
        Some("updatetime"@)
    } else {
        None
    }
}

impl Default for VenueBuilder {
    fn default() -> (r: Self)
        ensures
            r.id is None && r.lessor_id is None && r.name is None && r.address is None
                && r.images is None && r.capacity is None && r.description is None
                && r.is_show is None && r.is_delete is None && r.status is None
                && r.createtime is None && r.updatetime is None,
    {
        VenueBuilder {
            id: None,
            lessor_id: None,
            name: None,
            address: None,
            images: None,
            capacity: None,
            description: None,
            is_show: None,
            is_delete: None,
            status: None,
            createtime: None,
            updatetime: None,
        }
    }
}

impl VenueBuilder {
    pub fn id(self, v: Option<i64>) -> (r: Self)
        ensures
            r == (VenueBuilder { id: Some(v), ..self }),
    {
        VenueBuilder { id: Some(v), ..self }
    }

    pub fn lessor_id(self, v: i64) -> (r: Self)
        ensures
            r == (VenueBuilder { lessor_id: Some(v), ..self }),
    {
        VenueBuilder { lessor_id: Some(v), ..self }
    }

    pub fn name(self, v: String) -> (r: Self)
        ensures
            r == (VenueBuilder { name: Some(v), ..self }),
    {
        VenueBuilder { name: Some(v), ..self }
    }

    pub fn address(self, v: String) -> (r: Self)
        ensures
            r == (VenueBuilder { address: Some(v), ..self }),
    {
        VenueBuilder { address: Some(v), ..self }
    }

    pub fn images(self, v: Vec<VenueImage>) -> (r: Self)
        ensures
            r == (VenueBuilder { images: Some(v), ..self }),
    {
        VenueBuilder { images: Some(v), ..self }
    }

    pub fn capacity(self, v: i32) -> (r: Self)
        ensures
            r == (VenueBuilder { capacity: Some(v), ..self }),
    {
        VenueBuilder { capacity: Some(v), ..self }
    }

    pub fn description(self, v: Option<String>) -> (r: Self)
        ensures
            r == (VenueBuilder { description: Some(v), ..self }),
    {
        VenueBuilder { description: Some(v), ..self }
    }

    pub fn is_show(self, v: bool) -> (r: Self)
        ensures
            r == (VenueBuilder { is_show: Some(v), ..self }),
    {
        VenueBuilder { is_show: Some(v), ..self }
    }

    pub fn is_delete(self, v: bool) -> (r: Self)
        ensures
            r == (VenueBuilder { is_delete: Some(v), ..self }),
    {
        VenueBuilder { is_delete: Some(v), ..self }
    }

    pub fn status(self, v: VenueStatus) -> (r: Self)
        ensures
            r == (VenueBuilder { status: Some(v), ..self }),
    {
        VenueBuilder { status: Some(v), ..self }
    }

    pub fn createtime(self, v: Timestamp) -> (r: Self)
        ensures
            r == (VenueBuilder { createtime: Some(v), ..self }),
    {
        VenueBuilder { createtime: Some(v), ..self }
    }

    pub fn updatetime(self, v: Timestamp) -> (r: Self)
        ensures
            r == (VenueBuilder { updatetime: Some(v), ..self }),
    {
        VenueBuilder { updatetime: Some(v), ..self }
    }

    fn validate_builder(&self) -> (r: Result<(), DomainCoreError>)
        ensures
            r is Ok <==> venue_builder_first_missing(*self) is None,
            r matches Err(e) ==> (e matches DomainCoreError::MissingField(m) && Some(m@)
                == venue_builder_first_missing(*self)),
    {
        if self.lessor_id.is_none() {
            return Err(missing_field("lessor_id"));
        }
        if self.name.is_none() {
            return Err(missing_field("name"));
        }
        if self.address.is_none() {
            return Err(missing_field("address"));
        }
        if self.images.is_none() {
            return Err(missing_field("images"));
        }
        if self.capacity.is_none() {
            return Err(missing_field("capacity"));
        }
        if self.createtime.is_none() {
            return Err(missing_field("createtime"));
        }
        if self.updatetime.is_none() {
            return Err(missing_field("updatetime"));
        }
        Ok(())
    }

    /// Builds the venue: lessor, name, address, images, capacity and both
    /// times are required; the id and description default to none, `is_show`
    /// to true, `is_delete` to false and the status to `Unpublished`.
    pub fn build(self) -> (r: Result<Venue, DomainCoreError>)
        ensures
            r is Ok <==> venue_builder_first_missing(self) is None,
            r matches Err(e) ==> (e matches DomainCoreError::MissingField(m) && Some(m@)
                == venue_builder_first_missing(self)),
            r matches Ok(x) ==> x@ == (VenueView {
                id: match self.id {
                    Some(v) => v,
                    None => None,
                },
                lessor_id: self.lessor_id->0,
                name: self.name->0@,
                address: self.address->0@,
                images: images_view(self.images->0@),
                capacity: self.capacity->0,
                description: match self.description {
                    Some(v) => opt_text(v),
                    None => None,
                },
                is_show: match self.is_show {
                    Some(v) => v,
                    None => true,
                },
                is_delete: match self.is_delete {
                    Some(v) => v,
                    None => false,
                },
                status: match self.status {
                    Some(v) => v,
                    None => VenueStatus::Unpublished,
                },
                createtime: self.createtime->0,
                updatetime: self.updatetime->0,
            }),
    {
        match self.validate_builder() {
            Err(e) => return Err(e),
            Ok(()) => {},
        }
        let id = match self.id {
            Some(v) => v,
            None => None,
        };
        let description = match self.description {
            Some(v) => v,
            None => None,
        };
        let is_show = match self.is_show {
            Some(v) => v,
            None => true,
        };
        let is_delete = match self.is_delete {
            Some(v) => v,
            None => false,
        };
        let status = match self.status {
            Some(v) => v,
            None => VenueStatus::Unpublished,
        };
        match (
            self.lessor_id,
            self.name,
            self.address,
            self.images,
            self.capacity,
            self.createtime,
            self.updatetime,
        ) {
            (
                Some(lessor_id),
                Some(name),
                Some(address),
                Some(images),
                Some(capacity),
                Some(createtime),
                Some(updatetime),
            ) => Ok(
                Venue {
                    id,
                    lessor_id,
                    name,
                    address,
                    images,
                    capacity,
                    description,
                    is_show,
                    is_delete,
                    status,
                    createtime,
                    updatetime,
                },
            ),
            _ => Err(DomainCoreError::Other(String::new())),
        }
    }
}

/// Publishing and withdrawing touch nothing but the status and the stamp:
/// a venue withdrawn after being published is the venue it was, unpublished.
pub proof fn lemma_publication_round_trip(v: VenueView, t1: Timestamp, t2: Timestamp)
    ensures
        ({
            let published = VenueView { status: VenueStatus::Published, updatetime: t1, ..v };
            let withdrawn = VenueView {
                status: VenueStatus::Unpublished,
                updatetime: t2,
                ..published
            };
            withdrawn == (VenueView { status: VenueStatus::Unpublished, updatetime: t2, ..v })
        }),
{
}

/// An accepted update writes each field it sets into the venue (name,
/// address, capacity), keeps each field it leaves unset, replaces the
/// description with its own, stamps the venue, and touches nothing else.
pub proof fn lemma_venue_update_fields(v: VenueView, up: VenueUpdateView, now: Timestamp)
    ensures
        ({
            let r = apply_venue_update(v, up, now);
            &&& up.name matches Some(n) ==> r.name == n
            &&& up.name is None ==> r.name == v.name
            &&& up.address matches Some(a) ==> r.address == a
            &&& up.address is None ==> r.address == v.address
            &&& up.capacity matches Some(c) ==> r.capacity == c
            &&& up.capacity is None ==> r.capacity == v.capacity
            &&& r.description == up.description
            &&& r.updatetime == now
            &&& r.id == v.id && r.lessor_id == v.lessor_id && r.images == v.images
            &&& r.is_show == v.is_show && r.is_delete == v.is_delete && r.status == v.status
            &&& r.createtime == v.createtime
        }),
{
}

} // verus!
