//! Lessors: users who offer venues for rent.
use vstd::prelude::*;

use crate::error::{missing_field, DomainCoreError};
use crate::time::{Clock, Timestamp};
use crate::user::User;

verus! {

/// A user acting as a lessor.
#[derive(Debug, Clone, PartialEq, Eq)]
pub struct Lessor {
    user: User,
    id: Option<i64>,
    phone: String,
    is_delete: bool,
    createtime: Timestamp,
    updatetime: Timestamp,
}

/// The contents of a lessor record.
pub struct LessorView {
    pub user: User,
    pub id: Option<i64>,
    pub phone: Seq<char>,
    pub is_delete: bool,
    pub createtime: Timestamp,
    pub updatetime: Timestamp,
}

impl Lessor {
    pub closed spec fn model(&self) -> LessorView {
        LessorView {
            user: self.user,
            id: self.id,
            phone: self.phone@,
            is_delete: self.is_delete,
            createtime: self.createtime,
            updatetime: self.updatetime,
        }
    }
}

impl View for Lessor {
    type V = LessorView;

    open spec fn view(&self) -> LessorView {
        self.model()
    }
}

impl Lessor {
    /// The record with the given id.
    pub fn set_id(self, id: Option<i64>) -> (r: Self)
        ensures
            r@ == (LessorView { id, ..self@ }),
    {
        Lessor { id, ..self }
    }

    /// Marks the record deleted at `now`.
    pub fn set_delete_at(self, now: Timestamp) -> (r: Self)
        ensures
            r@ == (LessorView { is_delete: true, updatetime: now, ..self@ }),
    {
        Lessor { is_delete: true, updatetime: now, ..self }
    }

    /// Marks the record deleted at the clock's time.
    pub fn set_delete(self, time: &impl Clock) -> (r: Self)
        ensures
            r@ == (LessorView { is_delete: true, updatetime: r@.updatetime, ..self@ }),
    {
        let now = time.now();
        self.set_delete_at(now)
    }

    /// The account behind the record, to change in place.
    pub fn user_mut(&mut self) -> (r: &mut User)
        ensures
            *r == old(self)@.user,
            final(self)@ == (LessorView { user: *final(r), ..old(self)@ }),
    {
        &mut self.user
    }

    pub fn user(&self) -> (r: &User)
        ensures
            *r == self@.user,
    {
        &self.user
    }

    pub fn id(&self) -> (r: Option<i64>)
        ensures
            r == self@.id,
    {
        self.id
    }

    pub fn phone(&self) -> (r: &str)
        ensures
            r@ == self@.phone,
    {
        self.phone.as_str()
    }

    pub fn is_delete(&self) -> (r: bool)
        ensures
            r == self@.is_delete,
    {
        self.is_delete
    }

    pub fn createtime(&self) -> (r: Timestamp)
        ensures
            r == self@.createtime,
    {
        self.createtime
    }

    pub fn updatetime(&self) -> (r: Timestamp)
        ensures
            r == self@.updatetime,
    {
        self.updatetime
    }
}

/// Collects the fields of a lessor record before it is built.
#[derive(Debug, Clone)]
pub struct LessorBuilder {
    pub user: Option<User>,
    pub id: Option<Option<i64>>,
    pub phone: Option<String>,
    pub is_delete: Option<bool>,
    pub createtime: Option<Timestamp>,
    pub updatetime: Option<Timestamp>,
}

/// The first required field of a lessor builder that is not set.
pub open spec fn lessor_builder_first_missing(b: LessorBuilder) -> Option<Seq<char>> {
    if b.user is None {
        Some("user"@)
    } else if b.phone is None {
        Some("phone"@)
    } else if b.createtime is None {
        Some("createtime"@)
    } else if b.updatetime is None {
        Some("updatetime"@)
    } else {
        None
    }
}

impl Default for LessorBuilder {
    fn default() -> (r: Self)
        ensures
            r.user is None && r.id is None && r.phone is None && r.is_delete is None
                && r.createtime is None && r.updatetime is None,
    {
        LessorBuilder {
            user: None,
            id: None,
            phone: None,
            is_delete: None,
            createtime: None,
            updatetime: None,
        }
    }
}

impl LessorBuilder {
    pub fn user(self, v: User) -> (r: Self)
        ensures
            r == (LessorBuilder { user: Some(v), ..self }),
    {
        LessorBuilder { user: Some(v), ..self }
    }

    pub fn id(self, v: Option<i64>) -> (r: Self)
        ensures
            r == (LessorBuilder { id: Some(v), ..self }),
    {
        LessorBuilder { id: Some(v), ..self }
    }

    pub fn phone(self, v: String) -> (r: Self)
        ensures
            r == (LessorBuilder { phone: Some(v), ..self }),
    {
        LessorBuilder { phone: Some(v), ..self }
    }

    pub fn is_delete(self, v: bool) -> (r: Self)
        ensures
            r == (LessorBuilder { is_delete: Some(v), ..self }),
    {
        LessorBuilder { is_delete: Some(v), ..self }
    }

    pub fn createtime(self, v: Timestamp) -> (r: Self)
        ensures
            r == (LessorBuilder { createtime: Some(v), ..self }),
    {
        LessorBuilder { createtime: Some(v), ..self }
    }

    pub fn updatetime(self, v: Timestamp) -> (r: Self)
        ensures
            r == (LessorBuilder { updatetime: Some(v), ..self }),
    {
        LessorBuilder { updatetime: Some(v), ..self }
    }

    fn validate_builder(&self) -> (r: Result<(), DomainCoreError>)
        ensures
            r is Ok <==> lessor_builder_first_missing(*self) is None,
            r matches Err(e) ==> (e matches DomainCoreError::MissingField(m) && Some(m@)
                == lessor_builder_first_missing(*self)),
    {
        if self.user.is_none() {
            return Err(missing_field("user"));
        }
        if self.phone.is_none() {
            return Err(missing_field("phone"));
        }
        if self.createtime.is_none() {
            return Err(missing_field("createtime"));
        }
        if self.updatetime.is_none() {
            return Err(missing_field("updatetime"));
        }
        Ok(())
    }

    /// Builds the record: user, phone and both times are required; the id
    /// defaults to none and `is_delete` to false.
    pub fn build(self) -> (r: Result<Lessor, DomainCoreError>)
        ensures
            r is Ok <==> lessor_builder_first_missing(self) is None,
            r matches Err(e) ==> (e matches DomainCoreError::MissingField(m) && Some(m@)
                == lessor_builder_first_missing(self)),
            r matches Ok(x) ==> x@ == (LessorView {
                user: self.user->0,
                id: match self.id {
                    Some(v) => v,
                    None => None,
                },
                phone: self.phone->0@,
                is_delete: match self.is_delete {
                    Some(v) => v,
                    None => false,
                },
                createtime: self.createtime->0,
                updatetime: self.updatetime->0,
            }),
    {
        match self.validate_builder() {
            Err(e) => return Err(e),
            Ok(()) => {},
        }
        let id = match self.id {
            Some(v) => v,
            None => None,
        };
        let is_delete = match self.is_delete {
            Some(v) => v,
            None => false,
        };
        match (self.user, self.phone, self.createtime, self.updatetime) {
            (Some(user), Some(phone), Some(createtime), Some(updatetime)) => Ok(
                Lessor { user, id, phone, is_delete, createtime, updatetime },
            ),
            _ => Err(DomainCoreError::Other(String::new())),
        }
    }
}

} // verus!
