//! Users of the platform: their profile, status and the rules for changing it.
use vstd::prelude::*;
use vstd::string::*;

use crate::error::{missing_field, uninitialized_field, DomainCoreError};
use crate::text::str_eq;
use crate::time::{Clock, Timestamp};
use crate::validation::opt_text;

pub mod lessor;
pub mod organizer;
pub mod user_update;

use self::user_update::{user_update_error, user_update_valid, UserUpdate};

verus! {

/// The gender a user states.
#[derive(Debug, Clone, Copy, PartialEq, Eq, Structural)]
pub enum UserGender {
    Male,
    Female,
    Nonbinary,
    PreferNotToSay,
}

/// The gender named by a text, if the text names one.
pub open spec fn gender_from_text(s: Seq<char>) -> Option<UserGender> {
    if s == "male"@ {
        Some(UserGender::Male)
    } else if s == "female"@ {
        Some(UserGender::Female)
    } else if s == "non-binary"@ {
        Some(UserGender::Nonbinary)
    } else if s == "prefer-not-to-say"@ {
        Some(UserGender::PreferNotToSay)
    } else {
        None
    }
}

impl UserGender {
    /// The name of the gender as it is shown and stored.
    pub open spec fn text(self) -> Seq<char> {
        match self {
            UserGender::Male => "male"@,
            UserGender::Female => "female"@,
            UserGender::Nonbinary => "non-binary"@,
            UserGender::PreferNotToSay => "prefer-not-to-say"@,
        }
    }

    /// Reads a gender from its name.
    pub fn get_gender(gender: &str) -> (r: Option<Self>)
        ensures
            r == gender_from_text(gender@),
    {
        if str_eq(gender, "male") {
            Some(UserGender::Male)
        } else if str_eq(gender, "female") {
            Some(UserGender::Female)
        } else if str_eq(gender, "non-binary") {
            Some(UserGender::Nonbinary)
        } else if str_eq(gender, "prefer-not-to-say") {
            Some(UserGender::PreferNotToSay)
        } else {
            None
        }
    }

    pub fn to_string(&self) -> (r: String)
        ensures
            r@ == self.text(),
    {
        match self {
            UserGender::Male => String::from_str("male"),
            UserGender::Female => String::from_str("female"),
            UserGender::Nonbinary => String::from_str("non-binary"),
            UserGender::PreferNotToSay => String::from_str("prefer-not-to-say"),
        }
    }
}

/// Reading a gender back from its name gives the same gender, and only the
/// four names are read as genders.
pub proof fn lemma_gender_text_round_trip(g: UserGender, s: Seq<char>)
    ensures
        gender_from_text(g.text()) == Some(g),
        gender_from_text(s) matches Some(h) ==> s == h.text(),
{
    reveal_strlit("male");
    reveal_strlit("female");
    reveal_strlit("non-binary");
    reveal_strlit("prefer-not-to-say");
    assert("male"@.len() == 4);
    assert("female"@.len() == 6);
    assert("non-binary"@.len() == 10);
    assert("prefer-not-to-say"@.len() == 17);
}

/// Whether a user may act on the platform.
#[derive(Debug, Clone, Copy, PartialEq, Eq, Structural)]
pub enum UserStatus {
    Active,
    Ban,
}

/// A user account.
#[derive(Debug, Clone, PartialEq, Eq)]
pub struct User {
    id: Option<i64>,
    username: String,
    email: String,
    avatar: String,
    gender: UserGender,
    password: String,
    introduce: Option<String>,
    is_show: bool,
    is_delete: bool,
    status: UserStatus,
    createtime: Timestamp,
    updatetime: Timestamp,
}

/// The contents of a user account.
pub struct UserView {
    pub id: Option<i64>,
    pub username: Seq<char>,
    pub email: Seq<char>,
    pub avatar: Seq<char>,
    pub gender: UserGender,
    pub password: Seq<char>,
    pub introduce: Option<Seq<char>>,
    pub is_show: bool,
    pub is_delete: bool,
    pub status: UserStatus,
    pub createtime: Timestamp,
    pub updatetime: Timestamp,
}

impl User {
    pub closed spec fn model(&self) -> UserView {
        UserView {
            id: self.id,
            username: self.username@,
            email: self.email@,
            avatar: self.avatar@,
            gender: self.gender,
            password: self.password@,
            introduce: opt_text(self.introduce),
            is_show: self.is_show,
            is_delete: self.is_delete,
            status: self.status,
            createtime: self.createtime,
            updatetime: self.updatetime,
        }
    }
}

impl View for User {
    type V = UserView;

    open spec fn view(&self) -> UserView {
        self.model()
    }
}

/// A user may log in while the account is neither deleted nor banned.
pub open spec fn spec_can_login(u: UserView) -> bool {
    !u.is_delete && u.status == UserStatus::Active
}

/// The view of the outcome of a user operation.
pub open spec fn user_result(r: Result<User, DomainCoreError>) -> Result<UserView, DomainCoreError> {
    match r {
        Ok(x) => Ok(x@),
        Err(e) => Err(e),
    }
}

impl User {
    /// The account with its stored id.
    pub fn update_id(self, id: i64) -> (r: Self)
        ensures
            r@ == (UserView { id: Some(id), ..self@ }),
    {
        User { id: Some(id), ..self }
    }

    /// Replaces the email address, stamping the account with `now`.
    pub fn update_email_at(self, new_email: String, now: Timestamp) -> (r: Self)
        ensures
            r@ == (UserView { email: new_email@, updatetime: now, ..self@ }),
    {
        User { email: new_email, updatetime: now, ..self }
    }

    /// Replaces the email address, stamping the account with the clock's time.
    pub fn update_email(self, new_email: String, time: &impl Clock) -> (r: Self)
        ensures
            r@ == (UserView { email: new_email@, updatetime: r@.updatetime, ..self@ }),
    {
        let now = time.now();
        self.update_email_at(new_email, now)
    }

    /// Bans the account at `now`.
    pub fn ban_user_at(self, now: Timestamp) -> (r: Self)
        ensures
            r@ == (UserView { status: UserStatus::Ban, updatetime: now, ..self@ }),
    {
        User { status: UserStatus::Ban, updatetime: now, ..self }
    }

    /// Bans the account at the clock's time.
    pub fn ban_user(self, time: &impl Clock) -> (r: Self)
        ensures
            r@ == (UserView { status: UserStatus::Ban, updatetime: r@.updatetime, ..self@ }),
    {
        let now = time.now();
        self.ban_user_at(now)
    }

    /// Marks the account deleted at `now`.
    pub fn delete_user_at(self, now: Timestamp) -> (r: Self)
        ensures
            r@ == (UserView { is_delete: true, updatetime: now, ..self@ }),
    {
        User { is_delete: true, updatetime: now, ..self }
    }

    /// Marks the account deleted at the clock's time.
    pub fn delete_user(self, time: &impl Clock) -> (r: Self)
        ensures
            r@ == (UserView { is_delete: true, updatetime: r@.updatetime, ..self@ }),
    {
        let now = time.now();
        self.delete_user_at(now)
    }

    /// Replaces the stated gender, stamping the account with `now`.
    pub fn update_gender_at(self, gender: UserGender, now: Timestamp) -> (r: Self)
        ensures
            r@ == (UserView { gender, updatetime: now, ..self@ }),
    {
        User { gender, updatetime: now, ..self }
    }

    /// Replaces the stated gender, stamping the account with the clock's time.
    pub fn update_gender(self, gender: UserGender, time: impl Clock) -> (r: Self)
        ensures
            r@ == (UserView { gender, updatetime: r@.updatetime, ..self@ }),
    {
        let now = time.now();
        self.update_gender_at(gender, now)
    }

    /// Applies a profile update at `now`: the update must pass its checks;
    /// then every field it sets replaces the account's, and the introduction
    /// becomes the update's, set or not.
    pub fn update_user_at(self, update: UserUpdate, now: Timestamp) -> (r: Result<
        Self,
        DomainCoreError,
    >)
        ensures
            !user_update_valid(update@) ==> (r matches Err(e) && user_update_error(e, update@)),
            user_update_valid(update@) ==> (r matches Ok(x) && x@ == apply_user_update(
                self@,
                update@,
                now,
            )),
            // what the update sets replaces the user's field; the rest stays
            user_update_valid(update@) ==> (r matches Ok(x) && (update@.username matches Some(n)
                ==> x@.username == n) && (update@.username is None ==> x@.username == self@.username)),
            user_update_valid(update@) ==> (r matches Ok(x) && (update@.email matches Some(n)
                ==> x@.email == n) && (update@.email is None ==> x@.email == self@.email)),
            user_update_valid(update@) ==> (r matches Ok(x) && (update@.gender matches Some(n)
                ==> x@.gender == n) && (update@.gender is None ==> x@.gender == self@.gender)),
            user_update_valid(update@) ==> (r matches Ok(x) && (update@.avatar matches Some(n)
                ==> x@.avatar == n) && (update@.avatar is None ==> x@.avatar == self@.avatar)),
            user_update_valid(update@) ==> (r matches Ok(x) && (update@.password matches Some(n)
                ==> x@.password == n) && (update@.password is None ==> x@.password == self@.password)),
            user_update_valid(update@) ==> (r matches Ok(x) && x@.introduce == update@.introduce),
            user_update_valid(update@) ==> (r matches Ok(x) && x@.updatetime == now),
            user_update_valid(update@) ==> (r matches Ok(x) && x@.id == self@.id
                && x@.is_show == self@.is_show
                && x@.is_delete == self@.is_delete
                && x@.status == self@.status
                && x@.createtime == self@.createtime),
    {
        match update.valid_update() {
            Err(e) => return Err(e),
            Ok(()) => {},
        }
        let mut user = self;
        if let Some(v) = update.username {
            user.username = v;
        }
        if let Some(v) = update.email {
            user.email = v;
        }
        if let Some(v) = update.gender {
            user.gender = v;
        }
        if let Some(v) = update.avatar {
            user.avatar = v;
        }
        if let Some(v) = update.password {
            user.password = v;
        }
        user.introduce = update.introduce;
        user.updatetime = now;
        Ok(user)
    }

    /// Applies a profile update, stamping the account with the clock's time.
    pub fn update_user(self, update: UserUpdate, time: &impl Clock) -> (r: Result<
        Self,
        DomainCoreError,
    >)
        ensures
            !user_update_valid(update@) ==> (r matches Err(e) && user_update_error(e, update@)),
            user_update_valid(update@) ==> (r matches Ok(x) && x@ == apply_user_update(
                self@,
                update@,
                x@.updatetime,
            )),
            // what the update sets replaces the user's field; the rest stays
            user_update_valid(update@) ==> (r matches Ok(x) && (update@.username matches Some(n)
                ==> x@.username == n) && (update@.username is None ==> x@.username == self@.username)),
            user_update_valid(update@) ==> (r matches Ok(x) && (update@.email matches Some(n)
                ==> x@.email == n) && (update@.email is None ==> x@.email == self@.email)),
            user_update_valid(update@) ==> (r matches Ok(x) && (update@.gender matches Some(n)
                ==> x@.gender == n) && (update@.gender is None ==> x@.gender == self@.gender)),
            user_update_valid(update@) ==> (r matches Ok(x) && (update@.avatar matches Some(n)
                ==> x@.avatar == n) && (update@.avatar is None ==> x@.avatar == self@.avatar)),
            user_update_valid(update@) ==> (r matches Ok(x) && (update@.password matches Some(n)
                ==> x@.password == n) && (update@.password is None ==> x@.password == self@.password)),
            user_update_valid(update@) ==> (r matches Ok(x) && x@.introduce == update@.introduce),
            user_update_valid(update@) ==> (r matches Ok(x) && x@.id == self@.id
                && x@.is_show == self@.is_show
                && x@.is_delete == self@.is_delete
                && x@.status == self@.status
                && x@.createtime == self@.createtime),
    {
        match update.valid_update() {
            Err(e) => return Err(e),
            Ok(()) => {},
        }
        let now = time.now();
        self.update_user_at(update, now)
    }

    /// Whether the user may log in: the account is neither deleted nor banned.
    pub fn can_login(&self) -> (r: bool)
        ensures
            r == spec_can_login(self@),
    {
        !self.is_delete && self.status == UserStatus::Active
    }
}

/// The account after a profile update that passed its checks.
pub open spec fn apply_user_update(
    u: UserView,
    up: user_update::UserUpdateView,
    now: Timestamp,
) -> UserView {
    UserView {
        username: match up.username {
            Some(v) => v,
            None => u.username,
        },
        email: match up.email {
            Some(v) => v,
            None => u.email,
        },
        gender: match up.gender {
            Some(v) => v,
            None => u.gender,
        },
        avatar: match up.avatar {
            Some(v) => v,
            None => u.avatar,
        },
        password: match up.password {
            Some(v) => v,
            None => u.password,
        },
        introduce: up.introduce,
        updatetime: now,
        ..u
    }
}

impl User {
    pub fn password(&self) -> (r: &str)
        ensures
            r@ == self@.password,
    {
        self.password.as_str()
    }

    pub fn id(&self) -> (r: Option<i64>)
        ensures
            r == self@.id,
    {
        self.id
    }

    pub fn username(&self) -> (r: &str)
        ensures
            r@ == self@.username,
    {
        self.username.as_str()
    }

    pub fn email(&self) -> (r: &str)
        ensures
            r@ == self@.email,
    {
        self.email.as_str()
    }

    pub fn avatar(&self) -> (r: &str)
        ensures
            r@ == self@.avatar,
    {
        self.avatar.as_str()
    }

    pub fn gender(&self) -> (r: &UserGender)
        ensures
            *r == self@.gender,
    {
        &self.gender
    }

    pub fn introduce(&self) -> (r: &Option<String>)
        ensures
            opt_text(*r) == self@.introduce,
    {
        &self.introduce
    }

    pub fn is_show(&self) -> (r: bool)
        ensures
            r == self@.is_show,
    {
        self.is_show
    }

    pub fn is_delete(&self) -> (r: bool)
        ensures
            r == self@.is_delete,
    {
        self.is_delete
    }

    pub fn status(&self) -> (r: &UserStatus)
        ensures
            *r == self@.status,
    {
        &self.status
    }

    pub fn createtime(&self) -> (r: &Timestamp)
        ensures
            *r == self@.createtime,
    {
        &self.createtime
    }

    pub fn updatetime(&self) -> (r: &Timestamp)
        ensures
            *r == self@.updatetime,
    {
        &self.updatetime
    }
}

/// Collects the fields of a user account before it is built.
#[derive(Debug, Clone)]
pub struct UserBuilder {
    pub id: Option<Option<i64>>,
    pub username: Option<String>,
    pub email: Option<String>,
    pub avatar: Option<String>,
    pub gender: Option<UserGender>,
    pub password: Option<String>,
    pub introduce: Option<Option<String>>,
    pub is_show: Option<bool>,
    pub is_delete: Option<bool>,
    pub status: Option<UserStatus>,
    pub createtime: Option<Timestamp>,
    pub updatetime: Option<Timestamp>,
}

/// The first required field of a user builder that its check finds unset.
pub open spec fn user_builder_first_missing(b: UserBuilder) -> Option<Seq<char>> {
    if b.username is None {
        Some("username"@)
    } else if b.email is None {
        Some("email"@)
    } else if b.avatar is None {
        Some("avatar"@)
    } else if b.gender is None {
        Some("gender"@)
    } else if b.createtime is None {
        Some("createtime"@)
    } else if b.updatetime is None {
        Some("updatetime"@)
    } else {
        None
    }
}

impl Default for UserBuilder {
    fn default() -> (r: Self)
        ensures
            r.id is None && r.username is None && r.email is None && r.avatar is None
                && r.gender is None && r.password is None && r.introduce is None
                && r.is_show is None && r.is_delete is None && r.status is None
                && r.createtime is None && r.updatetime is None,
    {
        UserBuilder {
            id: None,
            username: None,
            email: None,
            avatar: None,
            gender: None,
            password: None,
            introduce: None,
            is_show: None,
            is_delete: None,
            status: None,
            createtime: None,
            updatetime: None,
        }
    }
}

impl UserBuilder {
    pub fn id(self, v: Option<i64>) -> (r: Self)
        ensures
            r == (UserBuilder { id: Some(v), ..self }),
    {
        UserBuilder { id: Some(v), ..self }
    }

    pub fn username(self, v: String) -> (r: Self)
        ensures
            r == (UserBuilder { username: Some(v), ..self }),
    {
        UserBuilder { username: Some(v), ..self }
    }

    pub fn email(self, v: String) -> (r: Self)
        ensures
            r == (UserBuilder { email: Some(v), ..self }),
    {
        UserBuilder { email: Some(v), ..self }
    }

    pub fn avatar(self, v: String) -> (r: Self)
        ensures
            r == (UserBuilder { avatar: Some(v), ..self }),
    {
        UserBuilder { avatar: Some(v), ..self }
    }

    pub fn gender(self, v: UserGender) -> (r: Self)
        ensures
            r == (UserBuilder { gender: Some(v), ..self }),
    {
        UserBuilder { gender: Some(v), ..self }
    }

    pub fn password(self, v: String) -> (r: Self)
        ensures
            r == (UserBuilder { password: Some(v), ..self }),
    {
        UserBuilder { password: Some(v), ..self }
    }

    pub fn introduce(self, v: Option<String>) -> (r: Self)
        ensures
            r == (UserBuilder { introduce: Some(v), ..self }),
    {
        UserBuilder { introduce: Some(v), ..self }
    }

    pub fn is_show(self, v: bool) -> (r: Self)
        ensures
            r == (UserBuilder { is_show: Some(v), ..self }),
    {
        UserBuilder { is_show: Some(v), ..self }
    }

    pub fn is_delete(self, v: bool) -> (r: Self)
        ensures
            r == (UserBuilder { is_delete: Some(v), ..self }),
    {
        UserBuilder { is_delete: Some(v), ..self }
    }

    pub fn status(self, v: UserStatus) -> (r: Self)
        ensures
            r == (UserBuilder { status: Some(v), ..self }),
    {
        UserBuilder { status: Some(v), ..self }
    }

    pub fn createtime(self, v: Timestamp) -> (r: Self)
        ensures
            r == (UserBuilder { createtime: Some(v), ..self }),
    {
        UserBuilder { createtime: Some(v), ..self }
    }

    pub fn updatetime(self, v: Timestamp) -> (r: Self)
        ensures
            r == (UserBuilder { updatetime: Some(v), ..self }),
    {
        UserBuilder { updatetime: Some(v), ..self }
    }

    fn validate_builder(&self) -> (r: Result<(), DomainCoreError>)
        ensures
            r is Ok <==> user_builder_first_missing(*self) is None,
            r matches Err(e) ==> (e matches DomainCoreError::MissingField(m) && Some(m@)
                == user_builder_first_missing(*self)),
    {
        if self.username.is_none() {
            return Err(missing_field("username"));
        }
        if self.email.is_none() {
            return Err(missing_field("email"));
        }
        if self.avatar.is_none() {
            return Err(missing_field("avatar"));
        }
        if self.gender.is_none() {
            return Err(missing_field("gender"));
        }
        if self.createtime.is_none() {
            return Err(missing_field("createtime"));
        }
        if self.updatetime.is_none() {
            return Err(missing_field("updatetime"));
        }
        Ok(())
    }

    /// Builds the account. The builder's check names the first missing one of
    /// username, email, avatar, gender, createtime and updatetime; a missing
    /// password is then reported as an uninitialized field. The id and
    /// introduction default to none, `is_show` to true, `is_delete` to false
    /// and the status to `Active`.
    pub fn build(self) -> (r: Result<User, DomainCoreError>)
        ensures
            user_builder_first_missing(self) matches Some(f) ==> (r matches Err(
                DomainCoreError::MissingField(m),
            ) && m@ == f),
            user_builder_first_missing(self) is None && self.password is None ==> (r matches Err(
                DomainCoreError::EntityBuildFail(m),
            ) && m@ == "Field not initialized: "@ + "password"@),
            r is Ok <==> user_builder_first_missing(self) is None && self.password is Some,
            r matches Ok(x) ==> x@ == (UserView {
                id: match self.id {
                    Some(v) => v,
                    None => None,
                },
                username: self.username->0@,
                email: self.email->0@,
                avatar: self.avatar->0@,
                gender: self.gender->0,
                password: self.password->0@,
                introduce: match self.introduce {
                    Some(v) => opt_text(v),
                    None => None,
                },
                is_show: match self.is_show {
                    Some(v) => v,
                    None => true,
                },
                is_delete: match self.is_delete {
                    Some(v) => v,
                    None => false,
                },
                status: match self.status {
                    Some(v) => v,
                    None => UserStatus::Active,
                },
                createtime: self.createtime->0,
                updatetime: self.updatetime->0,
            }),
    {
        match self.validate_builder() {
            Err(e) => return Err(e),
            Ok(()) => {},
        }
        let id = match self.id {
            Some(v) => v,
            None => None,
        };
        let introduce = match self.introduce {
            Some(v) => v,
            None => None,
        };
        let is_show = match self.is_show {
            Some(v) => v,
            None => true,
        };
        let is_delete = match self.is_delete {
            Some(v) => v,
            None => false,
        };
        let status = match self.status {
            Some(v) => v,
            None => UserStatus::Active,
        };
        let password = match self.password {
            Some(v) => v,
            None => return Err(uninitialized_field("password")),
        };
        match (self.username, self.email, self.avatar, self.gender, self.createtime, self.updatetime) {
            (
                Some(username),
                Some(email),
                Some(avatar),
                Some(gender),
                Some(createtime),
                Some(updatetime),
            ) => Ok(
                User {
                    id,
                    username,
                    email,
                    avatar,
                    gender,
                    password,
                    introduce,
                    is_show,
                    is_delete,
                    status,
                    createtime,
                    updatetime,
                },
            ),
            _ => Err(DomainCoreError::Other(String::new())),
        }
    }
}

/// A banned or deleted account cannot log in, and a profile update leaves
/// the ability to log in as it was.
pub proof fn lemma_login_gate(
    u: UserView,
    up: user_update::UserUpdateView,
    now: Timestamp,
)
    ensures
        !spec_can_login(UserView { status: UserStatus::Ban, updatetime: now, ..u }),
        !spec_can_login(UserView { is_delete: true, updatetime: now, ..u }),
        spec_can_login(apply_user_update(u, up, now)) == spec_can_login(u),
{
}

/// An accepted profile update writes each field it sets into the account
/// (username, email, gender, avatar, password), keeps each field it leaves
/// unset, replaces the introduction with its own, stamps the account, and
/// touches nothing else.
pub proof fn lemma_user_update_fields(u: UserView, up: user_update::UserUpdateView, now: Timestamp)
    ensures
        ({
            let r = apply_user_update(u, up, now);
            &&& up.username matches Some(n) ==> r.username == n
            &&& up.username is None ==> r.username == u.username
            &&& up.email matches Some(e) ==> r.email == e
            &&& up.email is None ==> r.email == u.email
            &&& up.gender matches Some(g) ==> r.gender == g
            &&& up.gender is None ==> r.gender == u.gender
            &&& up.avatar matches Some(a) ==> r.avatar == a
            &&& up.avatar is None ==> r.avatar == u.avatar
            &&& up.password matches Some(p) ==> r.password == p
            &&& up.password is None ==> r.password == u.password
            &&& r.introduce == up.introduce
            &&& r.updatetime == now
            &&& r.id == u.id && r.is_show == u.is_show && r.is_delete == u.is_delete
            &&& r.status == u.status && r.createtime == u.createtime
        }),
{
}

} // verus!
