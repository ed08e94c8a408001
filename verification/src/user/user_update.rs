//! A request to change a user's profile, and the checks it must pass.
use vstd::prelude::*;
use vstd::string::*;

use crate::error::{DomainCoreError, UserError};
use crate::user::UserGender;
use crate::validation::{
    check_email_opt, check_length_opt, check_url_opt, garde_email_rejection, garde_url_rejection,
    length_rejection, opt_text, report_text, utf8_len, validation_report, checks_view, FieldCheck,
};

verus! {

/// The profile fields that an update may set.
#[derive(Debug, Clone, PartialEq, Eq)]
pub struct UserUpdate {
    pub username: Option<String>,
    pub email: Option<String>,
    pub password: Option<String>,
    pub avatar: Option<String>,
    pub introduce: Option<String>,
    pub gender: Option<UserGender>,
}

/// The contents of a profile update.
pub struct UserUpdateView {
    pub username: Option<Seq<char>>,
    pub email: Option<Seq<char>>,
    pub password: Option<Seq<char>>,
    pub avatar: Option<Seq<char>>,
    pub introduce: Option<Seq<char>>,
    pub gender: Option<UserGender>,
}

impl View for UserUpdate {
    type V = UserUpdateView;

    open spec fn view(&self) -> UserUpdateView {
        UserUpdateView {
            username: opt_text(self.username),
            email: opt_text(self.email),
            password: opt_text(self.password),
            avatar: opt_text(self.avatar),
            introduce: opt_text(self.introduce),
            gender: self.gender,
        }
    }
}

/// The update sets no field.
pub open spec fn user_update_is_empty(up: UserUpdateView) -> bool {
    up.username is None && up.email is None && up.password is None && up.avatar is None
        && up.introduce is None && up.gender is None
}

/// A length rule on an optional text.
pub open spec fn length_rejection_opt(v: Option<Seq<char>>, min: int, max: int) -> Option<Seq<char>> {
    match v {
        Some(s) => length_rejection(utf8_len(s), min, max),
        None => None,
    }
}

/// The email rule on an optional text.
pub open spec fn email_rejection_opt(v: Option<Seq<char>>) -> Option<Seq<char>> {
    match v {
        Some(s) => garde_email_rejection(s),
        None => None,
    }
}

/// The url rule on an optional text.
pub open spec fn url_rejection_opt(v: Option<Seq<char>>) -> Option<Seq<char>> {
    match v {
        Some(s) => garde_url_rejection(s),
        None => None,
    }
}

/// The checks of a profile update, in field order: the username holds 5 to
/// 200 bytes, the email is an address, the password holds 8 to 50 bytes, the
/// avatar is a url and the introduction holds 6 to 200 bytes.
pub open spec fn user_update_checks(up: UserUpdateView) -> Seq<(Seq<char>, Option<Seq<char>>)> {
    seq![
        ("username"@, length_rejection_opt(up.username, 5, 200)),
        ("email"@, email_rejection_opt(up.email)),
        ("password"@, length_rejection_opt(up.password, 8, 50)),
        ("avatar"@, url_rejection_opt(up.avatar)),
        ("introduce"@, length_rejection_opt(up.introduce, 6, 200)),
    ]
}

/// The update sets a field and every check passes.
pub open spec fn user_update_valid(up: UserUpdateView) -> bool {
    !user_update_is_empty(up) && report_text(user_update_checks(up)).len() == 0
}

/// `e` is the error that an update which is not valid is refused with: an
/// empty update must include a field; otherwise the failed checks are listed.
pub open spec fn user_update_error(e: DomainCoreError, up: UserUpdateView) -> bool {
    if user_update_is_empty(up) {
        e == DomainCoreError::MustIncludeFieldForUpdate
    } else {
        e matches DomainCoreError::UserError(UserError::FieldValidatedFail(m)) && m@ == report_text(
            user_update_checks(up),
        ) && m@.len() > 0
    }
}

impl Default for UserUpdate {
    fn default() -> (r: Self)
        ensures
            user_update_is_empty(r@),
    {
        UserUpdate {
            username: None,
            email: None,
            password: None,
            avatar: None,
            introduce: None,
            gender: None,
        }
    }
}

impl UserUpdate {
    /// An update that sets nothing.
    pub fn new() -> (r: Self)
        ensures
            user_update_is_empty(r@),
    {
        UserUpdate::default()
    }

    pub fn is_empty(&self) -> (r: bool)
        ensures
            r == user_update_is_empty(self@),
            r <==> (self.username is None && self.email is None && self.password is None
                && self.avatar is None && self.introduce is None && self.gender is None),
    {
        self.username.is_none() && self.email.is_none() && self.password.is_none()
            && self.avatar.is_none() && self.introduce.is_none() && self.gender.is_none()
    }

    /// An update must set a field, and every field it sets must pass its check.
    pub fn valid_update(&self) -> (r: Result<(), DomainCoreError>)
        ensures
            r is Ok <==> user_update_valid(self@),
            r matches Err(e) ==> user_update_error(e, self@),
            // the reasons that garde gives, as they stand in the report
            self@.email matches Some(v) ==> (garde_email_rejection(v) matches Some(m)
                ==> "not a valid email: "@.is_prefix_of(m)),
            self@.email matches Some(v) ==> (v.len() == 0 ==> garde_email_rejection(v) is Some),
            self@.avatar matches Some(v) ==> (garde_url_rejection(v) matches Some(m)
                ==> "not a valid url: "@.is_prefix_of(m)),
    {
        if self.is_empty() {
            return Err(DomainCoreError::MustIncludeFieldForUpdate);
        }
        let mut checks: Vec<FieldCheck> = Vec::new();
        checks.push(
            FieldCheck {
                path: String::from_str("username"),
                error: check_length_opt(&self.username, 5, 200),
            },
        );
        checks.push(
            FieldCheck { path: String::from_str("email"), error: check_email_opt(&self.email) },
        );
        checks.push(
            FieldCheck {
                path: String::from_str("password"),
                error: check_length_opt(&self.password, 8, 50),
            },
        );
        checks.push(
            FieldCheck { path: String::from_str("avatar"), error: check_url_opt(&self.avatar) },
        );
        checks.push(
            FieldCheck {
                path: String::from_str("introduce"),
                error: check_length_opt(&self.introduce, 6, 200),
            },
        );
        proof {
            assert(checks_view(checks@) =~= user_update_checks(self@));
        }
        let err_msg = validation_report(&checks);
        if err_msg.unicode_len() != 0 {
            return Err(DomainCoreError::UserError(UserError::FieldValidatedFail(err_msg)));
        }
        Ok(())
    }
}

} // verus!
