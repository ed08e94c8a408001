//! Requests of the web API turned into the commands that use cases take.
use vstd::prelude::*;
use vstd::string::*;

use crate::api::middleware::{activity_from_text, get_activity_type};
use crate::api::CustomResponseError;
use crate::rental::ActivityType;
use crate::time::Timestamp;
use crate::validation::{check_email, garde_email_rejection};

verus! {

/// The body of a request for a rental.
#[derive(Debug, Clone, PartialEq, Eq)]
pub struct CreateRentalData {
    pub venue_id: i64,
    pub start_time: Timestamp,
    pub end_time: Timestamp,
    /// `all`, `exhibition` or `seminar`.
    pub activity_type: String,
    pub request_comments: Option<String>,
}

/// A request for a rental, by the organizer who makes it.
#[derive(Debug, Clone, PartialEq, Eq)]
pub struct CreateRentalCommand {
    pub venue_id: i64,
    pub organizer_id: i64,
    pub start_time: Timestamp,
    pub end_time: Timestamp,
    pub activity_type: ActivityType,
    pub request_comments: Option<String>,
}

/// The command for the organizer `o_id`'s request `l`: the activity type
/// must be one that the API names.
pub fn get_command(l: CreateRentalData, o_id: i64) -> (r: Result<
    CreateRentalCommand,
    CustomResponseError,
>)
    ensures
        activity_from_text(l.activity_type@) matches Some(a) ==> (r matches Ok(c) && c.venue_id
            == l.venue_id && c.organizer_id == o_id && c.start_time == l.start_time && c.end_time
            == l.end_time && c.activity_type == a && c.request_comments == l.request_comments),
        activity_from_text(l.activity_type@) is None ==> (r matches Err(
            CustomResponseError::BadRequest(m),
        ) && m@ == "The activity type is wrong"@),
{
    let activity_type = match get_activity_type(l.activity_type.as_str()) {
        Ok(a) => a,
        Err(e) => return Err(e),
    };
    Ok(
        CreateRentalCommand {
            venue_id: l.venue_id,
            organizer_id: o_id,
            start_time: l.start_time,
            end_time: l.end_time,
            activity_type,
            request_comments: l.request_comments,
        },
    )
}

/// How a user names the account to log in to.
#[derive(Debug, Clone, Copy, PartialEq, Eq, Structural)]
pub enum LoginType {
    Email,
    Username,
}

/// The body of a login request.
#[derive(Debug, Clone, PartialEq, Eq)]
pub struct LoginData {
    /// The email address or the user name.
    pub identifier: String,
    pub password: String,
    pub login_type: LoginType,
}

/// The account to log in to.
#[derive(Debug, Clone, PartialEq, Eq)]
pub enum UserLoginType {
    Email(String),
    UserName(String),
}

/// A login, with the account and the password given.
#[derive(Debug, Clone, PartialEq, Eq)]
pub struct LoginUserCommand {
    pub login_type: UserLoginType,
    pub password: String,
}

/// The message of a rejected email address, as a validation report on the
/// field `address` writes it: the field, a colon, the reason and a newline.
pub open spec fn email_report(reason: Seq<char>) -> Seq<char> {
    "address: "@ + reason + "\n"@
}

/// The command for a login: an email address must pass the `email` rule,
/// else the request is bad, with the report as its message.
pub fn get_login_command(l: LoginData) -> (r: Result<LoginUserCommand, CustomResponseError>)
    ensures
        l.login_type == LoginType::Username ==> (r matches Ok(c) && c.login_type
            == UserLoginType::UserName(l.identifier) && c.password == l.password),
        l.login_type == LoginType::Email ==> (garde_email_rejection(l.identifier@) is None ==> (
        r matches Ok(c) && c.login_type == UserLoginType::Email(l.identifier) && c.password
            == l.password)),
        l.login_type == LoginType::Email ==> (garde_email_rejection(l.identifier@) matches Some(
            reason,
        ) ==> (r matches Err(CustomResponseError::BadRequest(m)) && m@ == email_report(reason))),
{
    match l.login_type {
        LoginType::Email => {
            match check_email(l.identifier.as_str()) {
                Some(reason) => {
                    let mut m = String::from_str("address: ");
                    m.append(reason.as_str());
                    m.append("\n");
                    Err(CustomResponseError::BadRequest(m))
                },
                None => Ok(
                    LoginUserCommand {
                        login_type: UserLoginType::Email(l.identifier),
                        password: l.password,
                    },
                ),
            }
        },
        LoginType::Username => Ok(
            LoginUserCommand { login_type: UserLoginType::UserName(l.identifier), password: l.password },
        ),
    }
}

} // verus!
