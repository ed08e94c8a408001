//! Who is calling: reading the caller's identity from the token's claims,
//! and the gates that the rental and venue routes put in front of it.
use vstd::prelude::*;
use vstd::string::*;

use crate::api::response_code::CodeEnum;
use crate::api::CustomResponseError;
use crate::rental::ActivityType;
use crate::text::{i64_from_text, parse_i64, str_eq};

verus! {

/// The identity of an authenticated caller.
#[derive(Debug, Clone, Copy, PartialEq, Eq, Structural)]
pub struct UserAuthRequest {
    pub user_id: i64,
    pub lessor_id: Option<i64>,
    pub organizer_id: Option<i64>,
}

/// Why a request is turned away before it reaches its handler.
#[derive(Debug, Clone, Copy, PartialEq, Eq, Structural)]
pub enum AuthRejection {
    /// The server's shared state is not available.
    MissingAppState,
    /// The request carries no token.
    MissingToken,
    /// The token or one of its claims is not in the expected format.
    IllegalToken,
    /// The token does not grant access.
    AccessDenied,
}

/// The HTTP status, body code and message of a rejection.
pub open spec fn rejection_reply(r: AuthRejection) -> (u16, CodeEnum, Seq<char>) {
    match r {
        AuthRejection::MissingAppState => (500, CodeEnum::ServiceError, "500 Server Error"@),
        AuthRejection::MissingToken => (403, CodeEnum::Forbidden, "Access denied."@),
        AuthRejection::IllegalToken => (401, CodeEnum::Unauthorized, "Token format is illegal."@),
        AuthRejection::AccessDenied => (403, CodeEnum::Forbidden, "Access denied."@),
    }
}

impl AuthRejection {
    /// The HTTP status, body code and message the rejection is answered with.
    pub fn reply(&self) -> (r: (u16, CodeEnum, String))
        ensures
            r.0 == rejection_reply(*self).0,
            r.1 == rejection_reply(*self).1,
            r.2@ == rejection_reply(*self).2,
    {
        match self {
            AuthRejection::MissingAppState => (
                500,
                CodeEnum::ServiceError,
                String::from_str("500 Server Error"),
            ),
            AuthRejection::MissingToken => (403, CodeEnum::Forbidden, String::from_str("Access denied.")),
            AuthRejection::IllegalToken => (
                401,
                CodeEnum::Unauthorized,
                String::from_str("Token format is illegal."),
            ),
            AuthRejection::AccessDenied => (403, CodeEnum::Forbidden, String::from_str("Access denied.")),
        }
    }
}

/// An optional claim read as a number.
pub open spec fn optional_claim(s: Option<Seq<char>>) -> Result<Option<i64>, AuthRejection> {
    match s {
        None => Ok(None),
        Some(t) => match i64_from_text(t) {
            Some(v) => Ok(Some(v)),
            None => Err(AuthRejection::IllegalToken),
        },
    }
}

/// Reads an optional claim as a number: absent stays absent, and a claim
/// that is not a number makes the token illegal.
pub fn option_string2i64(s: Option<String>) -> (r: Result<Option<i64>, AuthRejection>)
    ensures
        r == optional_claim(crate::validation::opt_text(s)),
{
    match s {
        None => Ok(None),
        Some(t) => match parse_i64(t.as_str()) {
            Some(v) => Ok(Some(v)),
            None => Err(AuthRejection::IllegalToken),
        },
    }
}

/// The caller's identity from the claims of a token: the subject is the user
/// id; the lessor and organizer ids are optional. The claims are read in that
/// order and the first one that is not a number makes the token illegal.
pub open spec fn claims_identity(
    sub: Seq<char>,
    lessor_id: Option<Seq<char>>,
    organizer_id: Option<Seq<char>>,
) -> Result<UserAuthRequest, AuthRejection> {
    match i64_from_text(sub) {
        None => Err(AuthRejection::IllegalToken),
        Some(u) => match optional_claim(lessor_id) {
            Err(e) => Err(e),
            Ok(lv) => match optional_claim(organizer_id) {
                Err(e) => Err(e),
                Ok(ov) => Ok(UserAuthRequest { user_id: u, lessor_id: lv, organizer_id: ov }),
            },
        },
    }
}

/// The caller's identity from the token's claims.
pub fn auth_request_from_claims(
    sub: &str,
    lessor_id: Option<String>,
    organizer_id: Option<String>,
) -> (r: Result<UserAuthRequest, AuthRejection>)
    ensures
        r == claims_identity(
            sub@,
            crate::validation::opt_text(lessor_id),
            crate::validation::opt_text(organizer_id),
        ),
        // the identity is read when every claim present is a number, and
        // each claim is read on its own
        r is Ok <==> (i64_from_text(sub@) is Some && (lessor_id matches Some(t) ==> i64_from_text(
            t@,
        ) is Some) && (organizer_id matches Some(t) ==> i64_from_text(t@) is Some)),
        r is Err ==> r == Err::<UserAuthRequest, AuthRejection>(AuthRejection::IllegalToken),
        r matches Ok(a) ==> Some(a.user_id) == i64_from_text(sub@),
        r matches Ok(a) ==> (lessor_id is None ==> a.lessor_id is None),
        r matches Ok(a) ==> (lessor_id matches Some(t) ==> a.lessor_id == i64_from_text(t@)),
        r matches Ok(a) ==> (organizer_id is None ==> a.organizer_id is None),
        r matches Ok(a) ==> (organizer_id matches Some(t) ==> a.organizer_id == i64_from_text(t@)),
{
    let user_id = match parse_i64(sub) {
        Some(v) => v,
        None => return Err(AuthRejection::IllegalToken),
    };
    let lessor_id = match option_string2i64(lessor_id) {
        Ok(v) => v,
        Err(e) => return Err(e),
    };
    let organizer_id = match option_string2i64(organizer_id) {
        Ok(v) => v,
        Err(e) => return Err(e),
    };
    Ok(UserAuthRequest { user_id, lessor_id, organizer_id })
}

/// What the `Authorization` header of a request holds.
#[derive(Debug, Clone, PartialEq, Eq)]
pub enum AuthHeader {
    Absent,
    /// Present, but not visible ASCII text.
    NotText,
    Token(String),
}

/// The claims that a decoded token carries.
#[derive(Debug, Clone, PartialEq, Eq)]
pub struct TokenClaims {
    pub sub: String,
    pub lessor_id: Option<String>,
    pub organizer_id: Option<String>,
}

/// The first checks on a request, in their order: the application state
/// must be there, then the header, then it must be text; the token is the
/// header's text.
pub fn token_of_request(has_state: bool, header: AuthHeader) -> (r: Result<String, AuthRejection>)
    ensures
        !has_state ==> r == Err::<String, AuthRejection>(AuthRejection::MissingAppState),
        has_state && header is Absent ==> r == Err::<String, AuthRejection>(
            AuthRejection::MissingToken,
        ),
        has_state && header is NotText ==> r == Err::<String, AuthRejection>(
            AuthRejection::IllegalToken,
        ),
        has_state ==> (header matches AuthHeader::Token(t) ==> (r matches Ok(u) && u@ == t@)),
{
    if !has_state {
        return Err(AuthRejection::MissingAppState);
    }
    match header {
        AuthHeader::Absent => Err(AuthRejection::MissingToken),
        AuthHeader::NotText => Err(AuthRejection::IllegalToken),
        AuthHeader::Token(t) => Ok(t),
    }
}

/// The checks after the token was decoded: a token that did not decode is
/// refused access; else the caller's identity is read from its claims.
pub fn identity_of_token(decoded: Result<TokenClaims, String>) -> (r: Result<
    UserAuthRequest,
    AuthRejection,
>)
    ensures
        decoded is Err ==> r == Err::<UserAuthRequest, AuthRejection>(AuthRejection::AccessDenied),
        decoded matches Ok(c) ==> r == claims_identity(
            c.sub@,
            crate::validation::opt_text(c.lessor_id),
            crate::validation::opt_text(c.organizer_id),
        ),
        decoded matches Ok(c) ==> (r matches Ok(a) ==> Some(a.user_id) == i64_from_text(c.sub@)),
        decoded matches Ok(c) ==> (r matches Ok(a) ==> (c.lessor_id matches Some(t) ==> a.lessor_id
            == i64_from_text(t@))),
        decoded matches Ok(c) ==> (r matches Ok(a) ==> (c.organizer_id matches Some(t)
            ==> a.organizer_id == i64_from_text(t@))),
{
    match decoded {
        Err(_) => Err(AuthRejection::AccessDenied),
        Ok(c) => auth_request_from_claims(c.sub.as_str(), c.lessor_id, c.organizer_id),
    }
}

/// What a route gate does with a request.
#[derive(Debug, Clone, PartialEq, Eq)]
pub enum GateDecision {
    /// Let the request through.
    Continue,
    /// Fail it with an error carrying status, body code and message.
    Fail(u16, CodeEnum, String),
    /// Answer it directly with status, body code and message.
    Answer(u16, CodeEnum, String),
}

/// The organizer routes: a caller without identity is refused; one who is
/// not an organizer is answered `Bad request`.
pub fn rental_organizer_gate(identity: Option<UserAuthRequest>) -> (r: GateDecision)
    ensures
        identity is None ==> (r matches GateDecision::Fail(s, c, m) && s == 403 && c
            == CodeEnum::Forbidden && m@ == "Access denied."@),
        identity matches Some(i) ==> i.organizer_id is None ==> (r matches GateDecision::Answer(
            s,
            c,
            m,
        ) && s == 400 && c == CodeEnum::BadRequest && m@ == "Bad request"@),
        identity matches Some(i) ==> i.organizer_id is Some ==> r == GateDecision::Continue,
{
    match identity {
        None => GateDecision::Fail(403, CodeEnum::Forbidden, String::from_str("Access denied.")),
        Some(i) => {
            if i.organizer_id.is_none() {
                GateDecision::Answer(400, CodeEnum::BadRequest, String::from_str("Bad request"))
            } else {
                GateDecision::Continue
            }
        },
    }
}

/// The lessor routes for rentals: a caller without identity is refused; one
/// who is not a lessor is answered 403 with the text `Bad request`.
pub fn rental_lessor_gate(identity: Option<UserAuthRequest>) -> (r: GateDecision)
    ensures
        identity is None ==> (r matches GateDecision::Fail(s, c, m) && s == 403 && c
            == CodeEnum::Forbidden && m@ == "Access denied."@),
        identity matches Some(i) ==> i.lessor_id is None ==> (r matches GateDecision::Answer(
            s,
            c,
            m,
        ) && s == 403 && c == CodeEnum::Forbidden && m@ == "Bad request"@),
        identity matches Some(i) ==> i.lessor_id is Some ==> r == GateDecision::Continue,
{
    match identity {
        None => GateDecision::Fail(403, CodeEnum::Forbidden, String::from_str("Access denied.")),
        Some(i) => {
            if i.lessor_id.is_none() {
                GateDecision::Answer(403, CodeEnum::Forbidden, String::from_str("Bad request"))
            } else {
                GateDecision::Continue
            }
        },
    }
}

/// The venue management routes: a caller without identity is refused; one
/// who is not a lessor is answered `Forbidden`.
pub fn venue_gate(identity: Option<UserAuthRequest>) -> (r: GateDecision)
    ensures
        identity is None ==> (r matches GateDecision::Fail(s, c, m) && s == 403 && c
            == CodeEnum::Forbidden && m@ == "Access denied."@),
        identity matches Some(i) ==> i.lessor_id is None ==> (r matches GateDecision::Answer(
            s,
            c,
            m,
        ) && s == 403 && c == CodeEnum::Forbidden && m@ == "Forbidden"@),
        identity matches Some(i) ==> i.lessor_id is Some ==> r == GateDecision::Continue,
{
    match identity {
        None => GateDecision::Fail(403, CodeEnum::Forbidden, String::from_str("Access denied.")),
        Some(i) => {
            if i.lessor_id.is_none() {
                GateDecision::Answer(403, CodeEnum::Forbidden, String::from_str("Forbidden"))
            } else {
                GateDecision::Continue
            }
        },
    }
}

/// The caller's user id; a request without identity is unauthorized.
pub fn get_user_id(identity: Option<UserAuthRequest>) -> (r: Result<i64, CustomResponseError>)
    ensures
        identity matches Some(i) ==> r == Ok::<i64, CustomResponseError>(i.user_id),
        identity is None ==> (r matches Err(CustomResponseError::Unauthorized(m)) && m@
            == "Access denied"@),
{
    match identity {
        None => Err(CustomResponseError::Unauthorized(String::from_str("Access denied"))),
        Some(i) => Ok(i.user_id),
    }
}

/// The caller's organizer id; a request without identity is unauthorized and
/// a caller who is not an organizer is forbidden.
pub fn get_organizer_id(identity: Option<UserAuthRequest>) -> (r: Result<i64, CustomResponseError>)
    ensures
        identity is None ==> (r matches Err(CustomResponseError::Unauthorized(m)) && m@
            == "Access denied"@),
        identity matches Some(i) ==> i.organizer_id is None ==> (r matches Err(
            CustomResponseError::Forbidden(m),
        ) && m@ == "Access denied"@),
        identity matches Some(i) ==> i.organizer_id matches Some(o) ==> r == Ok::<
            i64,
            CustomResponseError,
        >(o),
{
    match identity {
        None => Err(CustomResponseError::Unauthorized(String::from_str("Access denied"))),
        Some(i) => match i.organizer_id {
            None => Err(CustomResponseError::Forbidden(String::from_str("Access denied"))),
            Some(o) => Ok(o),
        },
    }
}

/// The caller's lessor id; a request without identity is unauthorized and a
/// caller who is not a lessor is forbidden.
pub fn get_lessor_id(identity: Option<UserAuthRequest>) -> (r: Result<i64, CustomResponseError>)
    ensures
        identity is None ==> (r matches Err(CustomResponseError::Unauthorized(m)) && m@
            == "Access denied"@),
        identity matches Some(i) ==> i.lessor_id is None ==> (r matches Err(
            CustomResponseError::Forbidden(m),
        ) && m@ == "Access denied"@),
        identity matches Some(i) ==> i.lessor_id matches Some(l) ==> r == Ok::<
            i64,
            CustomResponseError,
        >(l),
{
    match identity {
        None => Err(CustomResponseError::Unauthorized(String::from_str("Access denied"))),
        Some(i) => match i.lessor_id {
            None => Err(CustomResponseError::Forbidden(String::from_str("Access denied"))),
            Some(l) => Ok(l),
        },
    }
}

/// The caller's user and lessor ids, under the same rules as `get_lessor_id`.
pub fn get_lessor_and_user_id(identity: Option<UserAuthRequest>) -> (r: Result<
    (i64, i64),
    CustomResponseError,
>)
    ensures
        identity is None ==> (r matches Err(CustomResponseError::Unauthorized(m)) && m@
            == "Access denied"@),
        identity matches Some(i) ==> i.lessor_id is None ==> (r matches Err(
            CustomResponseError::Forbidden(m),
        ) && m@ == "Access denied"@),
        identity matches Some(i) ==> i.lessor_id matches Some(l) ==> r == Ok::<
            (i64, i64),
            CustomResponseError,
        >((i.user_id, l)),
{
    match identity {
        None => Err(CustomResponseError::Unauthorized(String::from_str("Access denied"))),
        Some(i) => match i.lessor_id {
            None => Err(CustomResponseError::Forbidden(String::from_str("Access denied"))),
            Some(l) => Ok((i.user_id, l)),
        },
    }
}

/// The activity type named in a rental request form.
pub open spec fn activity_from_text(s: Seq<char>) -> Option<ActivityType> {
    if s == "all"@ {
        Some(ActivityType::All)
    } else if s == "exhibition"@ {
        Some(ActivityType::Exhibition)
    } else if s == "seminar"@ {
        Some(ActivityType::Seminar)
    } else {
        None
    }
}

/// Reads the activity type of a rental request form; any other text is a bad request.
pub fn get_activity_type(i: &str) -> (r: Result<ActivityType, CustomResponseError>)
    ensures
        activity_from_text(i@) matches Some(a) ==> r == Ok::<ActivityType, CustomResponseError>(a),
        activity_from_text(i@) is None ==> (r matches Err(CustomResponseError::BadRequest(m)) && m@
            == "The activity type is wrong"@),
{
    if str_eq(i, "all") {
        Ok(ActivityType::All)
    } else if str_eq(i, "exhibition") {
        Ok(ActivityType::Exhibition)
    } else if str_eq(i, "seminar") {
        Ok(ActivityType::Seminar)
    } else {
        Err(CustomResponseError::BadRequest(String::from_str("The activity type is wrong")))
    }
}

/// The names that an activity type is shown with are the names the form
/// reads it from.
pub proof fn lemma_activity_text_round_trip(a: ActivityType)
    ensures
        activity_from_text(a.text()) == Some(a),
{
    reveal_strlit("all");
    reveal_strlit("exhibition");
    reveal_strlit("seminar");
    assert("all"@.len() == 3);
    assert("exhibition"@.len() == 10);
    assert("seminar"@.len() == 7);
}

/// The claims of a token are read each on its own: the identity exists
/// exactly when the subject and every id present are numbers, and then the
/// user id is the subject's number, and the lessor id and the organizer id
/// are the numbers of their claims, or absent where the claim is, whatever
/// the other claim holds. A token that is not read is illegal.
pub proof fn lemma_claims_read_independently(
    sub: Seq<char>,
    lessor_id: Option<Seq<char>>,
    organizer_id: Option<Seq<char>>,
)
    ensures
        ({
            let r = claims_identity(sub, lessor_id, organizer_id);
            &&& r is Ok <==> (i64_from_text(sub) is Some && (lessor_id matches Some(t)
                ==> i64_from_text(t) is Some) && (organizer_id matches Some(t) ==> i64_from_text(
                t,
            ) is Some))
            &&& r is Err ==> r == Err::<UserAuthRequest, AuthRejection>(AuthRejection::IllegalToken)
            &&& r matches Ok(a) ==> Some(a.user_id) == i64_from_text(sub)
            &&& r matches Ok(a) ==> (lessor_id is None ==> a.lessor_id is None)
            &&& r matches Ok(a) ==> (lessor_id matches Some(t) ==> a.lessor_id == i64_from_text(t))
            &&& r matches Ok(a) ==> (organizer_id is None ==> a.organizer_id is None)
            &&& r matches Ok(a) ==> (organizer_id matches Some(t) ==> a.organizer_id
                == i64_from_text(t))
        }),
{
}

} // verus!
