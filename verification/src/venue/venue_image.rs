//! Images shown on a venue's page.
use vstd::prelude::*;
use vstd::string::*;

use crate::error::{DomainCoreError, VenueError};
use crate::time::Timestamp;
use crate::user::user_update::length_rejection_opt;
use crate::validation::{
    check_length, check_length_opt, check_url, checks_view, garde_url_rejection, length_rejection,
    opt_text, report_text, utf8_len, validation_report, FieldCheck,
};

verus! {

/// An image of a venue: a title, where it is stored and an optional comment.
#[derive(PartialEq, Eq, Clone, Debug)]
pub struct VenueImage {
    pub id: Option<i64>,
    pub venue_id: i64,
    pub title: String,
    pub uri: String,
    pub comment: Option<String>,
    pub createtime: Timestamp,
}

/// The contents of a venue image.
pub struct VenueImageView {
    pub id: Option<i64>,
    pub venue_id: i64,
    pub title: Seq<char>,
    pub uri: Seq<char>,
    pub comment: Option<Seq<char>>,
    pub createtime: Timestamp,
}

impl View for VenueImage {
    type V = VenueImageView;

    open spec fn view(&self) -> VenueImageView {
        VenueImageView {
            id: self.id,
            venue_id: self.venue_id,
            title: self.title@,
            uri: self.uri@,
            comment: opt_text(self.comment),
            createtime: self.createtime,
        }
    }
}

/// The checks of an image, in field order: the title holds 6 to 200 bytes,
/// the uri is a url and the comment holds 6 to 500 bytes.
pub open spec fn venue_image_checks(i: VenueImageView) -> Seq<(Seq<char>, Option<Seq<char>>)> {
    seq![
        ("title"@, length_rejection(utf8_len(i.title), 6, 200)),
        ("uri"@, garde_url_rejection(i.uri)),
        ("comment"@, length_rejection_opt(i.comment, 6, 500)),
    ]
}

/// The image passes every check.
pub open spec fn venue_image_valid(i: VenueImageView) -> bool {
    report_text(venue_image_checks(i)).len() == 0
}

/// `e` is the error that an image failing its checks is refused with.
pub open spec fn venue_image_error(e: DomainCoreError, i: VenueImageView) -> bool {
    e matches DomainCoreError::VenueError(VenueError::FieldValidatedFail(m)) && m@ == report_text(
        venue_image_checks(i),
    ) && m@.len() > 0
}

impl VenueImage {
    /// The image must pass every check.
    pub fn is_vaild_update_command(&self) -> (r: Result<(), DomainCoreError>)
        ensures
            r is Ok <==> venue_image_valid(self@),
            r matches Err(e) ==> venue_image_error(e, self@),
            // the reason that garde gives for the uri, as it stands in the report
            garde_url_rejection(self@.uri) matches Some(m) ==> "not a valid url: "@.is_prefix_of(m),
    {
        let mut checks: Vec<FieldCheck> = Vec::new();
        checks.push(
            FieldCheck {
                path: String::from_str("title"),
                error: check_length(self.title.as_str(), 6, 200),
            },
        );
        checks.push(
            FieldCheck { path: String::from_str("uri"), error: check_url(self.uri.as_str()) },
        );
        checks.push(
            FieldCheck {
                path: String::from_str("comment"),
                error: check_length_opt(&self.comment, 6, 500),
            },
        );
        proof {
            assert(checks_view(checks@) =~= venue_image_checks(self@));
        }
        let err_msg = validation_report(&checks);
        if err_msg.unicode_len() != 0 {
            return Err(DomainCoreError::VenueError(VenueError::FieldValidatedFail(err_msg)));
        }
        Ok(())
    }

    /// A new image without an id; it must pass its checks.
    pub fn new(
        venue_id: i64,
        title: String,
        uri: String,
        comment: Option<String>,
        createtime: Timestamp,
    ) -> (r: Result<Self, DomainCoreError>)
        ensures
            ({
                let v = VenueImageView {
                    id: None,
                    venue_id,
                    title: title@,
                    uri: uri@,
                    comment: opt_text(comment),
                    createtime,
                };
                &&& venue_image_valid(v) ==> (r matches Ok(x) && x@ == v)
                &&& !venue_image_valid(v) ==> (r matches Err(e) && venue_image_error(e, v))
            }),
    {
        let image = VenueImage { id: None, venue_id, title, uri, comment, createtime };
        match image.is_vaild_update_command() {
            Err(e) => return Err(e),
            Ok(()) => {},
        }
        Ok(image)
    }

    /// The image with its stored id.
    pub fn update_id(self, id: i64) -> (r: Self)
        ensures
            r@ == (VenueImageView { id: Some(id), ..self@ }),
    {
        VenueImage { id: Some(id), ..self }
    }
}

} // verus!
