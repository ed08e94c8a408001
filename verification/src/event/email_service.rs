//! Notification mails: who sends them and what they say.
use vstd::prelude::*;
use vstd::string::*;

verus! {

/// One mail: sender, recipient and body.
#[derive(Clone, Debug, PartialEq, Eq)]
pub struct EmailStruct {
    pub from: String,
    pub to: String,
    pub content: String,
}

/// Sends the platform's mails from one address.
pub struct EmailService {
    pub sender: String,
}

/// The greeting line up to the name.
pub open spec fn greeting() -> Seq<char> {
    "尊敬的 "@
}

/// The body told to the lessor when an organizer withdraws a request: it
/// names the lessor, then the organizer and the venue.
pub open spec fn cancellation_email(
    organizer_name: Seq<char>,
    lessor_name: Seq<char>,
    venue_name: Seq<char>,
) -> Seq<char> {
    greeting() + lessor_name + "，\n\n您好！\n\n我们特此通知您，用户"@ + organizer_name
        + "已取消了对场地"@ + venue_name
        + "的租赁请求。\n\n您无需进行任何操作。该场地现在可供其他用户预订。\n\n此致，\n\nVenueFlow团队"@
}

/// The body told to the organizer who withdrew a request: it names the
/// organizer, then the lessor and the venue.
pub open spec fn cancellation_email_for_organizer(
    organizer_name: Seq<char>,
    lessor_name: Seq<char>,
    venue_name: Seq<char>,
) -> Seq<char> {
    greeting() + organizer_name + "，\n\n您好！\n\n我们特此通知您,您已经已取消了对用户"@ + lessor_name
        + "的场地"@ + venue_name
        + "的租赁请求。\n\n此为通知邮件，您无需进行任何操作。\n\n此致，\n\nVenueFlow团队"@
}

/// The body told to an organizer about the decision on a request: the
/// organizer's name, then the status text where the venue is announced and
/// the venue name where the status is announced, as the template places them.
pub open spec fn rental_email(
    organizer_name: Seq<char>,
    venue_name: Seq<char>,
    status: Seq<char>,
) -> Seq<char> {
    greeting() + organizer_name + "，\n\n您好！\n\n我们特此通知您,您对场地"@ + status + "的租赁请求为"@
        + venue_name + "\n\n此为通知邮件，您无需进行任何操作。\n\n此致，\n\nVenueFlow团队"@
}

/// The mail to the lessor about a withdrawn request.
pub fn generate_cancellation_email_simple(
    organizer_name: &str,
    lessor_name: &str,
    venue_name: &str,
) -> (r: String)
    ensures
        r@ == cancellation_email(organizer_name@, lessor_name@, venue_name@),
{
    let mut s = String::from_str("尊敬的 ");
    s.append(lessor_name);
    s.append("，\n\n您好！\n\n我们特此通知您，用户");
    s.append(organizer_name);
    s.append("已取消了对场地");
    s.append(venue_name);
    s.append("的租赁请求。\n\n您无需进行任何操作。该场地现在可供其他用户预订。\n\n此致，\n\nVenueFlow团队");
    s
}

/// The mail to the organizer about the request they withdrew.
pub fn generate_cancellation_email_simple_for_organizer(
    organizer_name: &str,
    lessor_name: &str,
    venue_name: &str,
) -> (r: String)
    ensures
        r@ == cancellation_email_for_organizer(organizer_name@, lessor_name@, venue_name@),
{
    let mut s = String::from_str("尊敬的 ");
    s.append(organizer_name);
    s.append("，\n\n您好！\n\n我们特此通知您,您已经已取消了对用户");
    s.append(lessor_name);
    s.append("的场地");
    s.append(venue_name);
    s.append("的租赁请求。\n\n此为通知邮件，您无需进行任何操作。\n\n此致，\n\nVenueFlow团队");
    s
}

/// The mail to an organizer about the decision on a request.
pub fn generate_rental_email_simple(organizer_name: &str, venue_name: &str, status: &str) -> (r:
    String)
    ensures
        r@ == rental_email(organizer_name@, venue_name@, status@),
{
    let mut s = String::from_str("尊敬的 ");
    s.append(organizer_name);
    s.append("，\n\n您好！\n\n我们特此通知您,您对场地");
    s.append(status);
    s.append("的租赁请求为");
    s.append(venue_name);
    s.append("\n\n此为通知邮件，您无需进行任何操作。\n\n此致，\n\nVenueFlow团队");
    s
}

} // verus!
