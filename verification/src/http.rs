//! What an HTTP status means for a payment and for a health check.

use vstd::prelude::*;

verus! {

/// Whether `status` can stand as an HTTP status: three digits, the first not zero.
pub open spec fn http_status(status: u16) -> bool {
    100 <= status <= 999
}

/// Whether `status` says that a request succeeded.
pub open spec fn success_status(status: u16) -> bool {
    200 <= status <= 299
}

/// The text that `reqwest::StatusCode` displays for `status`: its digits and its
/// customary reason.
pub uninterp spec fn status_text(status: u16) -> Seq<char>;

/// `reqwest::StatusCode::is_success`, on the status code that
/// `reqwest::StatusCode::from_u16` makes of `status`.
///
/// Claims that the statuses from 200 to 299 are the successful ones, and that
/// `from_u16` takes every three-digit status.
#[verifier::external_body]
pub(crate) fn is_success(status: u16) -> (success: bool)
    requires
        http_status(status),
    ensures
        success == success_status(status),
{
    reqwest::StatusCode::from_u16(status).unwrap().is_success()
}

/// The `Display` of `reqwest::StatusCode`, on the status code that
/// `reqwest::StatusCode::from_u16` makes of `status`.
///
/// Claims that the text depends on the status alone, and names it.
#[verifier::external_body]
pub(crate) fn display_status(status: u16) -> (text: String)
    requires
        http_status(status),
    ensures
        text@ == status_text(status),
{
    reqwest::StatusCode::from_u16(status).unwrap().to_string()
}

/// The complaint about a payment that a processor answered with `status`, given the
/// text of that status.
pub open spec fn payment_complaint(correlation_id: Seq<char>, status: Seq<char>) -> Seq<char> {
    "Failed to process payment "@ + correlation_id + ": "@ + status
}

/// The complaint about a health check that was answered with `status`, given the text
/// of that status.
pub open spec fn health_complaint(status: Seq<char>) -> Seq<char> {
    "Health check failed with status: "@ + status
}

/// Writes the complaint about the payment `correlation_id`, given the text of the
/// status that it was answered with.
pub fn complain_of_payment(correlation_id: &str, status: &str) -> (complaint: String)
    ensures
        complaint@ == payment_complaint(correlation_id@, status@),
{
    "Failed to process payment ".to_owned().concat(correlation_id).concat(": ").concat(status)
}

/// Writes the complaint about a health check, given the text of the status that it was
/// answered with.
pub fn complain_of_health(status: &str) -> (complaint: String)
    ensures
        complaint@ == health_complaint(status@),
{
    "Health check failed with status: ".to_owned().concat(status)
}

/// Whether the answer to a request, if there is one, has an HTTP status. An error stands
/// for a request that could not be sent, or that no answer came to in time.
pub open spec fn valid_answer(answer: Result<u16, String>) -> bool {
    answer matches Ok(status) ==> http_status(status)
}

/// Whether a request was answered, and successfully.
pub open spec fn answered_successfully(answer: Result<u16, String>) -> bool {
    answer matches Ok(status) && success_status(status)
}

/// Whether a request was answered, and successfully.
pub fn is_success_answer(answer: &Result<u16, String>) -> (success: bool)
    requires
        valid_answer(*answer),
    ensures
        success == answered_successfully(*answer),
{
    match answer {
        Ok(status) => is_success(*status),
        Err(_) => false,
    }
}

/// What a processor's answer says of the payment `correlation_id`. A successful status
/// means that it was taken, and any other is an error that names the payment and the
/// status. Where no answer came, what kept it away is the error.
pub fn payment_verdict(
    correlation_id: &str,
    answer: &Result<u16, String>,
) -> (verdict: Result<(), String>)
    requires
        valid_answer(*answer),
    ensures
        verdict is Ok <==> answered_successfully(*answer),
        verdict matches Err(complaint) ==> complaint@ == match *answer {
            Ok(status) => payment_complaint(correlation_id@, status_text(status)),
            Err(error) => error@,
        },
{
    match answer {
        Ok(status) => if is_success(*status) {
            Ok(())
        } else {
            Err(complain_of_payment(correlation_id, display_status(*status).as_str()))
        },
        Err(error) => Err(error.clone()),
    }
}

/// Whether the answer to a health check carries a report. A successful status means that
/// the body is to be read, and any other is an error that names the status. Where no
/// answer came, what kept it away is the error.
pub fn health_verdict(answer: &Result<u16, String>) -> (verdict: Result<(), String>)
    requires
        valid_answer(*answer),
    ensures
        verdict is Ok <==> answered_successfully(*answer),
        verdict matches Err(complaint) ==> complaint@ == match *answer {
            Ok(status) => health_complaint(status_text(status)),
            Err(error) => error@,
        },
{
    match answer {
        Ok(status) => if is_success(*status) {
            Ok(())
        } else {
            Err(complain_of_health(display_status(*status).as_str()))
        },
        Err(error) => Err(error.clone()),
    }
}

/// The statuses from 200 to 299 are successes, every other status is a failure, and so is no
/// answer.
pub proof fn law_success_is_two_hundreds(status: u16, error: String)
    ensures
        answered_successfully(Ok(status)) <==> 200 <= status <= 299,
        success_status(status) <==> 200 <= status <= 299,
        !answered_successfully(Err(error)),
{
}

/// Every three-digit status can be an answer, and so can no answer.
pub proof fn law_every_answer_is_valid(status: u16, error: String)
    ensures
        valid_answer(Ok(status)) <==> 100 <= status <= 999,
        valid_answer(Err(error)),
{
}

/// A complaint about a payment opens with its customary words, then names the payment, and
/// closes with the status, parted by a colon and a space.
pub proof fn law_payment_complaint_names_payment_and_status(
    correlation_id: Seq<char>,
    status: Seq<char>,
)
    ensures
        ({
            let complaint = payment_complaint(correlation_id, status);
            let named = 26 + correlation_id.len() as int;
            &&& complaint.len() == named + 2 + status.len()
            &&& complaint.subrange(0, 26) == "Failed to process payment "@
            &&& complaint.subrange(26, named) == correlation_id
            &&& complaint.subrange(named, named + 2) == ": "@
            &&& complaint.subrange(named + 2, complaint.len() as int) == status
        }),
{
    reveal_strlit("Failed to process payment ");
    reveal_strlit(": ");
}

/// A complaint about a health check opens with its customary words and closes with the
/// status.
pub proof fn law_health_complaint_names_status(status: Seq<char>)
    ensures
        ({
            let complaint = health_complaint(status);
            &&& complaint.len() == 33 + status.len()
            &&& complaint.subrange(0, 33) == "Health check failed with status: "@
            &&& complaint.subrange(33, complaint.len() as int) == status
        }),
{
    reveal_strlit("Health check failed with status: ");
}

} // verus!
