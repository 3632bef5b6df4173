//! Request handling: the per-request pipeline from resolved client address
//! and topic name to either an immediate response or a delivery plan, and
//! the aggregation of the fan-out's outcomes into the final response.
//!
//! Authorization failure is folded into "not found" here, so an
//! unauthorized caller cannot tell a blocked topic from a missing one.

use vstd::prelude::*;
use vstd::string::StringExecFns;
use crate::delivery::all_delivered;
use crate::delivery::composed_text;
use crate::delivery::compose_message_text;
use crate::delivery::DeliveryOutcome;
use crate::delivery::outcome_ok;
use crate::multipart::IngestError;
use crate::multipart::MultipartBody;
use crate::net::IpAddress;
use crate::registry::TopicRegistry;

verus! {

/// An HTTP-style result: a status code and a reason body.
pub struct Response {
    pub status: u16,
    pub body: String,
}

/// What the connection metadata yielded for the caller's address: a parsed
/// address, a string that is no address, or nothing at all.
pub enum ClientAddressInfo {
    Known(IpAddress),
    Unparsable,
    Missing,
}

/// Settles the caller's address before anything else: absence of an address
/// string and an unparsable one are local infrastructure errors, not
/// authorization failures.
pub fn extract_client_address(info: &ClientAddressInfo) -> (r: Result<IpAddress, Response>)
    ensures
        info matches ClientAddressInfo::Known(a) ==> r == Ok::<IpAddress, Response>(*a),
        info is Unparsable ==> (r matches Err(resp) && resp.status == 500 && resp.body@
            == "Cannot parse ip address from string"@),
        info is Missing ==> (r matches Err(resp) && resp.status == 500 && resp.body@
            == "Cannot get ip address string from request"@),
{
    match info {
        ClientAddressInfo::Known(address) => Ok(*address),
        ClientAddressInfo::Unparsable => Err(
            Response { status: 500, body: "Cannot parse ip address from string".to_owned() },
        ),
        ClientAddressInfo::Missing => Err(
            Response { status: 500, body: "Cannot get ip address string from request".to_owned() },
        ),
    }
}

/// The response to a topic that does not resolve for this caller.
fn not_found_response() -> (r: Response)
    ensures
        r.status == 404,
        r.body@ == "No such topic"@,
{
    Response { status: 404, body: "No such topic".to_owned() }
}

/// The reason body of an ingestion error, as the client sees it.
pub open spec fn ingest_error_body(e: IngestError) -> Seq<char> {
    match e {
        IngestError::UnexpectedField(name) => "Unexpected multipart field \""@ + name@ + "\""@,
        IngestError::MessageNotUtf8 => "Message is not valid UTF-8"@,
        IngestError::FilenameMissing => "Multipart filename missing"@,
        IngestError::NoFileProvided => "Multipart no file provided"@,
    }
}

/// Every ingestion error is a client error: a 400 carrying the reason.
pub fn ingest_error_response(e: &IngestError) -> (r: Response)
    ensures
        r.status == 400,
        r.body@ == ingest_error_body(*e),
{
    let body: String = match e {
        IngestError::UnexpectedField(name) => {
            let mut b: String = "Unexpected multipart field \"".to_owned();
            b.append(name.as_str());
            b.append("\"");
            b
        },
        IngestError::MessageNotUtf8 => "Message is not valid UTF-8".to_owned(),
        IngestError::FilenameMissing => "Multipart filename missing".to_owned(),
        IngestError::NoFileProvided => "Multipart no file provided".to_owned(),
    };
    Response { status: 400, body }
}

/// A planned text fan-out: the topic's recipients, in their configured
/// order, and the composed text every one of them receives.
pub struct TextDeliveryPlan<'a> {
    pub recipients: &'a Vec<String>,
    pub text: String,
}

/// A planned document fan-out: the topic's recipients, in their configured
/// order, the composed caption, and the attachment.
pub struct DocumentDeliveryPlan<'a> {
    pub recipients: &'a Vec<String>,
    pub caption: String,
    pub filename: String,
    pub content: Vec<u8>,
}

/// Resolves and authorizes a plain-text post. An unknown topic name is "not
/// found" whatever the rest of the registry holds; a known topic whose
/// allow-list does not contain the caller's address answers the same way.
pub fn plan_text_post<'a>(
    registry: &'a TopicRegistry,
    topic_name: &String,
    sender: &String,
    text: &String,
    address: IpAddress,
) -> (r: Result<TextDeliveryPlan<'a>, Response>)
    requires
        registry.wf(),
    ensures
        registry.lookup(topic_name@) is None ==> (r matches Err(resp) && resp.status == 404
            && resp.body@ == "No such topic"@),
        (match registry.lookup(topic_name@) {
            Some(t) => !t.allows(address),
            None => false,
        }) ==> (r matches Err(resp) && resp.status == 404 && resp.body@ == "No such topic"@),
        (match registry.lookup(topic_name@) {
            Some(t) => t.allows(address),
            None => false,
        }) ==> (r matches Ok(plan) && (match registry.lookup(topic_name@) {
            Some(t) => plan.recipients@ == t.recipients@,
            None => false,
        }) && plan.text@ == composed_text(topic_name@, sender@, text@)),
{
    match registry.resolve(topic_name) {
        Some(topic_info) => {
            if topic_info.is_allowed(address) {
                Ok(
                    TextDeliveryPlan {
                        recipients: &topic_info.recipients,
                        text: compose_message_text(
                            topic_name.as_str(),
                            sender.as_str(),
                            text.as_str(),
                        ),
                    },
                )
            } else {
                Err(not_found_response())
            }
        },
        None => Err(not_found_response()),
    }
}

/// Resolves and authorizes a multipart post whose body was ingested. The
/// same resolution and authorization rule as the text path; the caption is
/// composed from the body's optional text.
pub fn plan_document_post<'a>(
    registry: &'a TopicRegistry,
    topic_name: &String,
    sender: &String,
    body: MultipartBody,
    address: IpAddress,
) -> (r: Result<DocumentDeliveryPlan<'a>, Response>)
    requires
        registry.wf(),
    ensures
        registry.lookup(topic_name@) is None ==> (r matches Err(resp) && resp.status == 404
            && resp.body@ == "No such topic"@),
        (match registry.lookup(topic_name@) {
            Some(t) => !t.allows(address),
            None => false,
        }) ==> (r matches Err(resp) && resp.status == 404 && resp.body@ == "No such topic"@),
        (match registry.lookup(topic_name@) {
            Some(t) => t.allows(address),
            None => false,
        }) ==> (r matches Ok(plan) && (match registry.lookup(topic_name@) {
            Some(t) => plan.recipients@ == t.recipients@,
            None => false,
        }) && plan.caption@ == composed_text(topic_name@, sender@, body.message@)
            && plan.filename == body.filename && plan.content == body.content),
{
    match registry.resolve(topic_name) {
        Some(topic_info) => {
            if topic_info.is_allowed(address) {
                let caption = compose_message_text(
                    topic_name.as_str(),
                    sender.as_str(),
                    body.message.as_str(),
                );
                Ok(
                    DocumentDeliveryPlan {
                        recipients: &topic_info.recipients,
                        caption,
                        filename: body.filename,
                        content: body.content,
                    },
                )
            } else {
                Err(not_found_response())
            }
        },
        None => Err(not_found_response()),
    }
}

/// Aggregates the fan-out: every outcome a success answers "accepted, no
/// content"; any failure answers a generic server error, with no
/// per-recipient detail surfaced.
pub fn aggregate_outcomes(outcomes: &Vec<DeliveryOutcome>) -> (r: Response)
    ensures
        (forall|i: int| 0 <= i < outcomes@.len() ==> outcome_ok(#[trigger] outcomes@[i])) ==> (
        r.status == 204 && r.body@ == Seq::<char>::empty()),
        !(forall|i: int| 0 <= i < outcomes@.len() ==> outcome_ok(#[trigger] outcomes@[i])) ==> (
        r.status == 500 && r.body@ == "bAdBaDnOtGoOd"@),
{
    if all_delivered(outcomes) {
        Response { status: 204, body: String::new() }
    } else {
        Response { status: 500, body: "bAdBaDnOtGoOd".to_owned() }
    }
}

} // verus!
