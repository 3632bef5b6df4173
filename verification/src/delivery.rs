//! Delivery: composition of the outgoing message, the payloads handed to
//! the downstream transport, one per recipient and in recipient order, and
//! the per-recipient outcome of a delivery attempt.

use vstd::prelude::*;
use vstd::string::StringExecFns;
use crate::escape::escape_text;
use crate::escape::TgMarkdownString;

verus! {

/// The composed body of an outgoing message: the escaped sender label and
/// the topic name on a header line, then the caller's text verbatim.
pub open spec fn composed_text(topic: Seq<char>, sender: Seq<char>, text: Seq<char>) -> Seq<char> {
    "From: *"@ + escape_text(sender) + "@"@ + topic + "*\n\n"@ + text
}

/// Composes `From: *<escaped sender>@<topic>*\n\n<text>`. Only the sender
/// label passes through the escaper; the text is not re-escaped, since the
/// operator accepts it verbatim.
pub fn compose_message_text(topic: &str, sender: &str, text: &str) -> (r: String)
    ensures
        r@ == composed_text(topic@, sender@, text@),
{
    let escaped_sender = TgMarkdownString::new(sender);
    let mut composed: String = "From: *".to_owned();
    composed.append(escaped_sender.as_str());
    composed.append("@");
    composed.append(topic);
    composed.append("*\n\n");
    composed.append(text);
    composed
}

/// One text message as the downstream transport takes it: a recipient
/// identifier, the markup-mode indicator, and the composed text.
pub struct SendMessagePayload<'a> {
    pub chat_id: &'a str,
    pub parse_mode: &'static str,
    pub text: String,
}

impl<'a> SendMessagePayload<'a> {
    pub fn new(chat_id: &'a str, text: &str) -> (r: Self)
        ensures
            r.chat_id@ == chat_id@,
            r.parse_mode@ == "MarkdownV2"@,
            r.text@ == text@,
    {
        SendMessagePayload { chat_id, text: text.to_owned(), parse_mode: "MarkdownV2" }
    }
}

/// One document message as the downstream transport takes it: a recipient
/// identifier, the composed caption, the markup-mode indicator, and the
/// binary content under its declared filename.
pub struct SendDocumentPayload<'a> {
    pub chat_id: &'a str,
    pub caption: String,
    pub parse_mode: &'static str,
    pub filename: String,
    pub content: Vec<u8>,
}

impl<'a> SendDocumentPayload<'a> {
    pub fn new(chat_id: &'a str, caption: &str, filename: &str, content: &Vec<u8>) -> (r: Self)
        ensures
            r.chat_id@ == chat_id@,
            r.caption@ == caption@,
            r.parse_mode@ == "MarkdownV2"@,
            r.filename@ == filename@,
            r.content@ == content@,
    {
        SendDocumentPayload {
            chat_id,
            caption: caption.to_owned(),
            parse_mode: "MarkdownV2",
            filename: filename.to_owned(),
            content: clone_bytes(content),
        }
    }
}

/// An exact copy of a byte vector.
fn clone_bytes(v: &Vec<u8>) -> (r: Vec<u8>)
    ensures
        r@ == v@,
{
    let mut out: Vec<u8> = Vec::new();
    let mut i: usize = 0;
    while i < v.len()
        invariant
            i <= v@.len(),
            out@ == v@.take(i as int),
        decreases v@.len() - i,
    {
        out.push(v[i]);
        proof {
            assert(v@.take(i as int).push(v@[i as int]) =~= v@.take(i as int + 1));
        }
        i += 1;
    }
    proof {
        assert(v@.take(v@.len() as int) =~= v@);
    }
    out
}

/// The payloads of one text fan-out: the same composed text to every
/// recipient, one payload per recipient, in the recipients' order.
pub fn build_message_payloads<'a>(
    recipients: &'a Vec<String>,
    topic: &str,
    sender: &str,
    text: &str,
) -> (r: Vec<SendMessagePayload<'a>>)
    ensures
        r@.len() == recipients@.len(),
        forall|i: int|
            0 <= i < r@.len() ==> (#[trigger] r@[i]).chat_id@ == recipients@[i]@ && r@[i].text@
                == composed_text(topic@, sender@, text@) && r@[i].parse_mode@ == "MarkdownV2"@,
{
    let composed = compose_message_text(topic, sender, text);
    let mut out: Vec<SendMessagePayload<'a>> = Vec::new();
    let mut i: usize = 0;
    while i < recipients.len()
        invariant
            i <= recipients@.len(),
            out@.len() == i,
            composed@ == composed_text(topic@, sender@, text@),
            forall|j: int|
                0 <= j < i ==> (#[trigger] out@[j]).chat_id@ == recipients@[j]@ && out@[j].text@
                    == composed_text(topic@, sender@, text@) && out@[j].parse_mode@
                    == "MarkdownV2"@,
        decreases recipients@.len() - i,
    {
        out.push(SendMessagePayload::new(recipients[i].as_str(), composed.as_str()));
        i += 1;
    }
    out
}

/// The payloads of one document fan-out: the same caption, filename and
/// content to every recipient, one payload per recipient, in order.
pub fn build_document_payloads<'a>(
    recipients: &'a Vec<String>,
    caption: &str,
    filename: &str,
    content: &Vec<u8>,
) -> (r: Vec<SendDocumentPayload<'a>>)
    ensures
        r@.len() == recipients@.len(),
        forall|i: int|
            0 <= i < r@.len() ==> (#[trigger] r@[i]).chat_id@ == recipients@[i]@ && r@[i].caption@
                == caption@ && r@[i].filename@ == filename@ && r@[i].content@ == content@
                && r@[i].parse_mode@ == "MarkdownV2"@,
{
    let mut out: Vec<SendDocumentPayload<'a>> = Vec::new();
    let mut i: usize = 0;
    while i < recipients.len()
        invariant
            i <= recipients@.len(),
            out@.len() == i,
            forall|j: int|
                0 <= j < i ==> (#[trigger] out@[j]).chat_id@ == recipients@[j]@ && out@[j].caption@
                    == caption@ && out@[j].filename@ == filename@ && out@[j].content@ == content@
                    && out@[j].parse_mode@ == "MarkdownV2"@,
        decreases recipients@.len() - i,
    {
        out.push(SendDocumentPayload::new(recipients[i].as_str(), caption, filename, content));
        i += 1;
    }
    out
}

/// What one delivery attempt came to: the transport answered with a status
/// code, or failed outright (connection error or timeout). Never retried.
#[derive(Clone, Copy, Debug, PartialEq, Eq, Structural)]
pub enum DeliveryOutcome {
    Delivered(u16),
    TransportFailed,
}

/// A successful outcome: the transport accepted with a success status.
pub open spec fn outcome_ok(o: DeliveryOutcome) -> bool {
    match o {
        DeliveryOutcome::Delivered(status) => 200 <= status < 300,
        DeliveryOutcome::TransportFailed => false,
    }
}

pub fn is_success_outcome(o: &DeliveryOutcome) -> (r: bool)
    ensures
        r == outcome_ok(*o),
{
    match o {
        DeliveryOutcome::Delivered(status) => 200 <= *status && *status < 300,
        DeliveryOutcome::TransportFailed => false,
    }
}

/// Whether every recipient's outcome was a success.
pub fn all_delivered(outcomes: &Vec<DeliveryOutcome>) -> (r: bool)
    ensures
        r == (forall|i: int| 0 <= i < outcomes@.len() ==> outcome_ok(#[trigger] outcomes@[i])),
{
    let mut i: usize = 0;
    while i < outcomes.len()
        invariant
            i <= outcomes@.len(),
            forall|j: int| 0 <= j < i ==> outcome_ok(#[trigger] outcomes@[j]),
        decreases outcomes@.len() - i,
    {
        if !is_success_outcome(&outcomes[i]) {
            return false;
        }
        i += 1;
    }
    true
}

} // verus!
