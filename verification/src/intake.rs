//! Event intake: extracts an alarm record out of a notification record's
//! message string, then hands it to the formatter. A record whose message is
//! not valid JSON is rejected; a valid document with missing fields is not.

use vstd::prelude::*;
use crate::alarm::{AlarmEvent, AlarmView, ParseError};
use crate::discord::{spec_payload, PayloadView, WebhookPayload};

verus! {

/// The alarm record a message string parses to: `None` where the string is
/// not a valid JSON document, otherwise the document's six alarm fields,
/// each present exactly where the document holds it as a string.
pub uninterp spec fn alarm_of(s: Seq<char>) -> Option<AlarmView>;

/// Relies on serde_json::from_str, serde_json::Value::get and
/// serde_json::Value::as_str: whether a string parses as a JSON document,
/// and which string fields the document holds under the alarm keys, depend
/// on the string's characters alone.
#[verifier::external_body]
fn parse_alarm_message(message: &str) -> (r: Result<AlarmEvent, ParseError>)
    ensures
        r is Ok <==> alarm_of(message@) is Some,
        r is Ok ==> (r->Ok_0)@ == alarm_of(message@)->Some_0,
        r is Err ==> r->Err_0 == ParseError::InvalidJson,
{
    let doc: serde_json::Value = match serde_json::from_str(message) {
        Ok(v) => v,
        Err(_) => return Err(ParseError::InvalidJson),
    };
    let field = |key: &str| doc.get(key).and_then(serde_json::Value::as_str).map(str::to_owned);
    Ok(AlarmEvent {
        alarm_name: field("AlarmName"),
        alarm_description: field("AlarmDescription"),
        new_state_value: field("NewStateValue"),
        new_state_reason: field("NewStateReason"),
        state_change_time: field("StateChangeTime"),
        region: field("Region"),
    })
}

/// What processing one message string yields: the formatted message for a
/// record that parses, the parse error for one that does not.
pub open spec fn spec_process(m: Seq<char>) -> Result<PayloadView, ParseError> {
    match alarm_of(m) {
        Some(a) => Ok(spec_payload(a)),
        None => Err(ParseError::InvalidJson),
    }
}

/// The model of an intake result: the payload's view in the success case.
pub open spec fn result_view(r: Result<WebhookPayload, ParseError>) -> Result<
    PayloadView,
    ParseError,
> {
    match r {
        Ok(p) => Ok(p@),
        Err(e) => Err(e),
    }
}

/// Law: intake composed with the formatter is a function of the message's
/// characters alone: a string that parses yields exactly the formatted view
/// of its parse, and one that does not yields exactly the parse error.
pub proof fn lemma_round_trip(m: Seq<char>)
    ensures
        alarm_of(m) matches Some(a) ==> spec_process(m) == Ok::<PayloadView, ParseError>(
            spec_payload(a),
        ),
        alarm_of(m) is None ==> spec_process(m) == Err::<PayloadView, ParseError>(
            ParseError::InvalidJson,
        ),
{
}

/// Processes one notification record's message string: parse the alarm
/// document, format it. Deterministic: the result is a function of the
/// message's characters alone.
pub fn process_message(message: &str) -> (r: Result<WebhookPayload, ParseError>)
    ensures
        result_view(r) == spec_process(message@),
{
    match parse_alarm_message(message) {
        Ok(alarm) => Ok(WebhookPayload::from_alarm(&alarm)),
        Err(e) => Err(e),
    }
}

/// Processes a batch of records independently: every record is attempted,
/// a malformed one yields its error in place and never stops the others.
pub fn process_batch(messages: &Vec<String>) -> (r: Vec<Result<WebhookPayload, ParseError>>)
    ensures
        r@.len() == messages@.len(),
        forall|i: int|
            0 <= i < r@.len() ==> result_view(#[trigger] r@[i]) == spec_process(messages@[i]@),
{
    let mut out: Vec<Result<WebhookPayload, ParseError>> = Vec::new();
    let mut i: usize = 0;
    while i < messages.len()
        invariant
            i <= messages@.len(),
            out@.len() == i,
            forall|j: int|
                0 <= j < i ==> result_view(#[trigger] out@[j]) == spec_process(messages@[j]@),
        decreases messages@.len() - i,
    {
        out.push(process_message(messages[i].as_str()));
        i = i + 1;
    }
    out
}

} // verus!
