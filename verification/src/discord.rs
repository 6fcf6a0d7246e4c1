//! The webhook formatter: maps an alarm event to the outbound message,
//! substituting a fixed placeholder for every missing field and choosing a
//! color and a content prefix from the alarm's new state.

use vstd::prelude::*;
use crate::alarm::{AlarmEvent, AlarmView};

verus! {

/// One name/value pair of an embed.
pub struct Field {
    pub name: String,
    pub value: String,
}

/// One rich-content block of the outbound message.
pub struct Embed {
    pub title: Option<String>,
    pub color: u32,
    pub fields: Vec<Field>,
}

/// The outbound webhook message: a content line plus embeds.
pub struct WebhookPayload {
    pub content: String,
    pub embeds: Vec<Embed>,
}

#[verifier::ext_equal]
pub ghost struct FieldView {
    pub name: Seq<char>,
    pub value: Seq<char>,
}

#[verifier::ext_equal]
pub ghost struct EmbedView {
    pub title: Option<Seq<char>>,
    pub color: u32,
    pub fields: Seq<FieldView>,
}

#[verifier::ext_equal]
pub ghost struct PayloadView {
    pub content: Seq<char>,
    pub embeds: Seq<EmbedView>,
}

impl View for Field {
    type V = FieldView;

    open spec fn view(&self) -> FieldView {
        FieldView { name: self.name@, value: self.value@ }
    }
}

impl DeepView for Field {
    type V = FieldView;

    open spec fn deep_view(&self) -> FieldView {
        self@
    }
}

impl View for Embed {
    type V = EmbedView;

    open spec fn view(&self) -> EmbedView {
        EmbedView {
            title: self.title.deep_view(),
            color: self.color,
            fields: self.fields.deep_view(),
        }
    }
}

impl DeepView for Embed {
    type V = EmbedView;

    open spec fn deep_view(&self) -> EmbedView {
        self@
    }
}

impl View for WebhookPayload {
    type V = PayloadView;

    open spec fn view(&self) -> PayloadView {
        PayloadView { content: self.content@, embeds: self.embeds.deep_view() }
    }
}

/// The field's characters, or the given placeholder where it is missing.
pub open spec fn or_placeholder(field: Option<Seq<char>>, placeholder: Seq<char>) -> Seq<char> {
    match field {
        Some(s) => s,
        None => placeholder,
    }
}

pub open spec fn spec_name(a: AlarmView) -> Seq<char> {
    or_placeholder(a.alarm_name, "Unknown Alarm"@)
}

pub open spec fn spec_title(a: AlarmView) -> Seq<char> {
    or_placeholder(a.alarm_description, "No description"@)
}

pub open spec fn spec_state(a: AlarmView) -> Seq<char> {
    or_placeholder(a.new_state_value, "Unknown"@)
}

pub open spec fn spec_reason(a: AlarmView) -> Seq<char> {
    or_placeholder(a.new_state_reason, "No reason provided"@)
}

pub open spec fn spec_time(a: AlarmView) -> Seq<char> {
    or_placeholder(a.state_change_time, "Unknown time"@)
}

pub open spec fn spec_region(a: AlarmView) -> Seq<char> {
    or_placeholder(a.region, "Unknown region"@)
}

/// The embed color for a state value: red for alarm, green for resolved,
/// yellow for insufficient data, blue for anything else.
pub open spec fn spec_color(state: Seq<char>) -> u32 {
    if state == "ALARM"@ {
        0xFF0000
    } else if state == "OK"@ {
        0x00FF00
    } else if state == "INSUFFICIENT_DATA"@ {
        0xFFFF00
    } else {
        0x0000FF
    }
}

/// The content-line prefix for a state value.
pub open spec fn spec_prefix(state: Seq<char>) -> Seq<char> {
    if state == "ALARM"@ {
        "🚨 ALARM"@
    } else if state == "OK"@ {
        "✅ OK"@
    } else if state == "INSUFFICIENT_DATA"@ {
        "⚠️ INSUFFICIENT DATA"@
    } else {
        "ℹ️ UNKNOWN STATE"@
    }
}

/// The content line: "{prefix}: {alarm name}".
pub open spec fn spec_content(a: AlarmView) -> Seq<char> {
    spec_prefix(spec_state(a)) + ": "@ + spec_name(a)
}

/// The deep link to the alarm's console view, built from region and name.
pub open spec fn spec_console_link(a: AlarmView) -> Seq<char> {
    "https://console.aws.amazon.com/cloudwatch/home?region="@ + spec_region(a)
        + "#alarmsV2:alarm/"@ + spec_name(a)
}

/// The four fields of the embed, in fixed order: state, reason, trigger
/// time, console link.
pub open spec fn spec_fields(a: AlarmView) -> Seq<FieldView> {
    seq![
        FieldView { name: "State"@, value: spec_state(a) },
        FieldView { name: "Reason"@, value: spec_reason(a) },
        FieldView { name: "Trigger Time"@, value: spec_time(a) },
        FieldView { name: "AWS Console Link"@, value: spec_console_link(a) },
    ]
}

/// The whole outbound message an alarm event maps to.
pub open spec fn spec_payload(a: AlarmView) -> PayloadView {
    PayloadView {
        content: spec_content(a),
        embeds: seq![
            EmbedView {
                title: Some(spec_title(a)),
                color: spec_color(spec_state(a)),
                fields: spec_fields(a),
            },
        ],
    }
}

/// Law: a missing optional field is substituted by its documented
/// placeholder; the formatted message never omits a field on that account.
pub proof fn lemma_placeholder_substitution(a: AlarmView)
    ensures
        a.alarm_name is None ==> spec_name(a) == "Unknown Alarm"@,
        a.alarm_description is None ==> spec_title(a) == "No description"@,
        a.new_state_value is None ==> spec_state(a) == "Unknown"@,
        a.new_state_reason is None ==> spec_reason(a) == "No reason provided"@,
        a.state_change_time is None ==> spec_time(a) == "Unknown time"@,
        a.region is None ==> spec_region(a) == "Unknown region"@,
        spec_payload(a).embeds[0].title == Some(spec_title(a)),
        spec_payload(a).embeds[0].fields == spec_fields(a),
{
}

/// Law: the message's color and content prefix follow the state mapping
/// exactly, the fallback for an unrecognized state included.
pub proof fn lemma_state_mapping(a: AlarmView)
    ensures
        spec_payload(a).embeds.len() == 1,
        spec_payload(a).embeds[0].color == spec_color(spec_state(a)),
        spec_payload(a).content == spec_prefix(spec_state(a)) + ": "@ + spec_name(a),
        spec_state(a) == "ALARM"@ ==> spec_color(spec_state(a)) == 0xFF0000 && spec_prefix(
            spec_state(a),
        ) == "🚨 ALARM"@,
        spec_state(a) == "OK"@ ==> spec_color(spec_state(a)) == 0x00FF00 && spec_prefix(
            spec_state(a),
        ) == "✅ OK"@,
        spec_state(a) == "INSUFFICIENT_DATA"@ ==> spec_color(spec_state(a)) == 0xFFFF00
            && spec_prefix(spec_state(a)) == "⚠️ INSUFFICIENT DATA"@,
        spec_state(a) != "ALARM"@ && spec_state(a) != "OK"@ && spec_state(a)
            != "INSUFFICIENT_DATA"@ ==> spec_color(spec_state(a)) == 0x0000FF && spec_prefix(
            spec_state(a),
        ) == "ℹ️ UNKNOWN STATE"@,
{
    reveal_strlit("ALARM");
    reveal_strlit("OK");
    reveal_strlit("INSUFFICIENT_DATA");
    assert("ALARM"@.len() == 5);
    assert("OK"@.len() == 2);
    assert("INSUFFICIENT_DATA"@.len() == 17);
    assert("OK"@ != "ALARM"@);
    assert("INSUFFICIENT_DATA"@ != "ALARM"@);
    assert("INSUFFICIENT_DATA"@ != "OK"@);
}

/// Law: every outbound message is well formed: a non-empty content line and
/// at least one field, whatever the input event holds.
pub proof fn lemma_payload_well_formed(a: AlarmView)
    ensures
        spec_payload(a).content.len() > 0,
        spec_payload(a).embeds.len() == 1,
        spec_payload(a).embeds[0].fields.len() >= 1,
{
    reveal_strlit(": ");
}

impl WebhookPayload {
    /// Formats an alarm event as the outbound message. Pure: every missing
    /// field degrades to its placeholder, never to a failure.
    pub fn from_alarm(alarm: &AlarmEvent) -> (r: WebhookPayload)
        ensures
            r@ == spec_payload(alarm@),
    {
        let name: String = match &alarm.alarm_name {
            Some(s) => s.clone(),
            None => "Unknown Alarm".to_owned(),
        };
        let title: String = match &alarm.alarm_description {
            Some(s) => s.clone(),
            None => "No description".to_owned(),
        };
        let state: String = match &alarm.new_state_value {
            Some(s) => s.clone(),
            None => "Unknown".to_owned(),
        };
        let reason: String = match &alarm.new_state_reason {
            Some(s) => s.clone(),
            None => "No reason provided".to_owned(),
        };
        let time: String = match &alarm.state_change_time {
            Some(s) => s.clone(),
            None => "Unknown time".to_owned(),
        };
        let region: String = match &alarm.region {
            Some(s) => s.clone(),
            None => "Unknown region".to_owned(),
        };

        let is_alarm = state == "ALARM".to_owned();
        let is_ok = state == "OK".to_owned();
        let is_insufficient = state == "INSUFFICIENT_DATA".to_owned();

        let color: u32 = if is_alarm {
            0xFF0000
        } else if is_ok {
            0x00FF00
        } else if is_insufficient {
            0xFFFF00
        } else {
            0x0000FF
        };

        let prefix: &str = if is_alarm {
            "🚨 ALARM"
        } else if is_ok {
            "✅ OK"
        } else if is_insufficient {
            "⚠️ INSUFFICIENT DATA"
        } else {
            "ℹ️ UNKNOWN STATE"
        };

        let mut content: String = prefix.to_owned();
        content.append(": ");
        content.append(name.as_str());

        let mut link: String =
            "https://console.aws.amazon.com/cloudwatch/home?region=".to_owned();
        link.append(region.as_str());
        link.append("#alarmsV2:alarm/");
        link.append(name.as_str());

        let mut fields: Vec<Field> = Vec::new();
        fields.push(Field { name: "State".to_owned(), value: state });
        fields.push(Field { name: "Reason".to_owned(), value: reason });
        fields.push(Field { name: "Trigger Time".to_owned(), value: time });
        fields.push(Field { name: "AWS Console Link".to_owned(), value: link });

        let mut embeds: Vec<Embed> = Vec::new();
        embeds.push(Embed { title: Some(title), color, fields });

        let r = WebhookPayload { content, embeds };
        proof {
            assert(r@ =~~= spec_payload(alarm@));
        }
        r
    }
}

} // verus!
