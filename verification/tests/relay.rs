use alarm_relay::alarm::{AlarmEvent, ParseError};
use alarm_relay::discord::WebhookPayload;
use alarm_relay::intake::{process_batch, process_message};
use alarm_relay::is_webhook_success;
use alarm_relay::json::to_json;

fn event(
    name: Option<&str>,
    description: Option<&str>,
    state: Option<&str>,
    reason: Option<&str>,
    time: Option<&str>,
    region: Option<&str>,
) -> AlarmEvent {
    AlarmEvent {
        alarm_name: name.map(str::to_string),
        alarm_description: description.map(str::to_string),
        new_state_value: state.map(str::to_string),
        new_state_reason: reason.map(str::to_string),
        state_change_time: time.map(str::to_string),
        region: region.map(str::to_string),
    }
}

#[test]
fn alarm_state_maps_to_red_and_alarm_prefix() {
    let a = event(Some("HighCPU"), None, Some("ALARM"), None, None, Some("us-east-1"));
    let p = WebhookPayload::from_alarm(&a);
    assert_eq!(p.content, "🚨 ALARM: HighCPU");
    assert_eq!(p.embeds.len(), 1);
    assert_eq!(p.embeds[0].color, 0xFF0000);
    let link = &p.embeds[0].fields[3].value;
    assert!(link.contains("region=us-east-1"));
    assert!(link.contains("alarm/HighCPU"));
    assert_eq!(
        link,
        "https://console.aws.amazon.com/cloudwatch/home?region=us-east-1#alarmsV2:alarm/HighCPU"
    );
}

#[test]
fn ok_state_with_all_fields_missing_uses_placeholders() {
    let a = event(None, None, Some("OK"), None, None, None);
    let p = WebhookPayload::from_alarm(&a);
    assert_eq!(p.content, "✅ OK: Unknown Alarm");
    assert_eq!(p.embeds[0].title.as_deref(), Some("No description"));
    assert_eq!(p.embeds[0].color, 0x00FF00);
    assert_eq!(p.embeds[0].fields[1].name, "Reason");
    assert_eq!(p.embeds[0].fields[1].value, "No reason provided");
}

#[test]
fn insufficient_data_state_maps_to_yellow() {
    let a = event(Some("X"), None, Some("INSUFFICIENT_DATA"), None, None, None);
    let p = WebhookPayload::from_alarm(&a);
    assert_eq!(p.embeds[0].color, 0xFFFF00);
    assert_eq!(p.content, "⚠️ INSUFFICIENT DATA: X");
}

#[test]
fn unrecognized_state_maps_to_blue_fallback() {
    let a = event(Some("X"), None, Some("SOMETHING_ELSE"), None, None, None);
    let p = WebhookPayload::from_alarm(&a);
    assert_eq!(p.embeds[0].color, 0x0000FF);
    assert_eq!(p.content, "ℹ️ UNKNOWN STATE: X");
}

#[test]
fn missing_state_maps_to_blue_and_unknown() {
    let a = event(Some("X"), None, None, None, None, None);
    let p = WebhookPayload::from_alarm(&a);
    assert_eq!(p.embeds[0].color, 0x0000FF);
    assert_eq!(p.embeds[0].fields[0].value, "Unknown");
}

#[test]
fn each_missing_optional_field_gets_its_placeholder() {
    let a = event(None, None, None, None, None, None);
    let p = WebhookPayload::from_alarm(&a);
    assert_eq!(p.content, "ℹ️ UNKNOWN STATE: Unknown Alarm");
    assert_eq!(p.embeds[0].title.as_deref(), Some("No description"));
    let fields = &p.embeds[0].fields;
    assert_eq!(fields.len(), 4);
    assert_eq!(fields[0].name, "State");
    assert_eq!(fields[0].value, "Unknown");
    assert_eq!(fields[1].name, "Reason");
    assert_eq!(fields[1].value, "No reason provided");
    assert_eq!(fields[2].name, "Trigger Time");
    assert_eq!(fields[2].value, "Unknown time");
    assert_eq!(fields[3].name, "AWS Console Link");
    assert_eq!(
        fields[3].value,
        "https://console.aws.amazon.com/cloudwatch/home?region=Unknown region#alarmsV2:alarm/Unknown Alarm"
    );
}

#[test]
fn intake_parses_alarm_message_and_formats_it() {
    let message = "{\"AlarmName\":\"HighCPU\",\"AlarmDescription\":\"CPU above 90%\",\
                   \"NewStateValue\":\"ALARM\",\"NewStateReason\":\"Threshold crossed\",\
                   \"StateChangeTime\":\"2024-01-01T00:00:00Z\",\"Region\":\"us-east-1\"}";
    let p = process_message(message).expect("valid alarm JSON must parse");
    assert_eq!(p.content, "🚨 ALARM: HighCPU");
    assert_eq!(p.embeds[0].title.as_deref(), Some("CPU above 90%"));
    assert_eq!(p.embeds[0].color, 0xFF0000);
    assert_eq!(p.embeds[0].fields[0].value, "ALARM");
    assert_eq!(p.embeds[0].fields[1].value, "Threshold crossed");
    assert_eq!(p.embeds[0].fields[2].value, "2024-01-01T00:00:00Z");
}

#[test]
fn intake_treats_non_string_fields_as_missing() {
    let message = "{\"AlarmName\":7,\"NewStateValue\":\"OK\"}";
    let p = process_message(message).expect("valid JSON must parse");
    assert_eq!(p.content, "✅ OK: Unknown Alarm");
}

#[test]
fn invalid_json_reports_parse_failure() {
    let r = process_message("this is not json");
    assert_eq!(r.err(), Some(ParseError::InvalidJson));
}

#[test]
fn batch_processes_valid_record_despite_malformed_one() {
    let messages = vec![
        "{not valid".to_string(),
        "{\"AlarmName\":\"Disk\",\"NewStateValue\":\"OK\"}".to_string(),
    ];
    let results = process_batch(&messages);
    assert_eq!(results.len(), 2);
    assert!(results[0].is_err());
    let p = results[1].as_ref().expect("the valid record must still be processed");
    assert_eq!(p.content, "✅ OK: Disk");
}

#[test]
fn to_json_renders_the_documented_wire_body() {
    let a = event(None, None, Some("OK"), None, None, None);
    let p = WebhookPayload::from_alarm(&a);
    let body = to_json(&p);
    assert_eq!(
        body,
        "{\"content\":\"✅ OK: Unknown Alarm\",\"embeds\":[{\"title\":\"No description\",\
         \"color\":65280,\"fields\":[{\"name\":\"State\",\"value\":\"OK\"},\
         {\"name\":\"Reason\",\"value\":\"No reason provided\"},\
         {\"name\":\"Trigger Time\",\"value\":\"Unknown time\"},\
         {\"name\":\"AWS Console Link\",\"value\":\"https://console.aws.amazon.com/cloudwatch/home?region=Unknown region#alarmsV2:alarm/Unknown Alarm\"}]}]}"
    );
}

#[test]
fn to_json_escapes_special_characters_and_stays_valid_json() {
    let a = event(
        Some("He said \"hi\" \\ twice"),
        Some("line one\nline two\ttabbed"),
        Some("ALARM"),
        None,
        None,
        None,
    );
    let p = WebhookPayload::from_alarm(&a);
    let body = to_json(&p);
    assert!(body.contains("\\\"hi\\\""));
    assert!(body.contains("\\\\ twice"));
    assert!(body.contains("\\u000a"));
    assert!(body.contains("\\u0009"));

    let doc: serde_json::Value = serde_json::from_str(&body).expect("the body must be valid JSON");
    assert_eq!(doc.get("content").and_then(serde_json::Value::as_str), Some(p.content.as_str()));
    let embed = &doc.get("embeds").and_then(serde_json::Value::as_array).unwrap()[0];
    assert_eq!(
        embed.get("title").and_then(serde_json::Value::as_str),
        Some("line one\nline two\ttabbed")
    );
    assert_eq!(embed.get("color").and_then(serde_json::Value::as_u64), Some(0xFF0000));
    assert_eq!(
        embed.get("fields").and_then(serde_json::Value::as_array).map(|f| f.len()),
        Some(4)
    );
}

#[test]
fn webhook_success_is_exactly_the_2xx_range() {
    assert!(is_webhook_success(200));
    assert!(is_webhook_success(204));
    assert!(is_webhook_success(299));
    assert!(!is_webhook_success(199));
    assert!(!is_webhook_success(300));
    assert!(!is_webhook_success(500));
}
