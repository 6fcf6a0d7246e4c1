//! The alarm event record: the fields the relay reads out of a state-change
//! notification, each optional because the incoming document may omit it.

use vstd::prelude::*;

verus! {

/// An alarm state-change event, reduced to the fields the relay consumes.
/// Every field is optional: a missing field is replaced by a placeholder
/// when the event is formatted, never an error.
pub struct AlarmEvent {
    pub alarm_name: Option<String>,
    pub alarm_description: Option<String>,
    pub new_state_value: Option<String>,
    pub new_state_reason: Option<String>,
    pub state_change_time: Option<String>,
    pub region: Option<String>,
}

/// The mathematical model of an alarm event: each field as an optional
/// sequence of characters.
#[verifier::ext_equal]
pub ghost struct AlarmView {
    pub alarm_name: Option<Seq<char>>,
    pub alarm_description: Option<Seq<char>>,
    pub new_state_value: Option<Seq<char>>,
    pub new_state_reason: Option<Seq<char>>,
    pub state_change_time: Option<Seq<char>>,
    pub region: Option<Seq<char>>,
}

impl View for AlarmEvent {
    type V = AlarmView;

    open spec fn view(&self) -> AlarmView {
        AlarmView {
            alarm_name: self.alarm_name.deep_view(),
            alarm_description: self.alarm_description.deep_view(),
            new_state_value: self.new_state_value.deep_view(),
            new_state_reason: self.new_state_reason.deep_view(),
            state_change_time: self.state_change_time.deep_view(),
            region: self.region.deep_view(),
        }
    }
}

/// Why intake rejected a notification record.
#[derive(Clone, Copy, Debug, PartialEq, Eq, Structural)]
pub enum ParseError {
    /// The record's message string is not a valid JSON document.
    InvalidJson,
}

} // verus!
