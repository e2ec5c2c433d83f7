//! Diagnostic events that the library asks the host to record.

use vstd::prelude::*;

verus! {

/// One entry for the diagnostic log: its type, its severity and its text.
pub struct DiagnosticEvent {
    pub event_type: String,
    pub severity: String,
    pub message: String,
}

/// A view of an event: its three texts.
pub open spec fn event_is(
    e: DiagnosticEvent,
    event_type: Seq<char>,
    severity: Seq<char>,
    message: Seq<char>,
) -> bool {
    &&& e.event_type@ == event_type
    &&& e.severity@ == severity
    &&& e.message@ == message
}

/// Builds an event from its three texts.
pub fn make_event(event_type: &str, severity: &str, message: String) -> (e: DiagnosticEvent)
    ensures
        event_is(e, event_type@, severity@, message@),
{
    DiagnosticEvent {
        event_type: String::from_str(event_type),
        severity: String::from_str(severity),
        message,
    }
}

/// The event recorded when the Android app moves to the background
/// (`entered_background`) or back to the foreground.
pub fn android_lifecycle_event(entered_background: bool) -> (e: DiagnosticEvent)
    ensures
        entered_background ==> event_is(
            e,
            "android_lifecycle"@,
            "info"@,
            "Android app entered background"@,
        ),
        !entered_background ==> event_is(
            e,
            "android_lifecycle"@,
            "info"@,
            "Android app entered foreground"@,
        ),
{
    if entered_background {
        make_event("android_lifecycle", "info", String::from_str("Android app entered background"))
    } else {
        make_event("android_lifecycle", "info", String::from_str("Android app entered foreground"))
    }
}

} // verus!
