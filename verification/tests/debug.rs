use gl_generator::debug::{
    debug_message, get_id_text, get_kind_name, get_severity_name, get_source_name,
    lacks_debug_bit, GLErrorSeverityLogLevel,
};
use gl_generator::publish::{differs, needs_publishing};

#[test]
fn levels_are_ordered_by_urgency() {
    let (high, medium, low, notification, all) = (
        GLErrorSeverityLogLevel::DEBUG_SEVERITY_HIGH,
        GLErrorSeverityLogLevel::DEBUG_SEVERITY_MEDIUM,
        GLErrorSeverityLogLevel::DEBUG_SEVERITY_LOW,
        GLErrorSeverityLogLevel::DEBUG_SEVERITY_NOTIFICATION,
        GLErrorSeverityLogLevel::All,
    );
    assert!(all < high);
    assert!(all < notification);
    assert!(notification < low);
    assert!(low < medium);
    assert!(medium < high);
    assert!(!(high < high));
    assert!(high >= high);
    assert!(high > all);
    assert_eq!(all.level(), 1);
    assert_eq!(notification.level(), 2);
    assert_eq!(low.level(), 3);
    assert_eq!(medium.level(), 4);
    assert_eq!(high.level(), 5);
}

#[test]
fn levels_of_native_severities() {
    assert_eq!(GLErrorSeverityLogLevel::from_gl(0x9146), GLErrorSeverityLogLevel::DEBUG_SEVERITY_HIGH);
    assert_eq!(GLErrorSeverityLogLevel::from_gl(0x9147), GLErrorSeverityLogLevel::DEBUG_SEVERITY_MEDIUM);
    assert_eq!(GLErrorSeverityLogLevel::from_gl(0x9148), GLErrorSeverityLogLevel::DEBUG_SEVERITY_LOW);
    assert_eq!(GLErrorSeverityLogLevel::from_gl(0x826B), GLErrorSeverityLogLevel::DEBUG_SEVERITY_NOTIFICATION);
    assert_eq!(GLErrorSeverityLogLevel::from_gl(0), GLErrorSeverityLogLevel::All);
    assert_eq!(GLErrorSeverityLogLevel::from_gl(0x9149), GLErrorSeverityLogLevel::All);
}

#[test]
fn names_of_native_values() {
    assert_eq!(get_source_name(0x8246), "DEBUG_SOURCE_API");
    assert_eq!(get_source_name(0x8247), "DEBUG_SOURCE_WINDOW_SYSTEM");
    assert_eq!(get_source_name(0x8248), "DEBUG_SOURCE_SHADER_COMPILER");
    assert_eq!(get_source_name(0x8249), "DEBUG_SOURCE_THIRD_PARTY");
    assert_eq!(get_source_name(0x824A), "DEBUG_SOURCE_APPLICATION");
    assert_eq!(get_source_name(0x824B), "DEBUG_SOURCE_OTHER");
    assert_eq!(get_source_name(7), "Unknown source");
    assert_eq!(get_severity_name(0x9146), "HIGH");
    assert_eq!(get_severity_name(0x9147), "MEDIUM");
    assert_eq!(get_severity_name(0x9148), "LOW");
    assert_eq!(get_severity_name(0x826B), "NOTIFICATION");
    assert_eq!(get_severity_name(7), "Unknown severity");
    assert_eq!(get_kind_name(0x824C), "DEBUG_TYPE_ERROR");
    assert_eq!(get_kind_name(0x824D), "DEBUG_TYPE_DEPRECATED_BEHAVIOR");
    assert_eq!(get_kind_name(0x824E), "DEBUG_TYPE_UNDEFINED_BEHAVIOR");
    assert_eq!(get_kind_name(0x824F), "DEBUG_TYPE_PORTABILITY");
    assert_eq!(get_kind_name(0x8250), "DEBUG_TYPE_PERFORMANCE");
    assert_eq!(get_kind_name(0x8251), "DEBUG_TYPE_OTHER");
    assert_eq!(get_kind_name(0x8268), "DEBUG_TYPE_MARKER");
    assert_eq!(get_kind_name(0x8269), "DEBUG_TYPE_PUSH_GROUP");
    assert_eq!(get_kind_name(0x826A), "DEBUG_TYPE_POP_GROUP");
    assert_eq!(get_kind_name(7), "Unknown error type");
}

#[test]
fn message_numbers_have_eight_digits() {
    assert_eq!(get_id_text(0), "0x00000000");
    assert_eq!(get_id_text(0x502), "0x00000502");
    assert_eq!(get_id_text(0xDEADBEEF), "0xDEADBEEF");
    assert_eq!(get_id_text(u32::MAX), "0xFFFFFFFF");
    assert_eq!(get_id_text(0x1234_5678), "0x12345678");
    assert_eq!(get_id_text(0x9abc_def0), "0x9ABCDEF0");
    for id in [1u32, 15, 16, 255, 4096, 70000, 0x0A0B_0C0D] {
        assert_eq!(get_id_text(id), format!("0x{:8X}", id).replace(" ", "0"));
    }
}

#[test]
fn message_report() {
    let got = debug_message(
        0x8246,
        0x824C,
        0x502,
        0x9146,
        Some("GL_INVALID_OPERATION in glDrawArrays"),
        GLErrorSeverityLogLevel::DEBUG_SEVERITY_HIGH,
    );
    let expected = "OpenGL Debug Message\n  Severity : HIGH\n  Source   : DEBUG_SOURCE_API\n  ID       : 0x00000502\n  GLType   : DEBUG_TYPE_ERROR\n  Message  : GL_INVALID_OPERATION in glDrawArrays";
    assert_eq!(got, Some(expected.to_string()));
}

#[test]
fn message_below_the_level_is_dropped() {
    let level = GLErrorSeverityLogLevel::DEBUG_SEVERITY_MEDIUM;
    assert_eq!(debug_message(0x8246, 0x824C, 1, 0x9148, Some("m"), level), None);
    assert_eq!(debug_message(0x8246, 0x824C, 1, 0x826B, Some("m"), level), None);
    assert_eq!(debug_message(0x8246, 0x824C, 1, 12345, Some("m"), level), None);
    assert!(debug_message(0x8246, 0x824C, 1, 0x9147, Some("m"), level).is_some());
    assert!(debug_message(0x8246, 0x824C, 1, 0x9146, Some("m"), level).is_some());
    assert!(debug_message(0x8246, 0x824C, 1, 12345, Some("m"), GLErrorSeverityLogLevel::All).is_some());
}

#[test]
fn unreadable_message_is_reported_as_such() {
    let got = debug_message(1, 2, 3, 4, None, GLErrorSeverityLogLevel::All);
    let expected = "OpenGL Debug Message\n  Severity : Unknown severity\n  Source   : Unknown source\n  ID       : 0x00000003\n  GLType   : Unknown error type\n  Message  : Failed to read debug message";
    assert_eq!(got, Some(expected.to_string()));
}

#[test]
fn debug_bit_of_context_flags() {
    assert!(lacks_debug_bit(0));
    assert!(lacks_debug_bit(1));
    assert!(lacks_debug_bit(4));
    assert!(!lacks_debug_bit(2));
    assert!(!lacks_debug_bit(3));
    assert!(!lacks_debug_bit(u32::MAX));
}

#[test]
fn buffers_differ_in_a_byte_or_in_length() {
    assert!(!differs(&vec![], &vec![]));
    assert!(!differs(&vec![1, 2, 3], &vec![1, 2, 3]));
    assert!(differs(&vec![1, 2, 3], &vec![1, 2, 4]));
    assert!(differs(&vec![1, 2, 3], &vec![1, 2]));
    assert!(differs(&vec![1, 2], &vec![1, 2, 3]));
    assert!(differs(&vec![], &vec![0]));
}

#[test]
fn publishing_is_needed_when_nothing_or_something_else_is_there() {
    let fresh = vec![1u8, 2, 3];
    assert!(needs_publishing(None, &fresh));
    assert!(!needs_publishing(Some(&vec![1, 2, 3]), &fresh));
    assert!(needs_publishing(Some(&vec![1, 2, 3, 4]), &fresh));
    assert!(needs_publishing(Some(&vec![1, 2]), &fresh));
    assert!(needs_publishing(Some(&vec![3, 2, 1]), &fresh));
}
