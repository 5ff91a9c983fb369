use z_ai::chat::LanguageModelCompletionError;
use z_ai::mapper::{stream_event, StreamEvent};
use z_ai::sse::{event_data, read_line};

#[test]
fn data_lines_carry_their_data() {
    assert_eq!(event_data("data: {\"a\":1}"), Some("{\"a\":1}".to_string()));
    assert_eq!(event_data("data:{\"a\":1}"), Some("{\"a\":1}".to_string()));
    assert_eq!(event_data("  data:   x y \r"), Some("x y".to_string()));
    assert_eq!(event_data("data: [DONE]"), Some("[DONE]".to_string()));
    assert_eq!(event_data("data: data: x"), Some("data: x".to_string()));
}

#[test]
fn a_space_after_the_field_does_not_matter() {
    for payload in ["", " ", "x", " x ", ":", "[DONE]"] {
        assert_eq!(
            event_data(&format!("data: {}", payload)),
            event_data(&format!("data:{}", payload))
        );
    }
}

#[test]
fn blank_lines_and_control_lines_carry_nothing() {
    for line in ["", "   ", "data:", "data: ", "data:\t", "event: message", "id: 7", "retry:5"] {
        assert_eq!(event_data(line), None, "{}", line);
    }
}

#[test]
fn other_lines_are_data() {
    assert_eq!(event_data(" {\"id\":\"x\"} "), Some("{\"id\":\"x\"}".to_string()));
    assert_eq!(event_data(": comment"), Some(": comment".to_string()));
    assert_eq!(event_data("database"), Some("database".to_string()));
}

#[test]
fn lines_that_cannot_be_read_are_failures() {
    assert_eq!(read_line(Ok("event: x".to_string())), None);
    assert_eq!(read_line(Ok("data: x".to_string())), Some(Ok("x".to_string())));
    assert_eq!(
        read_line(Err("cut off".to_string())),
        Some(Err(LanguageModelCompletionError::CloudFailure {
            provider: "Z.AI".to_string(),
            code: "stream_read_error".to_string(),
            message: "Failed to read stream line: cut off".to_string(),
        }))
    );
}

#[test]
fn events_are_told_apart() {
    assert_eq!(stream_event(" [DONE]\n"), StreamEvent::Done);
    assert_eq!(stream_event(" \n"), StreamEvent::Empty);
    assert_eq!(stream_event(" {} "), StreamEvent::Data("{}".to_string()));
    assert_eq!(stream_event("[done]"), StreamEvent::Data("[done]".to_string()));
}

#[test]
fn what_a_line_carries_is_never_an_empty_event() {
    for line in ["data: x", "data: [DONE]", "{", "data:\u{a0}y\u{a0}"] {
        let data = event_data(line).unwrap();
        assert!(stream_event(&data) != StreamEvent::Empty);
        assert_eq!(data, data.trim());
    }
}

#[test]
fn a_line_that_says_done_ends_the_stream() {
    for line in ["data: [DONE]", "data:[DONE]", " data:\t[DONE] \r"] {
        let data = event_data(line).unwrap();
        assert_eq!(data, "[DONE]");
        assert_eq!(stream_event(&data), StreamEvent::Done);
    }
}
