//! The lines of a stream of server-sent events.
use crate::chat::{ErrorModel, LanguageModelCompletionError};
use crate::failure::{cloud_failure, stream_read_error};
use crate::text::{after_prefix, starts_with, strip_prefix, trim, trimmed};
use vstd::prelude::*;

verus! {

/// What follows the name of the data field in `line`, if that is its field.
pub open spec fn data_field(line: Seq<char>) -> Option<Seq<char>> {
    match after_prefix(line, "data: "@) {
        Some(data) => Some(data),
        None => after_prefix(line, "data:"@),
    }
}

/// Whether `line` holds another field of an event.
pub open spec fn is_control(line: Seq<char>) -> bool {
    ||| "event:"@.is_prefix_of(line)
    ||| "id:"@.is_prefix_of(line)
    ||| "retry:"@.is_prefix_of(line)
}

/// The data that `line` carries, if it carries any. A line that holds no field
/// of an event may be a whole answer, and is data itself.
pub open spec fn line_data(line: Seq<char>) -> Option<Seq<char>> {
    let line = trimmed(line);
    match data_field(line) {
        Some(data) => if trimmed(data).len() == 0 {
            None
        } else {
            Some(trimmed(data))
        },
        None => if line.len() == 0 || is_control(line) {
            None
        } else {
            Some(line)
        },
    }
}

/// The data that `line` carries, if it carries any.
pub fn event_data(line: &str) -> (r: Option<String>)
    ensures
        r is Some == line_data(line@) is Some,
        r is Some ==> r->0@ == line_data(line@)->0,
{
    let line = trim(line);
    let field = match strip_prefix(line, "data: ") {
        Some(data) => Some(data),
        None => strip_prefix(line, "data:"),
    };
    match field {
        Some(data) => {
            let data = trim(data);
            if data.is_empty() {
                None
            } else {
                Some(data.to_string())
            }
        },
        None => {
            if line.is_empty() {
                None
            } else if starts_with(line, "event:") || starts_with(line, "id:") || starts_with(
                line,
                "retry:",
            ) {
                None
            } else {
                Some(line.to_string())
            }
        },
    }
}

/// What the outcome of reading a line gives: its data if it carries any, or the
/// failure to read it.
pub open spec fn line_outcome(line: Result<String, String>) -> Option<
    Result<Seq<char>, ErrorModel>,
> {
    match line {
        Ok(line) => match line_data(line@) {
            Some(data) => Some(Ok(data)),
            None => None,
        },
        Err(error) => Some(
            Err(cloud_failure("stream_read_error"@, "Failed to read stream line: "@ + error@)),
        ),
    }
}

/// What the outcome of reading a line gives: its data if it carries any, or the
/// failure to read it.
pub fn read_line(line: Result<String, String>) -> (r: Option<
    Result<String, LanguageModelCompletionError>,
>)
    ensures
        match r {
            Some(Ok(data)) => line_outcome(line) == Some(
                Ok::<Seq<char>, ErrorModel>(data@),
            ),
            Some(Err(error)) => line_outcome(line) == Some(
                Err::<Seq<char>, ErrorModel>(error@),
            ),
            None => line_outcome(line) is None,
        },
{
    match line {
        Ok(line) => match event_data(line.as_str()) {
            Some(data) => Some(Ok(data)),
            None => None,
        },
        Err(error) => Some(Err(stream_read_error(error.as_str()))),
    }
}

} // verus!
