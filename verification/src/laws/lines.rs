//! Laws of white space, and of the lines of a stream.
use crate::mapper::event_of;
use crate::sse::{data_field, is_control, line_data};
use crate::text::{after_prefix, trimmed, trimmed_end, trimmed_start, white_space};
use vstd::prelude::*;

verus! {

proof fn lemma_trimmed_end_of_sum(first: Seq<char>, second: Seq<char>)
    ensures
        trimmed_end(first + second) == (if trimmed_end(second).len() == 0 {
            trimmed_end(first)
        } else {
            first + trimmed_end(second)
        }),
    decreases second.len(),
{
    if second.len() == 0 {
        assert(first + second == first);
    } else {
        assert((first + second).last() == second.last());
        if white_space(second.last()) {
            assert((first + second).drop_last() == first + second.drop_last());
            lemma_trimmed_end_of_sum(first, second.drop_last());
        }
    }
}

proof fn lemma_trimmed_either_way(s: Seq<char>)
    ensures
        trimmed_start(trimmed_end(s)) == trimmed_end(trimmed_start(s)),
    decreases s.len(),
{
    if s.len() > 0 {
        let rest = s.drop_first();
        assert(s == seq![s.first()] + rest);
        lemma_trimmed_end_of_sum(seq![s.first()], rest);
        assert(seq![s.first()].drop_last() == Seq::<char>::empty());
        assert(trimmed_end(Seq::<char>::empty()) == Seq::<char>::empty());
        assert(trimmed_end(seq![s.first()]) == (if white_space(s.first()) {
            Seq::<char>::empty()
        } else {
            seq![s.first()]
        }));
        if white_space(s.first()) {
            lemma_trimmed_either_way(rest);
            if trimmed_end(rest).len() > 0 {
                assert(trimmed_end(s).drop_first() == trimmed_end(rest));
            }
        }
    }
}

proof fn lemma_trimmed_end_has_no_end(s: Seq<char>)
    ensures
        trimmed_end(s).len() == 0 || !white_space(trimmed_end(s).last()),
        trimmed_end(trimmed_end(s)) == trimmed_end(s),
    decreases s.len(),
{
    if s.len() > 0 && white_space(s.last()) {
        lemma_trimmed_end_has_no_end(s.drop_last());
    }
}

proof fn lemma_trimmed_start_has_no_start(s: Seq<char>)
    ensures
        trimmed_start(s).len() == 0 || !white_space(trimmed_start(s).first()),
        trimmed_start(trimmed_start(s)) == trimmed_start(s),
    decreases s.len(),
{
    if s.len() > 0 && white_space(s.first()) {
        lemma_trimmed_start_has_no_start(s.drop_first());
    }
}

/// Text that has been trimmed neither starts nor ends with white space, and
/// trimming it again changes nothing.
pub proof fn law_trimmed_has_no_ends(s: Seq<char>)
    ensures
        trimmed(s).len() > 0 ==> !white_space(trimmed(s).first()) && !white_space(
            trimmed(s).last(),
        ),
        trimmed(trimmed(s)) == trimmed(s),
{
    lemma_trimmed_either_way(s);
    lemma_trimmed_end_has_no_end(trimmed_start(s));
    lemma_trimmed_start_has_no_start(trimmed_end(s));
}

/// White space round a line does not matter.
pub proof fn law_white_space_round_line(line: Seq<char>)
    ensures
        line_data(trimmed(line)) == line_data(line),
{
    law_trimmed_has_no_ends(line);
}

proof fn lemma_trimmed_of_trimmed_end(s: Seq<char>)
    ensures
        trimmed(trimmed_end(s)) == trimmed(s),
{
    lemma_trimmed_either_way(s);
    lemma_trimmed_end_has_no_end(trimmed_start(s));
}

/// A line with the data field carries what is in the field, without the white
/// space round it. It carries nothing if nothing else is there.
pub proof fn law_data_line(payload: Seq<char>)
    ensures
        line_data("data:"@ + payload) == (if trimmed(payload).len() == 0 {
            None
        } else {
            Some(trimmed(payload))
        }),
{
    reveal_strlit("data:");
    reveal_strlit("data: ");
    let field = "data:"@;
    let spaced = "data: "@;
    let line = field + payload;
    assert(line.first() == 'd');
    assert(trimmed_start(line) == line);
    lemma_trimmed_end_of_sum(field, payload);
    assert(field.last() == ':');
    let end = trimmed_end(payload);
    assert(trimmed(line) == field + end);
    lemma_trimmed_of_trimmed_end(payload);
    assert(after_prefix(field + end, field) == Some(end)) by {
        assert((field + end).subrange(0, field.len() as int) == field);
        assert((field + end).skip(field.len() as int) == end);
    }
    if end.len() > 0 && end.first() == ' ' {
        assert((field + end).subrange(0, spaced.len() as int) == spaced);
        assert((field + end).skip(spaced.len() as int) == end.drop_first());
        assert(trimmed(end.drop_first()) == trimmed(end));
    } else {
        assert(!spaced.is_prefix_of(field + end)) by {
            if spaced.is_prefix_of(field + end) {
                assert((field + end)[5] == spaced[5]);
            }
        }
    }
}

/// A space after the name of the data field does not matter.
pub proof fn law_space_after_data(payload: Seq<char>)
    ensures
        line_data("data: "@ + payload) == line_data("data:"@ + payload),
{
    reveal_strlit("data:");
    reveal_strlit("data: ");
    let space = seq![' '];
    assert("data: "@ + payload == "data:"@ + (space + payload));
    law_data_line(payload);
    law_data_line(space + payload);
    assert((space + payload).drop_first() == payload);
    assert(trimmed(space + payload) == trimmed(payload));
}

/// A line that says that the stream is over is understood so, whatever white
/// space stands round the word.
pub proof fn law_done_line(payload: Seq<char>)
    requires
        trimmed(payload) == "[DONE]"@,
    ensures
        line_data("data:"@ + payload) == Some("[DONE]"@),
        event_of("[DONE]"@) is Done,
{
    reveal_strlit("[DONE]");
    law_data_line(payload);
    law_trimmed_has_no_ends(payload);
}

/// What a line carries is never empty and has no white space round it, so that
/// it is not passed over as an empty event.
pub proof fn law_data_is_not_empty(line: Seq<char>)
    ensures
        line_data(line) matches Some(data) ==> {
            &&& data.len() > 0
            &&& trimmed(data) == data
            &&& event_of(data) !is Empty
        },
{
    law_trimmed_has_no_ends(line);
    match data_field(trimmed(line)) {
        Some(data) => law_trimmed_has_no_ends(data),
        None => {},
    }
}

/// The other fields of an event carry nothing.
pub proof fn law_control_lines_carry_nothing(line: Seq<char>)
    requires
        is_control(trimmed(line)),
    ensures
        line_data(line) is None,
{
    reveal_strlit("data:");
    reveal_strlit("data: ");
    reveal_strlit("event:");
    reveal_strlit("id:");
    reveal_strlit("retry:");
    let line = trimmed(line);
    assert(line[0] == 'e' || line[0] == 'i' || line[0] == 'r') by {
        if "event:"@.is_prefix_of(line) {
            assert(line.subrange(0, 6)[0] == line[0]);
        } else if "id:"@.is_prefix_of(line) {
            assert(line.subrange(0, 3)[0] == line[0]);
        } else {
            assert(line.subrange(0, 6)[0] == line[0]);
        }
    }
    assert(data_field(line) is None) by {
        if "data: "@.is_prefix_of(line) {
            assert(line.subrange(0, 6)[0] == line[0]);
        }
        if "data:"@.is_prefix_of(line) {
            assert(line.subrange(0, 5)[0] == line[0]);
        }
    }
}

/// A line that is no field of an event and is not blank is data itself.
pub proof fn law_other_lines_are_data(line: Seq<char>)
    requires
        trimmed(line).len() > 0,
        !is_control(trimmed(line)),
        !"data:"@.is_prefix_of(trimmed(line)),
    ensures
        line_data(line) == Some(trimmed(line)),
{
    reveal_strlit("data:");
    reveal_strlit("data: ");
    let line = trimmed(line);
    if "data: "@.is_prefix_of(line) {
        assert(line.subrange(0, 5) == "data: "@.subrange(0, 5));
        assert("data: "@.subrange(0, 5) == "data:"@);
    }
}

/// The four fields of an event are the only ones that are not data themselves:
/// a line that starts with `event:`, `id:` or `retry:` carries nothing, and one
/// that starts with none of these nor with `data:` is carried whole.
pub proof fn law_only_fields_are_passed_over(line: Seq<char>)
    ensures
        ({
            let text = trimmed(line);
            let control = "event:"@.is_prefix_of(text) || "id:"@.is_prefix_of(text)
                || "retry:"@.is_prefix_of(text);
            &&& text.len() == 0 ==> line_data(line) is None
            &&& control ==> line_data(line) is None
            &&& text.len() > 0 && !control && !"data:"@.is_prefix_of(text) ==> line_data(line)
                == Some(text)
        }),
{
    let text = trimmed(line);
    if "event:"@.is_prefix_of(text) || "id:"@.is_prefix_of(text) || "retry:"@.is_prefix_of(text) {
        law_control_lines_carry_nothing(line);
    } else if text.len() == 0 {
        reveal_strlit("data:");
        reveal_strlit("data: ");
        assert(data_field(text) is None);
    } else if !"data:"@.is_prefix_of(text) {
        law_other_lines_are_data(line);
    }
}

} // verus!
