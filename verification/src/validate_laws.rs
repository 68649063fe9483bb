//! Laws of the check of arguments: when a call passes, and what the model is told otherwise.

use crate::text::joined_lines;
use crate::types::tool::AgentToolView;
use crate::validate::{
    compact_json, compiled_schema, error_line, found_errors, is_accepted, pretty_json, shown_path,
    verdict,
};
use serde_json::Value;
use vstd::prelude::*;

verus! {

/// Whether a text holds another one somewhere.
pub open spec fn holds(text: Seq<char>, part: Seq<char>) -> bool {
    exists|at: int| #[trigger] stands_at(text, part, at)
}

/// Whether a text holds another one at the given place.
pub open spec fn stands_at(text: Seq<char>, part: Seq<char>, at: int) -> bool {
    &&& 0 <= at <= text.len() - part.len()
    &&& text.subrange(at, at + part.len()) == part
}

/// What a part of a text holds, the text holds.
proof fn lemma_holds_within(before: Seq<char>, text: Seq<char>, after: Seq<char>, part: Seq<char>)
    requires
        holds(text, part),
    ensures
        holds(before + text + after, part),
{
    let at = choose|at: int| #[trigger] stands_at(text, part, at);
    let all = before + text + after;
    assert(all.subrange(before.len() + at, before.len() + at + part.len()) =~= text.subrange(
        at,
        at + part.len(),
    ));
    assert(stands_at(all, part, before.len() + at));
}

/// Lines that are joined stand one behind the other, with a line break between any two: joining
/// two lists of lines one behind the other joins each of them, and puts a line break between. A
/// single line is itself, and no lines are no text.
pub proof fn law_lines_are_joined_by_breaks(a: Seq<Seq<char>>, b: Seq<Seq<char>>, line: Seq<char>)
    ensures
        a.len() > 0 && b.len() > 0 ==> joined_lines(a + b) == joined_lines(a) + seq!['\n']
            + joined_lines(b),
        joined_lines(seq![line]) == line,
        joined_lines(Seq::empty()).len() == 0,
    decreases b.len(),
{
    reveal_strlit("\n");
    assert("\n"@ =~= seq!['\n']);
    if a.len() > 0 && b.len() > 0 {
        let all = a + b;
        assert(all.last() == b.last());
        assert(all.drop_last() =~= a + b.drop_last());
        if b.len() == 1 {
            assert(a + b.drop_last() =~= a);
            assert(joined_lines(b) == b[0]);
        } else {
            law_lines_are_joined_by_breaks(a, b.drop_last(), line);
            assert(joined_lines(all) =~= joined_lines(a) + seq!['\n'] + (joined_lines(
                b.drop_last(),
            ) + seq!['\n'] + b.last()));
        }
    }
}

/// Joined lines hold each of the lines.
pub proof fn law_joined_lines_hold_each_line(lines: Seq<Seq<char>>, i: int)
    requires
        0 <= i < lines.len(),
    ensures
        holds(joined_lines(lines), lines[i]),
    decreases lines.len(),
{
    let text = joined_lines(lines);
    if lines.len() == 1 {
        assert(text.subrange(0, lines[i].len() as int) =~= lines[i]);
        assert(stands_at(text, lines[i], 0));
    } else if i < lines.len() - 1 {
        let rest = lines.drop_last();
        law_joined_lines_hold_each_line(rest, i);
        lemma_holds_within(Seq::empty(), joined_lines(rest), "\n"@ + lines.last(), lines[i]);
        assert(Seq::<char>::empty() + joined_lines(rest) + ("\n"@ + lines.last()) =~= text);
    } else {
        let at = text.len() - lines[i].len();
        assert(text.subrange(at as int, text.len() as int) =~= lines[i]);
        assert(stands_at(text, lines[i], at as int));
    }
}

/// A path is shown as it is, but for a slash in front, which is left out; where nothing is left,
/// it is shown as the root.
pub proof fn law_path_is_shown_without_slash(path: Seq<char>)
    ensures
        path.len() > 1 && path[0] == '/' ==> seq!['/'] + shown_path(path) == path,
        path.len() > 0 && path[0] != '/' ==> shown_path(path) == path,
        path.len() == 0 || (path.len() == 1 && path[0] == '/') ==> shown_path(path) == "root"@,
{
    if path.len() > 1 && path[0] == '/' {
        assert(seq!['/'] + path.skip(1) =~= path);
    }
}

/// The line of an error holds the path of the error, as it is shown, and its text, which ends it.
pub proof fn law_error_line_tells_path_and_text(path: Seq<char>, text: Seq<char>)
    ensures
        error_line((path, text)) == "  - "@ + shown_path(path) + ": "@ + text,
        holds(error_line((path, text)), shown_path(path)),
        holds(error_line((path, text)), text),
{
    let line = error_line((path, text));
    let shown = shown_path(path);
    let lead = "  - "@;
    assert(line.subrange(lead.len() as int, (lead.len() + shown.len()) as int) =~= shown);
    assert(stands_at(line, shown, lead.len() as int));
    let at = line.len() - text.len();
    assert(line.subrange(at as int, line.len() as int) =~= text);
    assert(stands_at(line, text, at as int));
}

/// Arguments pass the check exactly where the tool's schema compiles and accepts them, and then
/// they pass unchanged, whatever the complaint.
pub proof fn law_accepted_arguments_pass_unchanged(
    tool: AgentToolView,
    arguments: Value,
    complaint: Seq<char>,
)
    ensures
        ({
            let accepted = compiled_schema(tool.parameters) matches Some(validator)
                && is_accepted(validator, arguments);
            &&& accepted ==> verdict(tool, arguments, complaint) == Ok::<Value, Seq<char>>(
                arguments,
            )
            &&& !accepted ==> verdict(tool, arguments, complaint) is Err
        }),
{
}

/// Arguments that the schema rejects are answered with a message that names the tool, holds a
/// line for each error found, with its path and its text, and ends with the arguments in print.
pub proof fn law_rejection_tells_every_error(
    tool: AgentToolView,
    arguments: Value,
    complaint: Seq<char>,
)
    requires
        compiled_schema(tool.parameters) is Some,
        !is_accepted(compiled_schema(tool.parameters)->0, arguments),
    ensures
        ({
            let errors = found_errors(compiled_schema(tool.parameters)->0, arguments);
            let printed = match pretty_json(arguments) {
                Some(text) => text,
                None => compact_json(arguments),
            };
            &&& verdict(tool, arguments, complaint) matches Err(message) && {
                &&& forall|i: int|
                    0 <= i < errors.len() ==> {
                        &&& holds(message, shown_path((#[trigger] errors[i]).0))
                        &&& holds(message, errors[i].1)
                        &&& holds(
                            message,
                            "  - "@ + shown_path(errors[i].0) + ": "@ + errors[i].1,
                        )
                    }
                &&& holds(message, tool.name)
                &&& message.len() >= printed.len()
                &&& message.skip(message.len() - printed.len()) == printed
                &&& errors.len() == 0 ==> holds(message, "Unknown validation error"@)
            }
        }),
{
    let errors = found_errors(compiled_schema(tool.parameters)->0, arguments);
    let printed = match pretty_json(arguments) {
        Some(text) => text,
        None => compact_json(arguments),
    };
    let message = verdict(tool, arguments, complaint)->Err_0;
    let lead = "Validation failed for tool \""@;
    let head = lead + tool.name + "\":\n"@;
    let lines = errors.map_values(|e: (Seq<char>, Seq<char>)| error_line(e));
    let body = if errors.len() == 0 {
        "Unknown validation error"@
    } else {
        joined_lines(lines)
    };
    let tail = "\n\nReceived arguments:\n"@ + printed;
    assert(message =~= head + body + tail);
    assert(message.skip(message.len() - printed.len()) =~= printed);
    assert(message.subrange(lead.len() as int, (lead.len() + tool.name.len()) as int)
        =~= tool.name);
    assert(stands_at(message, tool.name, lead.len() as int));
    assert(body.subrange(0, body.len() as int) =~= body);
    assert(stands_at(body, body, 0));
    lemma_holds_within(head, body, tail, body);
    assert forall|i: int| 0 <= i < errors.len() implies {
        &&& holds(message, shown_path((#[trigger] errors[i]).0))
        &&& holds(message, errors[i].1)
        &&& holds(message, "  - "@ + shown_path(errors[i].0) + ": "@ + errors[i].1)
    } by {
        let line = error_line(errors[i]);
        assert(lines[i] == line);
        law_joined_lines_hold_each_line(lines, i);
        lemma_holds_within(head, body, tail, line);
        law_error_line_tells_path_and_text(errors[i].0, errors[i].1);
        lemma_holds_part(message, line, shown_path(errors[i].0));
        lemma_holds_part(message, line, errors[i].1);
    }
}

/// What a part that a text holds holds itself, the text holds.
proof fn lemma_holds_part(text: Seq<char>, part: Seq<char>, smaller: Seq<char>)
    requires
        holds(text, part),
        holds(part, smaller),
    ensures
        holds(text, smaller),
{
    let at = choose|at: int| #[trigger] stands_at(text, part, at);
    let within = choose|within: int| #[trigger] stands_at(part, smaller, within);
    let start = at + within;
    assert(text.subrange(start, start + smaller.len()) =~= text.subrange(
        at,
        at + part.len(),
    ).subrange(within, within + smaller.len()));
    assert(stands_at(text, smaller, start));
}

/// Where the schema of a tool does not compile, the message names the tool and ends with the
/// complaint.
pub proof fn law_bad_schema_is_told(tool: AgentToolView, arguments: Value, complaint: Seq<char>)
    requires
        compiled_schema(tool.parameters) is None,
    ensures
        verdict(tool, arguments, complaint) matches Err(message) && {
            &&& holds(message, tool.name)
            &&& message.len() >= complaint.len()
            &&& message.skip(message.len() - complaint.len()) == complaint
        },
{
    let message = verdict(tool, arguments, complaint)->Err_0;
    let lead = "Invalid JSON Schema for tool \""@;
    assert(message.skip(message.len() - complaint.len()) =~= complaint);
    assert(message.subrange(lead.len() as int, (lead.len() + tool.name.len()) as int)
        =~= tool.name);
    assert(stands_at(message, tool.name, lead.len() as int));
}

} // verus!
