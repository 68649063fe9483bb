//! Checking the arguments of a tool call against the tool's JSON Schema.

use crate::text::{join_lines, joined_lines};
use crate::types::tool::{AgentTool, AgentToolView};
use jsonschema::Validator;
use serde_json::Value;
use vstd::prelude::*;
use vstd::string::StrSliceExecFns;

verus! {

/// A compiled JSON Schema.
#[verifier::external_type_specification]
#[verifier::external_body]
pub struct ExValidator(Validator);

/// What `jsonschema::validator_for` makes of a schema: a validator; nothing where it fails.
pub uninterp spec fn compiled_schema(schema: Value) -> Option<Validator>;

/// What `Validator::is_valid` says of an instance.
pub uninterp spec fn is_accepted(validator: Validator, instance: Value) -> bool;

/// What `Validator::iter_errors` finds in an instance: the path and the text of each error.
pub uninterp spec fn found_errors(validator: Validator, instance: Value) -> Seq<
    (Seq<char>, Seq<char>),
>;

/// What `serde_json::to_string_pretty` makes of a value; nothing where it fails.
pub uninterp spec fn pretty_json(value: Value) -> Option<Seq<char>>;

/// What `Display` of `serde_json::Value` prints.
pub uninterp spec fn compact_json(value: Value) -> Seq<char>;

/// `jsonschema::validator_for` compiles a schema, or fails with an error, here given by its
/// text. The crate is built without its retrievers of remote schemas, so the schema alone
/// decides whether it compiles, and to what. Nothing is claimed of the text: where several
/// references of a schema cannot be resolved, it tells of one of them, and which one may differ
/// from call to call.
#[verifier::external_body]
fn compile_schema(schema: &Value) -> (compiled: Result<Validator, String>)
    ensures
        match compiled {
            Ok(validator) => compiled_schema(*schema) == Some(validator),
            Err(_) => compiled_schema(*schema) is None,
        },
{
    match jsonschema::validator_for(schema) {
        Ok(validator) => Ok(validator),
        Err(error) => Err(error.to_string()),
    }
}

/// `Validator::is_valid` tells whether an instance satisfies the schema.
pub assume_specification[ Validator::is_valid ](validator: &Validator, instance: &Value) -> (valid:
    bool)
    ensures
        valid == is_accepted(*validator, *instance),
;

/// `Validator::iter_errors` walks the errors in an instance, in an order that the schema and the
/// instance fix; each comes with its path in the instance and its text.
#[verifier::external_body]
fn list_errors(validator: &Validator, instance: &Value) -> (errors: Vec<(String, String)>)
    ensures
        errors.deep_view() == found_errors(*validator, *instance),
{
    validator.iter_errors(instance).map(|error| (error.instance_path().to_string(), error.to_string())).collect()
}

/// `serde_json::to_string_pretty` prints a value over several lines, or fails.
#[verifier::external_body]
fn print_pretty(value: &Value) -> (text: Option<String>)
    ensures
        text.deep_view() == pretty_json(*value),
{
    serde_json::to_string_pretty(value).ok()
}

/// `Display` of `serde_json::Value` prints a value on one line.
#[verifier::external_body]
fn print_compact(value: &Value) -> (text: String)
    ensures
        text@ == compact_json(*value),
{
    value.to_string()
}

/// What the check of arguments against a schema found.
#[derive(Debug)]
pub enum SchemaFindings {
    /// The schema does not compile, for the given reason.
    InvalidSchema(String),
    /// The arguments satisfy the schema.
    Accepted,
    /// The arguments violate the schema: the path and the text of each error, and the
    /// arguments in print.
    Rejected { errors: Vec<(String, String)>, received: String },
}

#[verifier::ext_equal]
pub enum SchemaFindingsView {
    InvalidSchema(Seq<char>),
    Accepted,
    Rejected { errors: Seq<(Seq<char>, Seq<char>)>, received: Seq<char> },
}

impl DeepView for SchemaFindings {
    type V = SchemaFindingsView;

    open spec fn deep_view(&self) -> SchemaFindingsView {
        match self {
            SchemaFindings::InvalidSchema(text) => SchemaFindingsView::InvalidSchema(text@),
            SchemaFindings::Accepted => SchemaFindingsView::Accepted,
            SchemaFindings::Rejected { errors, received } => SchemaFindingsView::Rejected {
                errors: errors.deep_view(),
                received: received@,
            },
        }
    }
}

/// A path as the message shows it: without the slash in front, `root` for the empty path.
pub open spec fn shown_path(path: Seq<char>) -> Seq<char> {
    let inner = if path.len() > 0 && path[0] == '/' {
        path.skip(1)
    } else {
        path
    };
    if inner.len() == 0 {
        "root"@
    } else {
        inner
    }
}

/// The line that tells of one error.
pub open spec fn error_line(error: (Seq<char>, Seq<char>)) -> Seq<char> {
    "  - "@ + shown_path(error.0) + ": "@ + error.1
}

/// The message for the model where the findings refuse a call of the tool; nothing where they
/// do not.
pub open spec fn refusal(tool_name: Seq<char>, findings: SchemaFindingsView) -> Option<Seq<char>> {
    match findings {
        SchemaFindingsView::InvalidSchema(text) => Some(
            "Invalid JSON Schema for tool \""@ + tool_name + "\": "@ + text,
        ),
        SchemaFindingsView::Accepted => None,
        SchemaFindingsView::Rejected { errors, received } => Some(
            "Validation failed for tool \""@ + tool_name + "\":\n"@ + (if errors.len() == 0 {
                "Unknown validation error"@
            } else {
                joined_lines(errors.map_values(|e: (Seq<char>, Seq<char>)| error_line(e)))
            }) + "\n\nReceived arguments:\n"@ + received,
        ),
    }
}

/// What the check of arguments against a schema finds. Where the schema does not compile, the
/// complaint tells of it.
pub open spec fn findings_of(
    schema: Value,
    arguments: Value,
    complaint: Seq<char>,
) -> SchemaFindingsView {
    match compiled_schema(schema) {
        None => SchemaFindingsView::InvalidSchema(complaint),
        Some(validator) => if is_accepted(validator, arguments) {
            SchemaFindingsView::Accepted
        } else {
            SchemaFindingsView::Rejected {
                errors: found_errors(validator, arguments),
                received: match pretty_json(arguments) {
                    Some(text) => text,
                    None => compact_json(arguments),
                },
            }
        },
    }
}

/// The verdict on a call of a tool with the given arguments: the arguments, or the message that
/// refuses them. Where the tool's schema does not compile, that message holds the complaint.
pub open spec fn verdict(tool: AgentToolView, arguments: Value, complaint: Seq<char>) -> Result<
    Value,
    Seq<char>,
> {
    match refusal(tool.name, findings_of(tool.parameters, arguments, complaint)) {
        Some(message) => Err(message),
        None => Ok(arguments),
    }
}

/// What a check of arguments came to: the arguments, or the message that refuses them.
pub open spec fn checked_view(checked: Result<Value, String>) -> Result<Value, Seq<char>> {
    match checked {
        Ok(args) => Ok(args),
        Err(message) => Err(message@),
    }
}

/// The path of an error as the message shows it.
pub fn show_path(path: &str) -> (shown: String)
    ensures
        shown@ == shown_path(path@),
{
    let length: usize = path.unicode_len();
    let start: usize = if length > 0 && path.get_char(0) == '/' {
        1
    } else {
        0
    };
    if start == length {
        "root".to_owned()
    } else {
        let inner = path.substring_char(start, length);
        assert(path@.subrange(start as int, length as int) =~= path@.skip(start as int));
        assert(path@.skip(0) =~= path@);
        inner.to_owned()
    }
}

/// The lines that tell of the errors.
fn error_lines(errors: &Vec<(String, String)>) -> (lines: Vec<String>)
    ensures
        lines.deep_view() == errors.deep_view().map_values(
            |e: (Seq<char>, Seq<char>)| error_line(e),
        ),
{
    let mut lines: Vec<String> = Vec::new();
    let mut i: usize = 0;
    while i < errors.len()
        invariant
            0 <= i <= errors.len(),
            lines.len() == i,
            forall|j: int|
                0 <= j < i ==> (#[trigger] lines@[j])@ == error_line(
                    (errors@[j].0@, errors@[j].1@),
                ),
        decreases errors.len() - i,
    {
        let mut line = "  - ".to_owned();
        line.append(show_path(errors[i].0.as_str()).as_str());
        line.append(": ");
        line.append(errors[i].1.as_str());
        lines.push(line);
        i = i + 1;
    }
    assert(lines.deep_view() =~= errors.deep_view().map_values(
        |e: (Seq<char>, Seq<char>)| error_line(e),
    ));
    lines
}

/// The message for the model where the findings refuse a call of the tool; nothing where they
/// do not.
pub fn refuse(tool_name: &str, findings: &SchemaFindings) -> (message: Option<String>)
    ensures
        message.deep_view() == refusal(tool_name@, findings.deep_view()),
{
    match findings {
        SchemaFindings::InvalidSchema(text) => {
            let mut message = "Invalid JSON Schema for tool \"".to_owned();
            message.append(tool_name);
            message.append("\": ");
            message.append(text.as_str());
            Some(message)
        },
        SchemaFindings::Accepted => None,
        SchemaFindings::Rejected { errors, received } => {
            let mut message = "Validation failed for tool \"".to_owned();
            message.append(tool_name);
            message.append("\":\n");
            if errors.len() == 0 {
                message.append("Unknown validation error");
            } else {
                message.append(join_lines(&error_lines(errors)).as_str());
            }
            message.append("\n\nReceived arguments:\n");
            message.append(received.as_str());
            Some(message)
        },
    }
}

/// Checks arguments against a schema. The findings are fixed but for the text of the complaint
/// about a schema that does not compile.
pub fn inspect(schema: &Value, arguments: &Value) -> (findings: SchemaFindings)
    ensures
        exists|complaint: Seq<char>|
            findings.deep_view() == #[trigger] findings_of(*schema, *arguments, complaint),
{
    match compile_schema(schema) {
        Err(text) => {
            let findings = SchemaFindings::InvalidSchema(text);
            assert(findings.deep_view() == findings_of(*schema, *arguments, text@));
            findings
        },
        Ok(validator) => {
            if validator.is_valid(arguments) {
                let findings = SchemaFindings::Accepted;
                assert(findings.deep_view() == findings_of(*schema, *arguments, Seq::empty()));
                findings
            } else {
                let received = match print_pretty(arguments) {
                    Some(text) => text,
                    None => print_compact(arguments),
                };
                let errors = list_errors(&validator, arguments);
                let findings = SchemaFindings::Rejected { errors, received };
                assert(findings.deep_view() == findings_of(*schema, *arguments, Seq::empty()));
                findings
            }
        },
    }
}

/// Checks the arguments of a tool call against the tool's schema: returns them where they
/// satisfy it, and otherwise a message that tells the model what is wrong. Which of the two
/// comes is fixed, and so is the message, but for the complaint about a schema that does not
/// compile.
pub fn validate_tool_arguments(tool: &AgentTool, arguments: &Value) -> (result: Result<
    Value,
    String,
>)
    ensures
        exists|complaint: Seq<char>|
            checked_view(result) == #[trigger] verdict(tool.deep_view(), *arguments, complaint),
{
    let findings = inspect(&tool.parameters, arguments);
    let ghost complaint = choose|complaint: Seq<char>|
        findings.deep_view() == #[trigger] findings_of(tool.parameters, *arguments, complaint);
    assert(tool.deep_view().parameters == tool.parameters);
    match refuse(tool.name(), &findings) {
        Some(message) => {
            assert(verdict(tool.deep_view(), *arguments, complaint) == Err::<Value, Seq<char>>(
                message@,
            ));
            Err(message)
        },
        None => {
            assert(verdict(tool.deep_view(), *arguments, complaint) == Ok::<Value, Seq<char>>(
                *arguments,
            ));
            Ok(arguments.clone())
        },
    }
}

} // verus!
