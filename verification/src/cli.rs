//! The decisions of the command-line tool: checking a tool's JSON schema and
//! Python source before upload, building the creation request, reading a
//! message role and reading a deletion confirmation.
//!
//! Reading files, talking to the server and printing stay with the caller; the
//! functions here take and return plain values, and report warnings as text
//! for the caller to print.

use vstd::prelude::*;
use crate::json::{
    child_as_object, child_as_str, child_object, child_str, entries_get, entries_view,
    parse_json, object_get, opt_doc_view, opt_string_view, spec_json_parse, value_get,
    JsonDoc, JsonValue, JsonValueView,
};
use crate::text::{
    chars_eq, chars_of, contains, find, find_chars, lemma_find, slice_to_vec,
    spec_lowercase, strings_view, to_lowercase, trim_chars, trim_ws, TrimSet,
};
use crate::types::message::{CreateMessagesRequest, MessageCreate, MessageCreateContent, MessageRole};
use crate::types::tool::{CreateToolRequest, SourceType};

verus! {

// Messages of the checks.

pub open spec fn not_object_message() -> Seq<char> {
    "Schema must be a JSON object"@
}

pub open spec fn missing_name_message() -> Seq<char> {
    "Schema missing required field 'name'. Example:\n{\n  \"name\": \"my_tool\",\n  \"description\": \"Tool description\",\n  \"parameters\": { ... }\n}"@
}

pub open spec fn name_not_string_message() -> Seq<char> {
    "Field 'name' must be a string"@
}

pub open spec fn missing_parameters_message() -> Seq<char> {
    "Schema missing required field 'parameters'. Example:\n{\n  \"name\": \"my_tool\",\n  \"description\": \"...\",\n  \"parameters\": {\n    \"type\": \"object\",\n    \"properties\": { ... },\n    \"required\": [ ... ]\n  }\n}"@
}

pub open spec fn parameters_not_object_message() -> Seq<char> {
    "Field 'parameters' must be a JSON object"@
}

pub open spec fn parameters_missing_type_message() -> Seq<char> {
    "Parameters missing 'type' field. Should be:\n\"parameters\": {\n  \"type\": \"object\",\n  \"properties\": { ... }\n}"@
}

pub open spec fn parameters_type_wrong_message(got: Seq<char>) -> Seq<char> {
    "Parameters 'type' should be \"object\", got: "@ + got
}

pub open spec fn parameters_missing_properties_message() -> Seq<char> {
    "Parameters missing 'properties' field. Example:\n\"parameters\": {\n  \"type\": \"object\",\n  \"properties\": {\n    \"arg1\": { \"type\": \"string\", \"description\": \"...\" },\n    \"arg2\": { \"type\": \"integer\", \"description\": \"...\" }\n  }\n}"@
}

pub open spec fn properties_not_object_message() -> Seq<char> {
    "Parameters 'properties' must be a JSON object"@
}

pub open spec fn property_not_object_message(name: Seq<char>) -> Seq<char> {
    "Property '"@ + name + "' must be an object with 'type' and 'description' fields"@
}

pub open spec fn property_missing_type_message(name: Seq<char>) -> Seq<char> {
    "Property '"@ + name + "' missing 'type' field. Example:\n\""@ + name + "\" : {\n  \"type\": \"string\",\n  \"description\": \"Description of "@ + name + "\"\n}"@
}

pub open spec fn property_missing_description_message(name: Seq<char>) -> Seq<char> {
    "Property '"@ + name + "' missing 'description' field. Properties should have:\n{\n  \"type\": \"...\",\n  \"description\": \"What this parameter does\"\n}"@
}

pub open spec fn missing_docstring_message(function: Seq<char>) -> Seq<char> {
    "Function '"@ + function + "' missing docstring. Letta requires a docstring with Args and Returns sections:\n\ndef "@ + function + "(...):\n    \"\"\"\n    Brief description.\n    \n    Args:\n        param1: Description\n        param2: Description\n    \n    Returns:\n        Description of return value\n    \"\"\"\n    ..."@
}

pub open spec fn malformed_docstring_message() -> Seq<char> {
    "Malformed docstring - missing closing triple quotes"@
}

pub open spec fn docstring_not_found_message() -> Seq<char> {
    "Could not find docstring"@
}

pub open spec fn missing_args_section_message(function: Seq<char>) -> Seq<char> {
    "Docstring missing 'Args:' section. Letta requires parameter documentation:\n\n    Args:\n        param_name: Description of parameter\n        another_param: Description\n\nWithout this, you'll get: \"Parameter 'X' in function '"@ + function + "' lacks a description in the docstring\""@
}

fn not_object_text() -> (r: String)
    ensures
        r@ == not_object_message(),
{
    String::from_str("Schema must be a JSON object")
}

fn missing_name_text() -> (r: String)
    ensures
        r@ == missing_name_message(),
{
    String::from_str("Schema missing required field 'name'. Example:\n{\n  \"name\": \"my_tool\",\n  \"description\": \"Tool description\",\n  \"parameters\": { ... }\n}")
}

fn name_not_string_text() -> (r: String)
    ensures
        r@ == name_not_string_message(),
{
    String::from_str("Field 'name' must be a string")
}

fn missing_parameters_text() -> (r: String)
    ensures
        r@ == missing_parameters_message(),
{
    String::from_str("Schema missing required field 'parameters'. Example:\n{\n  \"name\": \"my_tool\",\n  \"description\": \"...\",\n  \"parameters\": {\n    \"type\": \"object\",\n    \"properties\": { ... },\n    \"required\": [ ... ]\n  }\n}")
}

fn parameters_not_object_text() -> (r: String)
    ensures
        r@ == parameters_not_object_message(),
{
    String::from_str("Field 'parameters' must be a JSON object")
}

fn parameters_missing_type_text() -> (r: String)
    ensures
        r@ == parameters_missing_type_message(),
{
    String::from_str("Parameters missing 'type' field. Should be:\n\"parameters\": {\n  \"type\": \"object\",\n  \"properties\": { ... }\n}")
}

fn parameters_type_wrong_text(got: &str) -> (r: String)
    ensures
        r@ == parameters_type_wrong_message(got@),
{
    let mut r = String::from_str("Parameters 'type' should be \"object\", got: ");
    r.append(got);
    r
}

fn parameters_missing_properties_text() -> (r: String)
    ensures
        r@ == parameters_missing_properties_message(),
{
    String::from_str("Parameters missing 'properties' field. Example:\n\"parameters\": {\n  \"type\": \"object\",\n  \"properties\": {\n    \"arg1\": { \"type\": \"string\", \"description\": \"...\" },\n    \"arg2\": { \"type\": \"integer\", \"description\": \"...\" }\n  }\n}")
}

fn properties_not_object_text() -> (r: String)
    ensures
        r@ == properties_not_object_message(),
{
    String::from_str("Parameters 'properties' must be a JSON object")
}

fn property_not_object_text(name: &str) -> (r: String)
    ensures
        r@ == property_not_object_message(name@),
{
    let mut r = String::from_str("Property '");
    r.append(name);
    r.append("' must be an object with 'type' and 'description' fields");
    r
}

fn property_missing_type_text(name: &str) -> (r: String)
    ensures
        r@ == property_missing_type_message(name@),
{
    let mut r = String::from_str("Property '");
    r.append(name);
    r.append("' missing 'type' field. Example:\n\"");
    r.append(name);
    r.append("\" : {\n  \"type\": \"string\",\n  \"description\": \"Description of ");
    r.append(name);
    r.append("\"\n}");
    r
}

fn property_missing_description_text(name: &str) -> (r: String)
    ensures
        r@ == property_missing_description_message(name@),
{
    let mut r = String::from_str("Property '");
    r.append(name);
    r.append("' missing 'description' field. Properties should have:\n{\n  \"type\": \"...\",\n  \"description\": \"What this parameter does\"\n}");
    r
}

fn missing_docstring_text(function: &str) -> (r: String)
    ensures
        r@ == missing_docstring_message(function@),
{
    let mut r = String::from_str("Function '");
    r.append(function);
    r.append("' missing docstring. Letta requires a docstring with Args and Returns sections:\n\ndef ");
    r.append(function);
    r.append("(...):\n    \"\"\"\n    Brief description.\n    \n    Args:\n        param1: Description\n        param2: Description\n    \n    Returns:\n        Description of return value\n    \"\"\"\n    ...");
    r
}

fn malformed_docstring_text() -> (r: String)
    ensures
        r@ == malformed_docstring_message(),
{
    String::from_str("Malformed docstring - missing closing triple quotes")
}

fn docstring_not_found_text() -> (r: String)
    ensures
        r@ == docstring_not_found_message(),
{
    String::from_str("Could not find docstring")
}

fn missing_args_section_text(function: &str) -> (r: String)
    ensures
        r@ == missing_args_section_message(function@),
{
    let mut r = String::from_str("Docstring missing 'Args:' section. Letta requires parameter documentation:\n\n    Args:\n        param_name: Description of parameter\n        another_param: Description\n\nWithout this, you'll get: \"Parameter 'X' in function '");
    r.append(function);
    r.append("' lacks a description in the docstring\"");
    r
}

/// Printed when a schema has no `description`.
pub open spec fn missing_description_warning() -> Seq<char> {
    "Warning: Schema missing 'description' field. It's recommended to include a tool description."@
}

/// Printed when a docstring has no `Returns:` section.
pub open spec fn missing_returns_warning() -> Seq<char> {
    "Warning: Docstring missing 'Returns:' section. It's recommended to document return values."@
}

/// What is wrong with one entry of a schema's `properties`, if anything.
pub open spec fn property_problem(name: Seq<char>, value: Seq<char>) -> Option<Seq<char>> {
    match child_object(value) {
        None => Some(property_not_object_message(name)),
        Some(e) => if entries_get(e, "type"@) is None {
            Some(property_missing_type_message(name))
        } else if entries_get(e, "description"@) is None {
            Some(property_missing_description_message(name))
        } else {
            None
        },
    }
}

/// The problem of the first faulty property, in the order the object lists them.
pub open spec fn properties_problem(props: Seq<(Seq<char>, Seq<char>)>) -> Option<Seq<char>>
    decreases props.len(),
{
    if props.len() == 0 {
        None
    } else {
        match property_problem(props[0].0, props[0].1) {
            Some(m) => Some(m),
            None => properties_problem(props.drop_first()),
        }
    }
}

/// Validation of a tool schema: the first problem found, or success with the
/// warning to print when the schema has no description.
pub open spec fn tool_schema_check(schema: JsonValueView) -> Result<Option<Seq<char>>, Seq<char>> {
    match schema {
        JsonValueView::Object(obj) => match entries_get(obj, "name"@) {
            None => Err(missing_name_message()),
            Some(name) => if child_str(name) is None {
                Err(name_not_string_message())
            } else {
                match entries_get(obj, "parameters"@) {
                    None => Err(missing_parameters_message()),
                    Some(p) => match child_object(p) {
                        None => Err(parameters_not_object_message()),
                        Some(po) => match entries_get(po, "type"@) {
                            None => Err(parameters_missing_type_message()),
                            Some(t) => if child_str(t) != Some("object"@) {
                                Err(parameters_type_wrong_message(t))
                            } else {
                                match entries_get(po, "properties"@) {
                                    None => Err(parameters_missing_properties_message()),
                                    Some(pr) => match child_object(pr) {
                                        None => Err(properties_not_object_message()),
                                        Some(props) => match properties_problem(props) {
                                            Some(m) => Err(m),
                                            None => if entries_get(obj, "description"@) is None {
                                                Ok(Some(missing_description_warning()))
                                            } else {
                                                Ok(None)
                                            },
                                        },
                                    },
                                }
                            },
                        },
                    },
                }
            },
        },
        _ => Err(not_object_message()),
    }
}

/// The text between the first pair of triple quotes (double quotes first, then
/// single quotes), or the message when there is none or it is not closed.
pub open spec fn docstring_body(src: Seq<char>) -> Result<Seq<char>, Seq<char>> {
    match find(src, "\"\"\""@) {
        Some(start) => match find(src.skip(start + 3), "\"\"\""@) {
            Some(end) => Ok(src.subrange(start + 3, start + 3 + end)),
            None => Err(malformed_docstring_message()),
        },
        None => match find(src, "'''"@) {
            Some(start) => match find(src.skip(start + 3), "'''"@) {
                Some(end) => Ok(src.subrange(start + 3, start + 3 + end)),
                None => Err(malformed_docstring_message()),
            },
            None => Err(docstring_not_found_message()),
        },
    }
}

/// Validation of a tool's Python source: the first problem found, or success
/// with the warning to print when the docstring documents no return value.
pub open spec fn docstring_check(src: Seq<char>, function: Seq<char>) -> Result<Option<Seq<char>>, Seq<char>> {
    if !contains(src, "\"\"\""@) && !contains(src, "'''"@) {
        Err(missing_docstring_message(function))
    } else {
        match docstring_body(src) {
            Err(m) => Err(m),
            Ok(body) => if !(contains(body, "Args:"@) || contains(body, "Arguments:"@) || contains(
                body,
                "Parameters:"@,
            )) {
                Err(missing_args_section_message(function))
            } else if contains(body, "Returns:"@) || contains(body, "Return:"@) {
                Ok(None)
            } else {
                Ok(Some(missing_returns_warning()))
            },
        }
    }
}

/// A check's result as plain text.
pub open spec fn check_view(r: Result<Option<String>, String>) -> Result<Option<Seq<char>>, Seq<char>> {
    match r {
        Ok(w) => Ok(opt_string_view(w)),
        Err(e) => Err(e@),
    }
}

fn property_check(name: &str, value: &str) -> (r: Option<String>)
    ensures
        opt_string_view(r) == property_problem(name@, value@),
{
    match child_as_object(value) {
        None => Some(property_not_object_text(name)),
        Some(e) => {
            if object_get(&e, "type").is_none() {
                Some(property_missing_type_text(name))
            } else if object_get(&e, "description").is_none() {
                Some(property_missing_description_text(name))
            } else {
                None
            }
        },
    }
}

fn properties_check(props: &Vec<(String, String)>) -> (r: Option<String>)
    ensures
        opt_string_view(r) == properties_problem(entries_view(props@)),
{
    let ghost ev = entries_view(props@);
    let mut i: usize = 0;
    assert(ev.skip(0) == ev);
    while i < props.len()
        invariant
            i <= props@.len(),
            ev == entries_view(props@),
            properties_problem(ev) == properties_problem(ev.skip(i as int)),
        decreases props@.len() - i,
    {
        assert(ev.skip(i as int).drop_first() == ev.skip(i + 1));
        assert(ev.skip(i as int)[0] == ev[i as int]);
        let p = property_check(props[i].0.as_str(), props[i].1.as_str());
        if p.is_some() {
            return p;
        }
        i = i + 1;
    }
    None
}

/// Checks that a JSON schema has the shape Letta expects of a tool: a string
/// `name`, and `parameters` of type `"object"` whose `properties` each have a
/// `type` and a `description`. On success, the warning to print if the schema
/// has no `description`.
pub fn validate_tool_schema(schema: &JsonDoc) -> (r: Result<Option<String>, String>)
    ensures
        check_view(r) == tool_schema_check(schema@.value),
{
    let obj = match &schema.value {
        JsonValue::Object(o) => o,
        _ => return Err(not_object_text()),
    };
    assert(schema@.value == JsonValueView::Object(entries_view(obj@)));
    let name = match object_get(obj, "name") {
        None => return Err(missing_name_text()),
        Some(n) => n,
    };
    if child_as_str(name.as_str()).is_none() {
        return Err(name_not_string_text());
    }
    let params = match object_get(obj, "parameters") {
        None => return Err(missing_parameters_text()),
        Some(p) => p,
    };
    let po = match child_as_object(params.as_str()) {
        None => return Err(parameters_not_object_text()),
        Some(p) => p,
    };
    let t = match object_get(&po, "type") {
        None => return Err(parameters_missing_type_text()),
        Some(t) => t,
    };
    let is_object_type = match child_as_str(t.as_str()) {
        Some(s) => chars_eq(&chars_of(s.as_str()), &chars_of("object")),
        None => false,
    };
    if !is_object_type {
        return Err(parameters_type_wrong_text(t.as_str()));
    }
    let pr = match object_get(&po, "properties") {
        None => return Err(parameters_missing_properties_text()),
        Some(p) => p,
    };
    let props = match child_as_object(pr.as_str()) {
        None => return Err(properties_not_object_text()),
        Some(p) => p,
    };
    match properties_check(&props) {
        Some(m) => return Err(m),
        None => {},
    }
    if object_get(obj, "description").is_none() {
        Ok(Some(String::from_str(
            "Warning: Schema missing 'description' field. It's recommended to include a tool description.",
        )))
    } else {
        Ok(None)
    }
}

/// The text after `start + 3` up to the next `quote`.
fn body_between(src: &Vec<char>, start: usize, quote: &Vec<char>) -> (r: Result<Vec<char>, String>)
    requires
        quote@.len() == 3,
        start + 3 <= src@.len(),
    ensures
        match find(src@.skip(start + 3), quote@) {
            Some(end) => r matches Ok(b) && b@ == src@.subrange(start + 3, start + 3 + end),
            None => r matches Err(e) && e@ == malformed_docstring_message(),
        },
{
    let n = src.len();
    let from = start + 3;
    let rest = slice_to_vec(src.as_slice(), from, n);
    assert(rest@ == src@.skip(start + 3));
    match find_chars(rest.as_slice(), quote.as_slice()) {
        Some(end) => {
            proof {
                lemma_find(rest@, quote@);
            }
            let b = slice_to_vec(src.as_slice(), from, from + end);
            Ok(b)
        },
        None => Err(malformed_docstring_text()),
    }
}

fn contains_str(h: &Vec<char>, n: &str) -> (r: bool)
    ensures
        r == contains(h@, n@),
{
    find_chars(h.as_slice(), chars_of(n).as_slice()).is_some()
}

/// Checks that a tool's Python source carries a docstring with an `Args:` (or
/// `Arguments:`, `Parameters:`) section. On success, the warning to print if
/// the docstring has no `Returns:` (or `Return:`) section.
pub fn validate_python_docstring(source_code: &str, function_name: &str) -> (r: Result<Option<String>, String>)
    ensures
        check_view(r) == docstring_check(source_code@, function_name@),
{
    let src = chars_of(source_code);
    let dq = chars_of("\"\"\"");
    let sq = chars_of("'''");
    proof {
        reveal_strlit("\"\"\"");
        reveal_strlit("'''");
    }
    let fd = find_chars(src.as_slice(), dq.as_slice());
    let fs = find_chars(src.as_slice(), sq.as_slice());
    if fd.is_none() && fs.is_none() {
        return Err(missing_docstring_text(function_name));
    }
    proof {
        lemma_find(src@, dq@);
        lemma_find(src@, sq@);
    }
    let body = match fd {
        Some(start) => match body_between(&src, start, &dq) {
            Ok(b) => b,
            Err(e) => return Err(e),
        },
        None => match fs {
            Some(start) => match body_between(&src, start, &sq) {
                Ok(b) => b,
                Err(e) => return Err(e),
            },
            None => return Err(docstring_not_found_text()),
        },
    };
    let has_args = contains_str(&body, "Args:") || contains_str(&body, "Arguments:")
        || contains_str(&body, "Parameters:");
    if !has_args {
        return Err(missing_args_section_text(function_name));
    }
    if contains_str(&body, "Returns:") || contains_str(&body, "Return:") {
        Ok(None)
    } else {
        Ok(Some(String::from_str(
            "Warning: Docstring missing 'Returns:' section. It's recommended to document return values.",
        )))
    }
}

/// The function name a schema declares, `"unknown"` when it has none.
pub open spec fn schema_function_name(schema: JsonValueView) -> Seq<char> {
    match value_get(schema, "name"@) {
        Some(c) => match child_str(c) {
            Some(n) => n,
            None => "unknown"@,
        },
        None => "unknown"@,
    }
}

/// Why a tool cannot be created from a source and a schema, if it cannot.
pub open spec fn tool_draft_problem(source: Seq<char>, schema: JsonValueView) -> Option<Seq<char>> {
    match tool_schema_check(schema) {
        Err(m) => Some(m),
        Ok(_) => match docstring_check(source, schema_function_name(schema)) {
            Err(m) => Some(m),
            Ok(_) => None,
        },
    }
}

/// The warnings of the two checks, in the order they are made.
pub open spec fn tool_draft_warnings(source: Seq<char>, schema: JsonValueView) -> Seq<Seq<char>> {
    let a = match tool_schema_check(schema) {
        Ok(Some(w)) => seq![w],
        _ => Seq::empty(),
    };
    let b = match docstring_check(source, schema_function_name(schema)) {
        Ok(Some(w)) => seq![w],
        _ => Seq::empty(),
    };
    a + b
}

/// The arguments schema of a tool: the one given, else the schema's `parameters`.
pub open spec fn tool_args_schema(given: Option<JsonDoc>, schema: JsonValueView) -> Option<crate::json::JsonDocView> {
    match given {
        Some(a) => Some(a@),
        None => match value_get(schema, "parameters"@) {
            Some(t) => spec_json_parse(t),
            None => None,
        },
    }
}

/// A checked tool, ready to be sent.
#[derive(Debug)]
pub struct ToolDraft {
    /// The creation request.
    pub request: CreateToolRequest,
    /// The tool's name, from its schema.
    pub name: String,
    /// Warnings to print, in order.
    pub warnings: Vec<String>,
}

/// Checks a tool's schema and Python source and builds the request that creates
/// it: the description given, else the schema's; the arguments schema given,
/// else the schema's `parameters`; tags only when there are some.
pub fn draft_tool(
    source_code: String,
    schema: JsonDoc,
    args_schema: Option<JsonDoc>,
    description: Option<String>,
    tags: Vec<String>,
    return_limit: Option<u32>,
) -> (r: Result<ToolDraft, String>)
    ensures
        match tool_draft_problem(source_code@, schema@.value) {
            Some(m) => r matches Err(e) && e@ == m,
            None => r matches Ok(d) && {
                &&& d.name@ == schema_function_name(schema@.value)
                &&& d.request.source_code@ == source_code@
                &&& d.request.source_type == Some(SourceType::Python)
                &&& opt_doc_view(d.request.json_schema) == Some(schema@)
                &&& opt_doc_view(d.request.args_json_schema) == tool_args_schema(args_schema, schema@.value)
                &&& opt_string_view(d.request.description) == match description {
                    Some(x) => Some(x@),
                    None => match value_get(schema@.value, "description"@) {
                        Some(c) => child_str(c),
                        None => None,
                    },
                }
                &&& if tags@.len() == 0 {
                    d.request.tags is None
                } else {
                    d.request.tags matches Some(t) && t@ == tags@
                }
                &&& d.request.return_char_limit == return_limit
                &&& d.request.pip_requirements is None
                &&& strings_view(d.warnings@) == tool_draft_warnings(source_code@, schema@.value)
            },
        },
{
    let mut warnings: Vec<String> = Vec::new();
    match validate_tool_schema(&schema) {
        Err(e) => return Err(e),
        Ok(Some(w)) => warnings.push(w),
        Ok(None) => {},
    }
    let name = match schema.value.get("name") {
        Some(c) => match child_as_str(c.as_str()) {
            Some(n) => n,
            None => String::from_str("unknown"),
        },
        None => String::from_str("unknown"),
    };
    match validate_python_docstring(source_code.as_str(), name.as_str()) {
        Err(e) => return Err(e),
        Ok(Some(w)) => warnings.push(w),
        Ok(None) => {},
    }
    let description = match description {
        Some(d) => Some(d),
        None => match schema.value.get("description") {
            Some(c) => child_as_str(c.as_str()),
            None => None,
        },
    };
    let args_json_schema = match args_schema {
        Some(a) => Some(a),
        None => match schema.value.get("parameters") {
            Some(t) => parse_json(t.as_str()),
            None => None,
        },
    };
    let tags = if tags.len() == 0 {
        None
    } else {
        Some(tags)
    };
    assert(strings_view(warnings@) =~= tool_draft_warnings(source_code@, schema@.value));
    let request = CreateToolRequest {
        description,
        tags,
        source_code,
        source_type: Some(SourceType::Python),
        json_schema: Some(schema),
        args_json_schema,
        return_char_limit: return_limit,
        pip_requirements: None,
    };
    Ok(ToolDraft { request, name, warnings })
}

/// The role a name denotes, ignoring case, among `user`, `system` and `assistant`.
pub open spec fn role_from_name(role: Seq<char>) -> Option<MessageRole> {
    let l = spec_lowercase(role);
    if l == "user"@ {
        Some(MessageRole::User)
    } else if l == "system"@ {
        Some(MessageRole::System)
    } else if l == "assistant"@ {
        Some(MessageRole::Assistant)
    } else {
        None
    }
}

/// Reads a message role given on the command line. An unknown role falls back
/// to `User`, with the warning to print.
pub fn message_role_for(role: &str) -> (r: (MessageRole, Option<String>))
    ensures
        match role_from_name(role@) {
            Some(x) => r.0 == x && r.1 is None,
            None => r.0 == MessageRole::User && opt_string_view(r.1) == Some(
                "Invalid role: "@ + role@ + ". Using 'user'."@,
            ),
        },
{
    let l = chars_of(to_lowercase(role).as_str());
    if chars_eq(&l, &chars_of("user")) {
        (MessageRole::User, None)
    } else if chars_eq(&l, &chars_of("system")) {
        (MessageRole::System, None)
    } else if chars_eq(&l, &chars_of("assistant")) {
        (MessageRole::Assistant, None)
    } else {
        let mut w = String::from_str("Invalid role: ");
        w.append(role);
        w.append(". Using 'user'.");
        (MessageRole::User, Some(w))
    }
}

/// The request that sends `text` to an agent with the role given on the command line
/// (`User` for an unknown role, with the warning to print) and the step limit, if any.
pub fn message_request(text: &str, role: &str, max_steps: Option<i32>) -> (r: (CreateMessagesRequest, Option<String>))
    ensures
        r.0.messages@.len() == 1,
        r.0.messages@[0].role == match role_from_name(role@) {
            Some(x) => x,
            None => MessageRole::User,
        },
        r.0.messages@[0].content matches MessageCreateContent::String(s) && s@ == text@,
        r.0.messages@[0].name is None,
        r.0.messages@[0].otid is None,
        r.0.messages@[0].sender_id is None,
        r.0.messages@[0].batch_item_id is None,
        r.0.messages@[0].group_id is None,
        r.0.max_steps == max_steps,
        r.0.use_assistant_message is None,
        r.0.assistant_message_tool_name is None,
        r.0.assistant_message_tool_kwarg is None,
        r.0.include_return_message_types is None,
        opt_string_view(r.1) == match role_from_name(role@) {
            Some(_) => None,
            None => Some("Invalid role: "@ + role@ + ". Using 'user'."@),
        },
{
    let (role, warning) = message_role_for(role);
    let mut message = MessageCreate::user(text);
    message.role = role;
    let mut messages: Vec<MessageCreate> = Vec::new();
    messages.push(message);
    let request = CreateMessagesRequest {
        messages,
        max_steps,
        use_assistant_message: None,
        assistant_message_tool_name: None,
        assistant_message_tool_kwarg: None,
        include_return_message_types: None,
    };
    (request, warning)
}

/// Whether an answer to a deletion prompt confirms it: `y` or `Y`, surrounding
/// whitespace ignored.
pub open spec fn confirms(answer: Seq<char>) -> bool {
    trim_ws(answer) == "y"@ || trim_ws(answer) == "Y"@
}

/// Reads the answer to a deletion prompt.
pub fn answer_confirms(answer: &str) -> (r: bool)
    ensures
        r == confirms(answer@),
{
    proof {
        reveal_strlit("y");
        reveal_strlit("Y");
    }
    let t = trim_chars(chars_of(answer).as_slice(), TrimSet::Whitespace);
    let yes = t.len() == 1 && (t[0] == 'y' || t[0] == 'Y');
    proof {
        if yes {
            if t[0] == 'y' {
                assert(t@ =~= "y"@);
            } else {
                assert(t@ =~= "Y"@);
            }
        }
    }
    yes
}

/// The content type an upload declares for a file extension; none for others.
pub open spec fn spec_content_type_for_extension(ext: Seq<char>) -> Option<Seq<char>> {
    if ext == "pdf"@ {
        Some("application/pdf"@)
    } else if ext == "txt"@ {
        Some("text/plain"@)
    } else if ext == "md"@ {
        Some("text/markdown"@)
    } else if ext == "json"@ {
        Some("application/json"@)
    } else if ext == "csv"@ {
        Some("text/csv"@)
    } else if ext == "doc"@ || ext == "docx"@ {
        Some("application/msword"@)
    } else {
        None
    }
}

/// The content type an upload declares for a file extension (matched exactly, case
/// included); none for other extensions.
pub fn content_type_for_extension(ext: &str) -> (r: Option<&'static str>)
    ensures
        crate::error::opt_str_view(r) == spec_content_type_for_extension(ext@),
{
    let e = chars_of(ext);
    if chars_eq(&e, &chars_of("pdf")) {
        Some("application/pdf")
    } else if chars_eq(&e, &chars_of("txt")) {
        Some("text/plain")
    } else if chars_eq(&e, &chars_of("md")) {
        Some("text/markdown")
    } else if chars_eq(&e, &chars_of("json")) {
        Some("application/json")
    } else if chars_eq(&e, &chars_of("csv")) {
        Some("text/csv")
    } else if chars_eq(&e, &chars_of("doc")) || chars_eq(&e, &chars_of("docx")) {
        Some("application/msword")
    } else {
        None
    }
}

proof fn lemma_properties_all_fine(props: Seq<(Seq<char>, Seq<char>)>, i: int)
    requires
        properties_problem(props) is None,
        0 <= i < props.len(),
    ensures
        property_problem(props[i].0, props[i].1) is None,
    decreases props.len(),
{
    if i > 0 {
        lemma_properties_all_fine(props.drop_first(), i - 1);
    }
}

/// Law: a tool schema is accepted only if every entry of its parameters' `properties`
/// is an object with a `type` and a `description`; so a schema with a property that
/// lacks its `type` is refused.
pub proof fn law_accepted_schema_properties_typed(
    obj: Seq<(Seq<char>, Seq<char>)>,
    p: Seq<char>,
    po: Seq<(Seq<char>, Seq<char>)>,
    pr: Seq<char>,
    props: Seq<(Seq<char>, Seq<char>)>,
    i: int,
)
    requires
        tool_schema_check(JsonValueView::Object(obj)) is Ok,
        entries_get(obj, "parameters"@) == Some(p),
        child_object(p) == Some(po),
        entries_get(po, "properties"@) == Some(pr),
        child_object(pr) == Some(props),
        0 <= i < props.len(),
    ensures
        child_object(props[i].1) matches Some(e) && entries_get(e, "type"@) is Some
            && entries_get(e, "description"@) is Some,
{
    lemma_properties_all_fine(props, i);
}

/// Law: a tool schema is accepted only if it is an object with a string `name` and a
/// `parameters` object whose `type` is the string `object` and whose `properties` is
/// an object; an accepted schema without a `description` comes with the warning, and
/// one with a description with none. A schema that is not an object is refused.
pub proof fn law_accepted_schema_shape(schema: JsonValueView)
    ensures
        !(schema is Object) ==> tool_schema_check(schema) is Err,
        tool_schema_check(schema) is Ok ==> (schema matches JsonValueView::Object(obj) && (entries_get(obj, "name"@) matches Some(n)
            && child_str(n) is Some) && (entries_get(obj, "parameters"@) matches Some(p) && child_object(p) matches Some(po)
            && (entries_get(po, "type"@) matches Some(t) && child_str(t) == Some("object"@))
            && (entries_get(po, "properties"@) matches Some(pr) && child_object(pr) is Some))
            && (tool_schema_check(schema) == if entries_get(obj, "description"@) is None {
                Ok::<Option<Seq<char>>, Seq<char>>(Some(missing_description_warning()))
            } else {
                Ok::<Option<Seq<char>>, Seq<char>>(None)
            })),
{
}

} // verus!
