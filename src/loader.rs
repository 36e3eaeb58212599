use json::JsonValue;
use vstd::prelude::*;

verus! {

#[verifier::external_type_specification]
#[verifier::external_body]
pub struct ExJsonValue(json::JsonValue);

#[verifier::external_type_specification]
#[verifier::external_body]
pub struct ExJsonError(json::Error);

/// What `json::parse` returns for a text: the document, or the error at
/// which parsing stopped. It depends on the text alone.
pub uninterp spec fn json_parse_result(text: Seq<char>) -> Result<JsonValue, json::Error>;

/// Relies on `json::parse`. It is only handed the rule document: on a number
/// with more than 32767 fraction digits the parser's exponent overflows.
#[verifier::external_body]
fn parse_json(text: &str) -> (r: Result<JsonValue, json::Error>)
    requires
        text@ == rule_document(),
    ensures
        r == json_parse_result(text@),
{
    json::parse(text)
}

/// The rule description in JSON form: token-type names with their patterns.
pub open spec fn rule_document() -> Seq<char> {
    "{\"tokens\": [{\"tokenType\": \"whitespace\", \"regex\": \"\\\\s\"}, {\"tokenType\": \"number\", \"regex\": \"\\\\d\"}]}"@
}

/// Parses the JSON rule description; a document that does not parse is
/// reported as the parser's error rather than ignored.
pub fn load_tokens() -> (r: Result<JsonValue, json::Error>)
    ensures
        r == json_parse_result(rule_document()),
{
    parse_json(
        "{\"tokens\": [{\"tokenType\": \"whitespace\", \"regex\": \"\\\\s\"}, {\"tokenType\": \"number\", \"regex\": \"\\\\d\"}]}",
    )
}

} // verus!
