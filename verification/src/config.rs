use vstd::prelude::*;

use crate::cells::opt_string_view;
use crate::cells::CodeGenConfiguration;

verus! {

/// What reading one string-valued entry out of a YAML document yields, as a
/// function of the document text and the key alone: `None` when the text is
/// not a well-formed YAML document, `Some(None)` when the key is absent or
/// its value is not a string, and `Some(Some(v))` when the key holds the
/// string `v`.
pub uninterp spec fn yaml_string_entry(doc: Seq<char>, key: Seq<char>) -> Option<Option<Seq<char>>>;

/// Relies on `serde_yaml::from_str` to parse the document and on
/// `serde_yaml::Value::get` / `serde_yaml::Value::as_str` to read the entry
/// under `key`: the outcome is a function of the two texts alone.
#[verifier::external_body]
fn read_yaml_string_entry(doc: &str, key: &str) -> (r: Result<Option<String>, String>)
    ensures
        match r {
            Ok(entry) => yaml_string_entry(doc@, key@) == Some(opt_string_view(entry)),
            Err(_) => yaml_string_entry(doc@, key@) is None,
        },
{
    match serde_yaml::from_str::<serde_yaml::Value>(doc) {
        Ok(document) => match document.get(key) {
            Some(entry) => match entry.as_str() {
                Some(text) => Ok(Some(text.to_string())),
                None => Ok(None),
            },
            None => Ok(None),
        },
        Err(error) => Err(error.to_string()),
    }
}

/// The key a code-generation cell's front-matter configures its callable
/// name under.
pub open spec fn function_name_key() -> Seq<char> {
    "fn"@
}

/// Parses a code-generation cell's front-matter into its configuration.
/// The callable name is read from the `fn` entry; a front-matter that is
/// not a well-formed YAML document is refused with the parser's message.
pub fn parse_codegen_configuration(frontmatter: &String) -> (r: Result<
    CodeGenConfiguration,
    String,
>)
    ensures
        match r {
            Ok(c) => yaml_string_entry(frontmatter@, function_name_key()) == Some(
                opt_string_view(c.function_name),
            ),
            Err(_) => yaml_string_entry(frontmatter@, function_name_key()) is None,
        },
{
    match read_yaml_string_entry(frontmatter.as_str(), "fn") {
        Ok(entry) => Ok(CodeGenConfiguration { function_name: entry }),
        Err(message) => Err(message),
    }
}

} // verus!
