use vstd::prelude::*;

verus! {

/// Languages a source-code cell may be written in. `GeneralInterpreted`
/// runs on the embedded general-purpose interpreter, `ScriptEngine` on the
/// embedded script engine that demands an isolated execution context, and
/// `Sandboxed` is the scripting variant with no static-analysis collaborator,
/// compiled to a deliberate pass-through.
#[derive(Clone, Copy, Debug, PartialEq, Eq, Structural)]
pub enum SupportedLanguage {
    GeneralInterpreted,
    Sandboxed,
    ScriptEngine,
}

/// Model providers an LLM-backed cell may target.
#[derive(Clone, Copy, Debug, PartialEq, Eq, Structural)]
pub enum SupportedModelProviders {
    OpenAI,
}

/// A source-code cell definition: a block of source the node evaluates.
#[derive(Debug, PartialEq)]
pub struct CodeCell {
    pub name: Option<String>,
    pub language: SupportedLanguage,
    pub source_code: String,
    pub function_invocation: bool,
}

/// An LLM prompt cell definition. Only the `Chat` variant is implemented;
/// `Completion` and `Embedding` compile to documented pass-throughs.
#[derive(Debug, PartialEq)]
pub enum LLMPromptCell {
    Chat { provider: SupportedModelProviders, req: String },
    Completion { req: String },
    Embedding { req: String },
}

/// An LLM code-generation cell definition: front-matter configuration and a
/// template body in one block.
#[derive(Debug, PartialEq)]
pub struct LLMCodeGenCell {
    pub name: Option<String>,
    pub provider: SupportedModelProviders,
    pub function_invocation: bool,
    pub complete_body: String,
}

/// Role a chat message block is tagged with in a template.
#[derive(Clone, Copy, Debug, PartialEq, Eq, Structural)]
pub enum ChatModelRole {
    System,
    User,
    Assistant,
}

/// One role-tagged block the template collaborator extracted, with the
/// block's template source where the block carries one.
#[derive(Debug, PartialEq)]
pub struct RoleBlock {
    pub role: ChatModelRole,
    pub source: Option<String>,
}

/// Placeholder names the template collaborator found referenced in a body.
#[derive(Debug, PartialEq)]
pub struct TemplateSchema {
    pub items: Vec<String>,
}

/// Everything the template collaborator reports about one template body:
/// its referenced placeholders and its ordered role blocks.
#[derive(Debug, PartialEq)]
pub struct TemplateAnalysis {
    pub schema: TemplateSchema,
    pub role_blocks: Vec<RoleBlock>,
}

/// A cell body split at the front-matter delimiter by the template
/// collaborator.
#[derive(Debug, PartialEq)]
pub struct FrontmatterSplit {
    pub frontmatter: String,
    pub body: String,
}

/// Parsed front-matter configuration of a code-generation cell: at minimum,
/// the name of the callable the cell generates, when one is configured.
#[derive(Debug, PartialEq)]
pub struct CodeGenConfiguration {
    pub function_name: Option<String>,
}

/// Why compiling a cell was refused. Every variant is surfaced at compile
/// time and never retried.
#[derive(Debug, PartialEq)]
pub enum CompileError {
    /// The static-analysis collaborator could not parse the cell's source.
    StaticAnalysis { message: String },
    /// The front-matter delimiter was missing or malformed.
    MalformedTemplate { message: String },
    /// The front-matter was not a well-formed configuration document.
    MalformedConfiguration { message: String },
    /// The cell declares itself a function invocation but configures no
    /// callable name: an unsatisfiable definition, refused outright.
    FunctionInvocationWithoutName,
}

/// The `Some` content of an optional string, as a character sequence.
pub open spec fn opt_string_view(o: Option<String>) -> Option<Seq<char>> {
    match o {
        Some(s) => Some(s@),
        None => None,
    }
}

/// Clones an optional string; the copy is indistinguishable from the
/// original.
pub fn clone_opt_string(o: &Option<String>) -> (r: Option<String>)
    ensures
        r == *o,
{
    match o {
        Some(s) => Some(s.clone()),
        None => None,
    }
}

} // verus!
