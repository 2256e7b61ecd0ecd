use vstd::prelude::*;

use vstd::string::StringExecFns;

use crate::cells::clone_opt_string;
use crate::cells::opt_string_view;
use crate::cells::ChatModelRole;
use crate::cells::CodeCell;
use crate::cells::CodeGenConfiguration;
use crate::cells::CompileError;
use crate::cells::FrontmatterSplit;
use crate::cells::LLMCodeGenCell;
use crate::cells::LLMPromptCell;
use crate::cells::RoleBlock;
use crate::cells::SupportedLanguage;
use crate::cells::TemplateAnalysis;
use crate::cells::TemplateSchema;
use crate::config::function_name_key;
use crate::config::parse_codegen_configuration;
use crate::config::yaml_string_entry;
use crate::node::Dispatch;
use crate::node::OperationNode;
use crate::signature::derived_input_signature;
use crate::signature::derived_output_signature;
use crate::signature::empty_input_signature_view;
use crate::signature::empty_output_signature_view;
use crate::signature::signatures_from_report;
use crate::signature::text_entries_from_names;
use crate::signature::text_input_configuration;
use crate::signature::InputSignature;
use crate::signature::InputSignatureView;
use crate::signature::OutputItemConfiguration;
use crate::signature::OutputItemConfigurationView;
use crate::signature::OutputSignature;
use crate::signature::OutputSignatureView;
use crate::signature::Report;

verus! {

/// Whether a language has a static-analysis collaborator whose report the
/// compiler consumes.
pub open spec fn language_uses_analysis(l: SupportedLanguage) -> bool {
    l is GeneralInterpreted || l is ScriptEngine
}

/// The dispatch strategy a source-code cell's node is owed for its
/// language.
pub open spec fn code_dispatch_matches(d: Dispatch, cell: CodeCell) -> bool {
    match cell.language {
        SupportedLanguage::GeneralInterpreted => d == (Dispatch::Interpreter {
            source_code: cell.source_code,
            function_invocation: cell.function_invocation,
        }),
        SupportedLanguage::ScriptEngine => d == (Dispatch::IsolatedEngine {
            source_code: cell.source_code,
            function_invocation: cell.function_invocation,
        }),
        SupportedLanguage::Sandboxed => d is PassThrough,
    }
}

/// Everything compiling a source-code cell promises: a language with no
/// analysis collaborator yields a pass-through node with empty signatures; a
/// parse failure of the collaborator is propagated; otherwise the node
/// carries exactly the derived signatures and the language's dispatch.
pub open spec fn code_cell_post(
    cell: CodeCell,
    analysis: Option<Result<Report, String>>,
    r: Result<OperationNode, CompileError>,
) -> bool {
    match cell.language {
        SupportedLanguage::Sandboxed => r matches Ok(node) && {
            &&& node.name == cell.name
            &&& node.execution_state_id is None
            &&& node.input_signature@ == empty_input_signature_view()
            &&& node.output_signature@ == empty_output_signature_view()
            &&& node.dispatch is PassThrough
        },
        _ => match analysis {
            Some(Ok(report)) => r matches Ok(node) && {
                &&& node.name == cell.name
                &&& node.execution_state_id is None
                &&& node.input_signature@ == derived_input_signature(report)
                &&& node.output_signature@ == derived_output_signature(report)
                &&& code_dispatch_matches(node.dispatch, cell)
            },
            Some(Err(m)) => r == Err::<OperationNode, CompileError>(
                CompileError::StaticAnalysis { message: m },
            ),
            None => true,
        },
    }
}

/// Compiles a source-code cell into an operation node, deriving its
/// signatures from the report its language's static-analysis collaborator
/// produced on the cell's source. A language with no collaborator compiles
/// to a deliberate pass-through node, not an error.
pub fn code_cell(cell: &CodeCell, analysis: Option<Result<Report, String>>) -> (r: Result<
    OperationNode,
    CompileError,
>)
    requires
        language_uses_analysis(cell.language) ==> analysis is Some,
    ensures
        code_cell_post(*cell, analysis, r),
{
    match cell.language {
        SupportedLanguage::Sandboxed => Ok(
            OperationNode::new(
                clone_opt_string(&cell.name),
                None,
                InputSignature::new(),
                OutputSignature::new(),
                Dispatch::PassThrough,
            ),
        ),
        SupportedLanguage::GeneralInterpreted => match analysis {
            Some(Ok(report)) => {
                let (input_signature, output_signature) = signatures_from_report(&report);
                Ok(
                    OperationNode::new(
                        clone_opt_string(&cell.name),
                        None,
                        input_signature,
                        output_signature,
                        Dispatch::Interpreter {
                            source_code: cell.source_code.clone(),
                            function_invocation: cell.function_invocation,
                        },
                    ),
                )
            },
            Some(Err(message)) => Err(CompileError::StaticAnalysis { message }),
            None => {
                proof {
                    assert(false);
                }
                Err(CompileError::FunctionInvocationWithoutName)
            },
        },
        SupportedLanguage::ScriptEngine => match analysis {
            Some(Ok(report)) => {
                let (input_signature, output_signature) = signatures_from_report(&report);
                Ok(
                    OperationNode::new(
                        clone_opt_string(&cell.name),
                        None,
                        input_signature,
                        output_signature,
                        Dispatch::IsolatedEngine {
                            source_code: cell.source_code.clone(),
                            function_invocation: cell.function_invocation,
                        },
                    ),
                )
            },
            Some(Err(message)) => Err(CompileError::StaticAnalysis { message }),
            None => {
                proof {
                    assert(false);
                }
                Err(CompileError::FunctionInvocationWithoutName)
            },
        },
    }
}

/// The input signature owed a template body: one unconstrained string-typed
/// global per referenced placeholder, in schema order.
pub open spec fn schema_input_signature(schema: TemplateSchema) -> InputSignatureView {
    InputSignatureView {
        globals: schema.items@.map_values(|k: String| (k, text_input_configuration())),
        args: Seq::empty(),
    }
}

/// Everything compiling an LLM prompt cell promises. Construction is
/// infallible by design: malformed templates surface only at invocation.
pub open spec fn llm_prompt_cell_post(
    cell: LLMPromptCell,
    analysis: Option<TemplateAnalysis>,
    r: OperationNode,
) -> bool {
    &&& r.name is None
    &&& r.execution_state_id is None
    &&& match cell {
        LLMPromptCell::Chat { provider, .. } => analysis matches Some(a) && {
            &&& r.input_signature@ == schema_input_signature(a.schema)
            &&& r.output_signature@ == empty_output_signature_view()
            &&& r.dispatch == (Dispatch::PromptChat { provider, role_blocks: a.role_blocks })
        },
        _ => {
            &&& r.input_signature@ == empty_input_signature_view()
            &&& r.output_signature@ == empty_output_signature_view()
            &&& r.dispatch is PassThrough
        },
    }
}

/// Compiles an LLM prompt cell. A chat cell takes one input global per
/// placeholder its template references and dispatches through one batched
/// chat-completion call over its extracted role blocks, in their template
/// order. The `Completion` and `Embedding` variants are unimplemented
/// pass-throughs, compiled as such deliberately rather than given invented
/// behavior.
pub fn llm_prompt_cell(cell: &LLMPromptCell, analysis: Option<TemplateAnalysis>) -> (r:
    OperationNode)
    requires
        cell is Chat ==> analysis is Some,
    ensures
        llm_prompt_cell_post(*cell, analysis, r),
{
    match cell {
        LLMPromptCell::Chat { provider, .. } => match analysis {
            Some(a) => {
                let input_signature = InputSignature {
                    globals: text_entries_from_names(&a.schema.items),
                    args: Vec::new(),
                };
                proof {
                    assert(input_signature@ =~= schema_input_signature(a.schema));
                }
                OperationNode::new(
                    None,
                    None,
                    input_signature,
                    OutputSignature::new(),
                    Dispatch::PromptChat { provider: *provider, role_blocks: a.role_blocks },
                )
            },
            None => {
                proof {
                    assert(false);
                }
                OperationNode::new(
                    None,
                    None,
                    InputSignature::new(),
                    OutputSignature::new(),
                    Dispatch::PassThrough,
                )
            },
        },
        _ => OperationNode::new(
            None,
            None,
            InputSignature::new(),
            OutputSignature::new(),
            Dispatch::PassThrough,
        ),
    }
}

/// The fixed system instruction a code-generation cell's message sequence
/// always begins with.
pub open spec fn code_gen_instruction_view() -> Seq<char> {
    "You are a developer working on a code generation tool. You have been tasked with creating a function that performs the described functionality. Output only the source code for the function. Do not include examples of running the function."@
}

/// The fixed system instruction, as source text.
pub fn code_gen_instruction() -> (r: &'static str)
    ensures
        r@ == code_gen_instruction_view(),
{
    "You are a developer working on a code generation tool. You have been tasked with creating a function that performs the described functionality. Output only the source code for the function. Do not include examples of running the function."
}

/// The role blocks a code-generation node renders: the fixed system
/// instruction first, then the cell's own blocks in their original order.
pub open spec fn code_gen_blocks_prepended(blocks: Seq<RoleBlock>, own: Seq<RoleBlock>) -> bool {
    &&& blocks.len() == own.len() + 1
    &&& blocks[0].role is System
    &&& blocks[0].source matches Some(s) && s@ == code_gen_instruction_view()
    &&& blocks.skip(1) == own
}

/// The dispatch strategy a code-generation cell's node is owed.
pub open spec fn code_gen_dispatch_matches(
    d: Dispatch,
    cell: LLMCodeGenCell,
    fname: Option<Seq<char>>,
    a: TemplateAnalysis,
) -> bool {
    d matches Dispatch::CodeGen {
        provider,
        function_name,
        cell_name,
        function_invocation,
        role_blocks,
    } && {
        &&& provider == cell.provider
        &&& opt_string_view(function_name) == fname
        &&& cell_name == cell.name
        &&& function_invocation == cell.function_invocation
        &&& code_gen_blocks_prepended(role_blocks@, a.role_blocks@)
    }
}

/// The output signature a code-generation cell is owed: its configured
/// callable under `functions`, and, when the cell is named, the generated
/// result once more as a global under the cell's name.
pub open spec fn code_gen_output_matches(
    osig: OutputSignatureView,
    cell_name: Option<String>,
    fname: Option<Seq<char>>,
) -> bool {
    &&& osig.functions.len() == (if fname is Some {
        1int
    } else {
        0int
    })
    &&& (fname matches Some(n) ==> osig.functions[0].0@ == n && osig.functions[0].1 is Value)
    &&& osig.globals.len() == (if cell_name is Some {
        1int
    } else {
        0int
    })
    &&& (cell_name matches Some(cn) ==> osig.globals[0] == ((cn, OutputItemConfigurationView::Value)))
}

/// Everything compiling a code-generation cell promises, including the full
/// error taxonomy: a failed front-matter split and an unparsable
/// configuration are malformed-cell errors, and a cell that declares itself
/// a function invocation without configuring a callable name is refused,
/// deterministically, every time.
pub open spec fn code_gen_cell_post(
    execution_state_id: u64,
    cell: LLMCodeGenCell,
    split: Result<FrontmatterSplit, String>,
    analysis: Option<TemplateAnalysis>,
    r: Result<OperationNode, CompileError>,
) -> bool {
    match split {
        Err(m) => r == Err::<OperationNode, CompileError>(
            CompileError::MalformedTemplate { message: m },
        ),
        Ok(fs) => match yaml_string_entry(fs.frontmatter@, function_name_key()) {
            None => r matches Err(e) && e matches CompileError::MalformedConfiguration { .. },
            Some(fname) => if fname is None && cell.function_invocation {
                r == Err::<OperationNode, CompileError>(CompileError::FunctionInvocationWithoutName)
            } else {
                r matches Ok(node) && analysis matches Some(a) && {
                    &&& node.name == cell.name
                    &&& node.execution_state_id == Some(execution_state_id)
                    &&& node.input_signature@ == (if fname is Some {
                        empty_input_signature_view()
                    } else {
                        schema_input_signature(a.schema)
                    })
                    &&& code_gen_output_matches(node.output_signature@, cell.name, fname)
                    &&& code_gen_dispatch_matches(node.dispatch, cell, fname, a)
                }
            },
        },
    }
}

/// Law: fatal contract rejection. Compiling a code-generation cell whose
/// front-matter configures no callable name but whose definition declares a
/// function invocation fails, with this one error, deterministically: any
/// two compilations of that cell from the same collaborator outputs are
/// refused identically, whatever execution context they were compiled for.
pub proof fn lemma_fatal_contract_rejection(
    id1: u64,
    id2: u64,
    cell: LLMCodeGenCell,
    split: Result<FrontmatterSplit, String>,
    analysis: Option<TemplateAnalysis>,
    r1: Result<OperationNode, CompileError>,
    r2: Result<OperationNode, CompileError>,
)
    requires
        split matches Ok(fs) && yaml_string_entry(fs.frontmatter@, function_name_key())
            == Some(Option::<Seq<char>>::None),
        cell.function_invocation,
        code_gen_cell_post(id1, cell, split, analysis, r1),
        code_gen_cell_post(id2, cell, split, analysis, r2),
    ensures
        r1 == Err::<OperationNode, CompileError>(CompileError::FunctionInvocationWithoutName),
        r2 == r1,
{
}

/// Builds the dispatch strategy of a code-generation node: the fixed system
/// instruction block first, then the cell's own extracted blocks, in order.
fn build_code_gen_dispatch(
    cell: &LLMCodeGenCell,
    configuration: CodeGenConfiguration,
    analysis: TemplateAnalysis,
) -> (d: Dispatch)
    ensures
        code_gen_dispatch_matches(
            d,
            *cell,
            opt_string_view(configuration.function_name),
            analysis,
        ),
{
    let mut role_blocks: Vec<RoleBlock> = Vec::new();
    role_blocks.push(
        RoleBlock {
            role: ChatModelRole::System,
            source: Some(String::from_str(code_gen_instruction())),
        },
    );
    let mut own = analysis.role_blocks;
    role_blocks.append(&mut own);
    proof {
        assert(role_blocks@.skip(1) =~= analysis.role_blocks@);
    }
    Dispatch::CodeGen {
        provider: cell.provider,
        function_name: configuration.function_name,
        cell_name: clone_opt_string(&cell.name),
        function_invocation: cell.function_invocation,
        role_blocks,
    }
}

/// Compiles a code-generation cell into an operation node. The front-matter
/// is split off by the template collaborator and parsed here; a cell that
/// declares itself a function invocation without configuring a callable
/// name is an unsatisfiable definition and is refused at compile time.
pub fn code_gen_cell(
    execution_state_id: u64,
    cell: &LLMCodeGenCell,
    split: Result<FrontmatterSplit, String>,
    analysis: Option<TemplateAnalysis>,
) -> (r: Result<OperationNode, CompileError>)
    requires
        split is Ok ==> analysis is Some,
    ensures
        code_gen_cell_post(execution_state_id, *cell, split, analysis, r),
{
    let fs = match split {
        Ok(fs) => fs,
        Err(message) => {
            return Err(CompileError::MalformedTemplate { message });
        },
    };
    let configuration = match parse_codegen_configuration(&fs.frontmatter) {
        Ok(c) => c,
        Err(message) => {
            return Err(CompileError::MalformedConfiguration { message });
        },
    };
    if configuration.function_name.is_none() && cell.function_invocation {
        return Err(CompileError::FunctionInvocationWithoutName);
    }
    let a = match analysis {
        Some(a) => a,
        None => {
            proof {
                assert(false);
            }
            TemplateAnalysis {
                schema: TemplateSchema { items: Vec::new() },
                role_blocks: Vec::new(),
            }
        },
    };
    let input_signature = if configuration.function_name.is_some() {
        InputSignature::new()
    } else {
        let s = InputSignature {
            globals: text_entries_from_names(&a.schema.items),
            args: Vec::new(),
        };
        proof {
            assert(s@ =~= schema_input_signature(a.schema));
        }
        s
    };
    let mut output_signature = OutputSignature::new();
    match clone_opt_string(&configuration.function_name) {
        Some(n) => output_signature.functions.push((n, OutputItemConfiguration::Value)),
        None => {},
    }
    match clone_opt_string(&cell.name) {
        Some(n) => output_signature.globals.push((n, OutputItemConfiguration::Value)),
        None => {},
    }
    proof {
        assert(code_gen_output_matches(
            output_signature@,
            cell.name,
            opt_string_view(configuration.function_name),
        ));
    }
    let dispatch = build_code_gen_dispatch(cell, configuration, a);
    Ok(
        OperationNode::new(
            clone_opt_string(&cell.name),
            Some(execution_state_id),
            input_signature,
            output_signature,
            dispatch,
        ),
    )
}

/// Everything building a code-generation dispatch strategy alone promises.
pub open spec fn code_gen_exec_post(
    cell: LLMCodeGenCell,
    split: Result<FrontmatterSplit, String>,
    analysis: Option<TemplateAnalysis>,
    r: Result<Dispatch, CompileError>,
) -> bool {
    match split {
        Err(m) => r == Err::<Dispatch, CompileError>(CompileError::MalformedTemplate { message: m }),
        Ok(fs) => match yaml_string_entry(fs.frontmatter@, function_name_key()) {
            None => r matches Err(e) && e matches CompileError::MalformedConfiguration { .. },
            Some(fname) => r matches Ok(d) && analysis matches Some(a)
                && code_gen_dispatch_matches(d, cell, fname, a),
        },
    }
}

/// Builds, for a code-generation cell, the provider-backed invocation
/// strategy its node dispatches through, from the same collaborator outputs
/// the compiler consumes. The function-invocation gate itself applies when
/// the node is invoked, not here.
pub fn code_gen_cell_exec_openai(
    cell: &LLMCodeGenCell,
    split: Result<FrontmatterSplit, String>,
    analysis: Option<TemplateAnalysis>,
) -> (r: Result<Dispatch, CompileError>)
    requires
        split is Ok ==> analysis is Some,
    ensures
        code_gen_exec_post(*cell, split, analysis, r),
{
    let fs = match split {
        Ok(fs) => fs,
        Err(message) => {
            return Err(CompileError::MalformedTemplate { message });
        },
    };
    let configuration = match parse_codegen_configuration(&fs.frontmatter) {
        Ok(c) => c,
        Err(message) => {
            return Err(CompileError::MalformedConfiguration { message });
        },
    };
    let a = match analysis {
        Some(a) => a,
        None => {
            proof {
                assert(false);
            }
            TemplateAnalysis {
                schema: TemplateSchema { items: Vec::new() },
                role_blocks: Vec::new(),
            }
        },
    };
    Ok(build_code_gen_dispatch(cell, configuration, a))
}

} // verus!
