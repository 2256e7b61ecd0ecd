use vstd::prelude::*;

use vstd::string::StringExecFns;

use crate::cells::ChatModelRole;
use crate::cells::LLMCodeGenCell;
use crate::cells::RoleBlock;
use crate::cells::TemplateAnalysis;
use crate::compile::code_gen_dispatch_matches;
use crate::compile::code_gen_instruction_view;
use crate::llm::ChatCompletionReq;
use crate::llm::ChatCompletionRes;
use crate::llm::MessageRole;
use crate::llm::SupportedChatModel;
use crate::llm::TemplateMessage;
use crate::node::Dispatch;
use crate::node::InvocationError;
use crate::node::OperationFnOutput;
use crate::node::OperationNode;
use crate::value::object_entry;
use crate::value::take_object_entry;
use crate::value::ExecutionState;
use crate::value::Value;

verus! {

/// What a source-code backend adapter is handed for one execution. The
/// isolated engine never receives the caller's context: its request carries
/// no state at all, and the adapter creates a fresh, private context for
/// this one run.
#[derive(Debug, PartialEq)]
pub struct BackendRequest {
    pub state: Option<ExecutionState>,
    pub source_code: String,
    pub input: Value,
    pub function_invocation: bool,
}

/// What the renderer and the provider adapter are handed for one chat
/// call: the node's role blocks are rendered against `data` as a flat
/// namespace of substitutions, in their stored order.
#[derive(Debug, PartialEq)]
pub struct ChatPlan {
    pub state: Option<ExecutionState>,
    pub data: Value,
}

/// One step of the invocation protocol: the finished envelope when no
/// backend work is owed, or the one piece of backend work the caller must
/// perform before completing the invocation.
#[derive(Debug, PartialEq)]
pub enum InvocationAction {
    Complete(OperationFnOutput),
    RunInterpreter(BackendRequest),
    RunIsolated(BackendRequest),
    RenderChat(ChatPlan),
}

/// What came back from a backend adapter that ran source code.
#[derive(Debug, PartialEq)]
pub struct BackendSuccess {
    pub value: Value,
    pub replacement_state: Option<ExecutionState>,
    pub stdout: Vec<String>,
    pub stderr: Vec<String>,
}

/// A backend failure, with the diagnostics captured before it failed.
#[derive(Debug, PartialEq)]
pub struct BackendFailure {
    pub message: String,
    pub stdout: Vec<String>,
    pub stderr: Vec<String>,
}

/// What came back from one chat-completion call, with the replacement
/// execution context the provider call yielded, if any.
#[derive(Debug, PartialEq)]
pub struct ChatOutcome {
    pub response: ChatCompletionRes,
    pub replacement_state: Option<ExecutionState>,
}

/// An envelope produced without backend diagnostics: its error flag mirrors
/// its output, and it carries no replacement context and no output streams.
pub open spec fn completes_locally(
    env: OperationFnOutput,
    out: Result<Value, InvocationError>,
) -> bool {
    &&& env.has_error == (out is Err)
    &&& env.execution_state is None
    &&& env.output == out
    &&& env.stdout@.len() == 0
    &&& env.stderr@.len() == 0
}

/// The namespace key an object input carries its substitutions under.
pub open spec fn globals_key() -> Seq<char> {
    "globals"@
}

/// Everything planning one invocation promises, per dispatch strategy: a
/// pass-through completes at once with the input unchanged; the interpreter
/// request carries the caller's context; the isolated-engine request
/// carries none; a chat-backed prompt renders against the input's namespace
/// entry when the input is an object; and a code-generation node configured
/// with a callable name, invoked not as a function call, short-circuits to
/// a null output without any backend request.
pub open spec fn invocation_plan(
    node: OperationNode,
    state: ExecutionState,
    input: Value,
    r: InvocationAction,
) -> bool {
    match node.dispatch {
        Dispatch::PassThrough => r matches InvocationAction::Complete(env) && completes_locally(
            env,
            Ok(input),
        ),
        Dispatch::Interpreter { source_code, function_invocation } => r
            == InvocationAction::RunInterpreter(
            BackendRequest { state: Some(state), source_code, input, function_invocation },
        ),
        Dispatch::IsolatedEngine { source_code, function_invocation } => r
            == InvocationAction::RunIsolated(
            BackendRequest { state: None, source_code, input, function_invocation },
        ),
        Dispatch::PromptChat { .. } => match input {
            Value::Object(fields) => match object_entry(fields@, globals_key()) {
                Some(v) => r == InvocationAction::RenderChat(ChatPlan { state: None, data: v }),
                None => r matches InvocationAction::Complete(env) && completes_locally(
                    env,
                    Err(InvocationError::MissingGlobals),
                ),
            },
            _ => r == InvocationAction::RenderChat(ChatPlan { state: None, data: input }),
        },
        Dispatch::CodeGen { function_name, function_invocation, .. } => if function_name is Some
            && !function_invocation {
            r matches InvocationAction::Complete(env) && completes_locally(env, Ok(Value::Null))
        } else {
            r == InvocationAction::RenderChat(ChatPlan { state: Some(state), data: input })
        },
    }
}

/// Plans one invocation of a node: either completes it at once or names the
/// single piece of backend work the caller must perform. The caller's
/// execution context moves into the plan; effects within one invocation are
/// strictly sequential — render, dispatch, normalize — and the node itself
/// holds no mutable state, so concurrent invocations of one node are safe.
pub fn begin_invocation(node: &OperationNode, state: ExecutionState, input: Value) -> (r:
    InvocationAction)
    ensures
        invocation_plan(*node, state, input, r),
{
    match &node.dispatch {
        Dispatch::PassThrough => InvocationAction::Complete(OperationFnOutput::with_value(input)),
        Dispatch::Interpreter { source_code, function_invocation } => {
            InvocationAction::RunInterpreter(
                BackendRequest {
                    state: Some(state),
                    source_code: source_code.clone(),
                    input,
                    function_invocation: *function_invocation,
                },
            )
        },
        Dispatch::IsolatedEngine { source_code, function_invocation } => {
            InvocationAction::RunIsolated(
                BackendRequest {
                    state: None,
                    source_code: source_code.clone(),
                    input,
                    function_invocation: *function_invocation,
                },
            )
        },
        Dispatch::PromptChat { .. } => match input {
            Value::Object(fields) => {
                let key = String::from_str("globals");
                match take_object_entry(fields, &key) {
                    Some(v) => InvocationAction::RenderChat(ChatPlan { state: None, data: v }),
                    None => InvocationAction::Complete(
                        OperationFnOutput::with_error(InvocationError::MissingGlobals),
                    ),
                }
            },
            other => InvocationAction::RenderChat(ChatPlan { state: None, data: other }),
        },
        Dispatch::CodeGen { function_name, function_invocation, .. } => {
            if function_name.is_some() && !*function_invocation {
                InvocationAction::Complete(OperationFnOutput::with_value(Value::Null))
            } else {
                InvocationAction::RenderChat(ChatPlan { state: Some(state), data: input })
            }
        },
    }
}

/// The wire role owed each template role.
pub open spec fn role_to_message_role(r: ChatModelRole) -> MessageRole {
    match r {
        ChatModelRole::User => MessageRole::User,
        ChatModelRole::System => MessageRole::System,
        ChatModelRole::Assistant => MessageRole::Assistant,
    }
}

/// Maps a template role to its wire role.
fn message_role_for(r: &ChatModelRole) -> (m: MessageRole)
    ensures
        m == role_to_message_role(*r),
{
    match r {
        ChatModelRole::User => MessageRole::User,
        ChatModelRole::System => MessageRole::System,
        ChatModelRole::Assistant => MessageRole::Assistant,
    }
}

/// The role blocks a chat-backed node renders, in order.
pub open spec fn chat_role_blocks(d: Dispatch) -> Seq<RoleBlock> {
    match d {
        Dispatch::PromptChat { role_blocks, .. } => role_blocks@,
        Dispatch::CodeGen { role_blocks, .. } => role_blocks@,
        _ => Seq::<RoleBlock>::empty(),
    }
}

/// One message per role block, in block order, each carrying that block's
/// rendered content under the block's wire role.
pub open spec fn messages_match_blocks(
    msgs: Seq<TemplateMessage>,
    blocks: Seq<RoleBlock>,
    rendered: Seq<String>,
) -> bool {
    &&& msgs.len() == blocks.len()
    &&& forall|i: int|
        0 <= i < msgs.len() ==> (#[trigger] msgs[i]) == (TemplateMessage {
            role: role_to_message_role(blocks[i].role),
            content: rendered[i],
            name: None,
            function_call: None,
        })
}

/// Assembles the single batched chat-completion request of a chat-backed
/// node: one message per role block, in stored block order, with the
/// caller-rendered content for each block, addressed to the fixed default
/// model.
/// One message per role block, in block order, consuming the rendered
/// contents in the same order.
fn messages_for_blocks(blocks: &Vec<RoleBlock>, rendered: Vec<String>) -> (msgs: Vec<
    TemplateMessage,
>)
    requires
        rendered@.len() == blocks@.len(),
    ensures
        messages_match_blocks(msgs@, blocks@, rendered@),
{
    let ghost rendered0 = rendered@;
    let mut rendered = rendered;
    let mut msgs: Vec<TemplateMessage> = Vec::new();
    let mut i: usize = 0;
    while i < blocks.len()
        invariant
            0 <= i <= blocks@.len(),
            rendered0.len() == blocks@.len(),
            rendered@ =~= rendered0.skip(i as int),
            msgs@.len() == i,
            forall|k: int|
                0 <= k < i ==> (#[trigger] msgs@[k]) == (TemplateMessage {
                    role: role_to_message_role(blocks@[k].role),
                    content: rendered0[k],
                    name: None,
                    function_call: None,
                }),
        decreases blocks@.len() - i,
    {
        let role = message_role_for(&blocks[i].role);
        let content = rendered.remove(0);
        proof {
            assert(content == rendered0[i as int]);
            assert(rendered@ =~= rendered0.skip(i as int + 1));
        }
        msgs.push(TemplateMessage { role, content, name: None, function_call: None });
        i += 1;
    }
    msgs
}

/// Assembles the single batched chat-completion request of a chat-backed
/// node: one message per role block, in stored block order, with the
/// caller-rendered content for each block, addressed to the fixed default
/// model.
pub fn assemble_chat_request(node: &OperationNode, rendered: Vec<String>) -> (r: ChatCompletionReq)
    requires
        node.dispatch matches Dispatch::PromptChat { .. } || node.dispatch
            matches Dispatch::CodeGen { .. },
        rendered@.len() == chat_role_blocks(node.dispatch).len(),
    ensures
        r.model@ == "gpt-3.5-turbo"@,
        messages_match_blocks(r.template_messages@, chat_role_blocks(node.dispatch), rendered@),
{
    let model = SupportedChatModel::Gpt35Turbo.api_name();
    match &node.dispatch {
        Dispatch::PromptChat { role_blocks, .. } => ChatCompletionReq {
            model,
            template_messages: messages_for_blocks(role_blocks, rendered),
        },
        Dispatch::CodeGen { role_blocks, .. } => ChatCompletionReq {
            model,
            template_messages: messages_for_blocks(role_blocks, rendered),
        },
        _ => {
            proof {
                assert(false);
            }
            ChatCompletionReq { model, template_messages: Vec::new() }
        },
    }
}

/// The one envelope every source-code backend outcome is owed.
pub open spec fn backend_envelope(outcome: Result<BackendSuccess, BackendFailure>) -> OperationFnOutput {
    match outcome {
        Ok(s) => OperationFnOutput {
            has_error: false,
            execution_state: s.replacement_state,
            output: Ok(s.value),
            stdout: s.stdout,
            stderr: s.stderr,
        },
        Err(f) => OperationFnOutput {
            has_error: true,
            execution_state: None,
            output: Err(InvocationError::Backend { message: f.message }),
            stdout: f.stdout,
            stderr: f.stderr,
        },
    }
}

/// Normalizes a source-code backend's outcome into the envelope: uniform
/// capture. A failure becomes a captured error carrying the stdout and
/// stderr lines gathered before it, never an abrupt escape past the
/// invocation boundary.
pub fn complete_backend_invocation(outcome: Result<BackendSuccess, BackendFailure>) -> (r:
    OperationFnOutput)
    ensures
        r == backend_envelope(outcome),
{
    match outcome {
        Ok(s) => OperationFnOutput {
            has_error: false,
            execution_state: s.replacement_state,
            output: Ok(s.value),
            stdout: s.stdout,
            stderr: s.stderr,
        },
        Err(f) => OperationFnOutput {
            has_error: true,
            execution_state: None,
            output: Err(InvocationError::Backend { message: f.message }),
            stdout: f.stdout,
            stderr: f.stderr,
        },
    }
}

/// The first choice's text of a response, if the response carries one.
pub open spec fn first_choice_text(res: ChatCompletionRes) -> Option<String> {
    if res.choices@.len() > 0 {
        res.choices@[0].text
    } else {
        None
    }
}

/// Normalizes a chat-completion outcome for a prompt node: the first
/// choice's text becomes the output value. A provider failure or a response
/// without a usable first choice is captured as an error in the envelope —
/// it never silently becomes a null value and never raises.
pub fn complete_prompt_invocation(outcome: Result<ChatCompletionRes, String>) -> (r:
    OperationFnOutput)
    ensures
        match outcome {
            Ok(res) => match first_choice_text(res) {
                Some(t) => completes_locally(r, Ok(Value::Text(t))),
                None => completes_locally(r, Err(InvocationError::EmptyResponse)),
            },
            Err(m) => completes_locally(r, Err(InvocationError::Provider { message: m })),
        },
{
    match outcome {
        Ok(res) => {
            let mut choices = res.choices;
            if choices.len() > 0 {
                let first = choices.remove(0);
                match first.text {
                    Some(t) => OperationFnOutput::with_value(Value::Text(t)),
                    None => OperationFnOutput::with_error(InvocationError::EmptyResponse),
                }
            } else {
                OperationFnOutput::with_error(InvocationError::EmptyResponse)
            }
        },
        Err(message) => OperationFnOutput::with_error(InvocationError::Provider { message }),
    }
}

/// Normalizes a chat-completion outcome for a code-generation node: the
/// generated text becomes the output value, and the replacement execution
/// context the provider call yielded rides along in the envelope. Failures
/// are captured exactly as for prompt nodes.
pub fn complete_codegen_invocation(outcome: Result<ChatOutcome, String>) -> (r: OperationFnOutput)
    ensures
        match outcome {
            Ok(o) => match first_choice_text(o.response) {
                Some(t) => {
                    &&& r.has_error == false
                    &&& r.execution_state == o.replacement_state
                    &&& r.output == Result::<Value, InvocationError>::Ok(Value::Text(t))
                    &&& r.stdout@.len() == 0
                    &&& r.stderr@.len() == 0
                },
                None => completes_locally(r, Err(InvocationError::EmptyResponse)),
            },
            Err(m) => completes_locally(r, Err(InvocationError::Provider { message: m })),
        },
{
    match outcome {
        Ok(o) => {
            let replacement_state = o.replacement_state;
            let mut choices = o.response.choices;
            if choices.len() > 0 {
                let first = choices.remove(0);
                match first.text {
                    Some(t) => OperationFnOutput {
                        has_error: false,
                        execution_state: replacement_state,
                        output: Ok(Value::Text(t)),
                        stdout: Vec::new(),
                        stderr: Vec::new(),
                    },
                    None => OperationFnOutput::with_error(InvocationError::EmptyResponse),
                }
            } else {
                OperationFnOutput::with_error(InvocationError::EmptyResponse)
            }
        },
        Err(message) => OperationFnOutput::with_error(InvocationError::Provider { message }),
    }
}

/// Law: envelope totality. Every backend outcome — success or failure — is
/// owed exactly one envelope, a pure function of that outcome; and the
/// stdout and stderr lines accumulated before a failure survive into the
/// failure's envelope instead of being discarded.
pub proof fn lemma_envelope_totality(outcome: Result<BackendSuccess, BackendFailure>)
    ensures
        outcome matches Ok(s) ==> {
            &&& !backend_envelope(outcome).has_error
            &&& backend_envelope(outcome).output == Result::<Value, InvocationError>::Ok(s.value)
            &&& backend_envelope(outcome).stdout == s.stdout
            &&& backend_envelope(outcome).stderr == s.stderr
        },
        outcome matches Err(f) ==> {
            &&& backend_envelope(outcome).has_error
            &&& backend_envelope(outcome).output is Err
            &&& backend_envelope(outcome).stdout == f.stdout
            &&& backend_envelope(outcome).stderr == f.stderr
        },
{
}

/// Law: pass-through no-op. A node compiled for a language with no
/// static-analysis collaborator hands any input value back unchanged, with
/// empty stdout and stderr and no error.
pub proof fn lemma_pass_through_no_op(
    node: OperationNode,
    state: ExecutionState,
    input: Value,
    r: InvocationAction,
)
    requires
        node.dispatch is PassThrough,
        invocation_plan(node, state, input, r),
    ensures
        r matches InvocationAction::Complete(env) && {
            &&& env.output == Result::<Value, InvocationError>::Ok(input)
            &&& env.has_error == false
            &&& env.stdout@.len() == 0
            &&& env.stderr@.len() == 0
        },
{
}

/// Law: a source-code cell whose language has no static-analysis
/// collaborator compiles to a node with empty input and output signatures,
/// and every invocation of that node is the identity on its input, with
/// empty diagnostics and no error — a deliberate no-op, end to end.
pub proof fn lemma_sandboxed_cell_no_op(
    cell: crate::cells::CodeCell,
    analysis: Option<Result<crate::signature::Report, String>>,
    node: OperationNode,
    state: ExecutionState,
    input: Value,
    r: InvocationAction,
)
    requires
        cell.language is Sandboxed,
        crate::compile::code_cell_post(cell, analysis, Ok(node)),
        invocation_plan(node, state, input, r),
    ensures
        node.input_signature@ == crate::signature::empty_input_signature_view(),
        node.output_signature@ == crate::signature::empty_output_signature_view(),
        r matches InvocationAction::Complete(env) && {
            &&& env.output == Result::<Value, InvocationError>::Ok(input)
            &&& env.has_error == false
            &&& env.stdout@.len() == 0
            &&& env.stderr@.len() == 0
        },
{
}

/// Law: gated invocation short-circuit. A code-generation node configured
/// with a callable name, invoked not as a function call, completes at once
/// with a null output; no backend request of any kind is issued.
pub proof fn lemma_gated_invocation_short_circuit(
    node: OperationNode,
    state: ExecutionState,
    input: Value,
    r: InvocationAction,
)
    requires
        node.dispatch matches Dispatch::CodeGen { function_name, function_invocation, .. }
            && function_name is Some && !function_invocation,
        invocation_plan(node, state, input, r),
    ensures
        r matches InvocationAction::Complete(env) && {
            &&& env.output == Result::<Value, InvocationError>::Ok(Value::Null)
            &&& env.has_error == false
            &&& env.stdout@.len() == 0
            &&& env.stderr@.len() == 0
        },
{
}

/// Law: role-block ordering preserved. For a code-generation node, the
/// assembled message sequence always begins with the fixed system
/// instruction block, followed by one message per cell-defined block in the
/// cell's original order — however many blocks (none, one, or many) the
/// cell defines.
pub proof fn lemma_role_block_ordering(
    cell: LLMCodeGenCell,
    fname: Option<Seq<char>>,
    a: TemplateAnalysis,
    node: OperationNode,
    rendered: Seq<String>,
    req: ChatCompletionReq,
)
    requires
        code_gen_dispatch_matches(node.dispatch, cell, fname, a),
        rendered.len() == chat_role_blocks(node.dispatch).len(),
        messages_match_blocks(req.template_messages@, chat_role_blocks(node.dispatch), rendered),
    ensures
        req.template_messages@.len() == a.role_blocks@.len() + 1,
        req.template_messages@[0].role is System,
        chat_role_blocks(node.dispatch)[0].source matches Some(s) && s@
            == code_gen_instruction_view(),
        forall|i: int|
            1 <= i < req.template_messages@.len() ==> (#[trigger] req.template_messages@[i]).role
                == role_to_message_role(a.role_blocks@[i - 1].role),
        forall|i: int|
            0 <= i < req.template_messages@.len() ==> (#[trigger] req.template_messages@[i]).content
                == rendered[i],
{
    let blocks = chat_role_blocks(node.dispatch);
    assert(blocks.skip(1) == a.role_blocks@);
    assert forall|i: int| 1 <= i < blocks.len() implies blocks[i] == a.role_blocks@[i - 1] by {
        assert(blocks.skip(1)[i - 1] == blocks[i]);
    }
}

/// Law: isolation non-interference. Two invocations of one isolated-engine
/// node never share anything: each request carries exactly its own input,
/// no caller context crosses into either isolated run, and the two requests
/// agree on everything except that input.
pub proof fn lemma_isolation_non_interference(
    node: OperationNode,
    s1: ExecutionState,
    s2: ExecutionState,
    a: Value,
    b: Value,
    ra: InvocationAction,
    rb: InvocationAction,
)
    requires
        node.dispatch is IsolatedEngine,
        invocation_plan(node, s1, a, ra),
        invocation_plan(node, s2, b, rb),
    ensures
        ra matches InvocationAction::RunIsolated(qa) && qa.input == a && qa.state is None,
        rb matches InvocationAction::RunIsolated(qb) && qb.input == b && qb.state is None,
        ra->RunIsolated_0.source_code == rb->RunIsolated_0.source_code,
        ra->RunIsolated_0.function_invocation == rb->RunIsolated_0.function_invocation,
{
}

} // verus!
