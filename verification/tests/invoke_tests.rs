use chidori_core::cells::ChatModelRole;
use chidori_core::cells::CodeCell;
use chidori_core::cells::RoleBlock;
use chidori_core::cells::SupportedLanguage;
use chidori_core::cells::SupportedModelProviders;
use chidori_core::cells::TemplateAnalysis;
use chidori_core::cells::TemplateSchema;
use chidori_core::compile::code_cell;
use chidori_core::compile::code_gen_instruction;
use chidori_core::invoke::assemble_chat_request;
use chidori_core::invoke::begin_invocation;
use chidori_core::invoke::complete_backend_invocation;
use chidori_core::invoke::complete_codegen_invocation;
use chidori_core::invoke::complete_prompt_invocation;
use chidori_core::invoke::BackendFailure;
use chidori_core::invoke::BackendSuccess;
use chidori_core::invoke::ChatOutcome;
use chidori_core::invoke::InvocationAction;
use chidori_core::llm::ChatCompletionChoice;
use chidori_core::llm::ChatCompletionRes;
use chidori_core::llm::MessageRole;
use chidori_core::llm::SupportedChatModel;
use chidori_core::llm::Usage;
use chidori_core::node::Dispatch;
use chidori_core::node::InvocationError;
use chidori_core::node::OperationNode;
use chidori_core::signature::InputSignature;
use chidori_core::signature::OutputSignature;
use chidori_core::signature::Report;
use chidori_core::value::ExecutionState;
use chidori_core::value::Value;

fn state(id: u64) -> ExecutionState {
    ExecutionState { id }
}

fn node_with_dispatch(dispatch: Dispatch) -> OperationNode {
    OperationNode {
        name: None,
        execution_state_id: None,
        input_signature: InputSignature::new(),
        output_signature: OutputSignature::new(),
        dispatch,
    }
}

fn response_with_text(text: Option<&str>) -> ChatCompletionRes {
    ChatCompletionRes {
        id: "chatcmpl-1".to_string(),
        object: "chat.completion".to_string(),
        created: 0,
        model: "gpt-3.5-turbo".to_string(),
        choices: vec![ChatCompletionChoice {
            text: text.map(|t| t.to_string()),
            index: 0,
            finish_reason: "".to_string(),
        }],
        usage: Usage { prompt_tokens: 0, completion_tokens: 0, total_tokens: 0 },
    }
}

#[test]
fn test_pass_through_invocation_returns_input_unchanged() {
    let cell = CodeCell {
        name: None,
        language: SupportedLanguage::Sandboxed,
        source_code: "ignored".to_string(),
        function_invocation: false,
    };
    let node = code_cell(&cell, None).unwrap();
    match begin_invocation(&node, state(1), Value::Number(42)) {
        InvocationAction::Complete(env) => {
            assert!(!env.has_error);
            assert_eq!(env.output, Ok(Value::Number(42)));
            assert!(env.execution_state.is_none());
            assert_eq!(env.stdout.len(), 0);
            assert_eq!(env.stderr.len(), 0);
        }
        _ => panic!("a pass-through node must complete without backend work"),
    }
}

#[test]
fn test_gated_invocation_short_circuit() {
    let node = node_with_dispatch(Dispatch::CodeGen {
        provider: SupportedModelProviders::OpenAI,
        function_name: Some("generate_message".to_string()),
        cell_name: None,
        function_invocation: false,
        role_blocks: vec![],
    });
    let mut backend_calls: u32 = 0;
    match begin_invocation(&node, state(1), Value::Text("input".to_string())) {
        InvocationAction::Complete(env) => {
            assert!(!env.has_error);
            assert_eq!(env.output, Ok(Value::Null));
        }
        // Any backend-bound action would be a call on the counting stub.
        _ => backend_calls += 1,
    }
    assert_eq!(backend_calls, 0);
}

#[test]
fn test_code_gen_invoked_as_function_reaches_backend() {
    let node = node_with_dispatch(Dispatch::CodeGen {
        provider: SupportedModelProviders::OpenAI,
        function_name: Some("generate_message".to_string()),
        cell_name: None,
        function_invocation: true,
        role_blocks: vec![],
    });
    match begin_invocation(&node, state(9), Value::Text("payload".to_string())) {
        InvocationAction::RenderChat(plan) => {
            assert_eq!(plan.data, Value::Text("payload".to_string()));
            assert_eq!(plan.state, Some(state(9)));
        }
        _ => panic!("a function invocation must reach the provider"),
    }
}

#[test]
fn test_prompt_invocation_extracts_globals_namespace() {
    let node = node_with_dispatch(Dispatch::PromptChat {
        provider: SupportedModelProviders::OpenAI,
        role_blocks: vec![],
    });
    let input = Value::Object(vec![(
        "globals".to_string(),
        Value::Object(vec![("name".to_string(), Value::Text("ada".to_string()))]),
    )]);
    match begin_invocation(&node, state(1), input) {
        InvocationAction::RenderChat(plan) => {
            assert_eq!(
                plan.data,
                Value::Object(vec![("name".to_string(), Value::Text("ada".to_string()))])
            );
        }
        _ => panic!("expected a render-and-chat plan"),
    }
}

#[test]
fn test_prompt_invocation_object_without_globals_is_captured_error() {
    let node = node_with_dispatch(Dispatch::PromptChat {
        provider: SupportedModelProviders::OpenAI,
        role_blocks: vec![],
    });
    let input = Value::Object(vec![("other".to_string(), Value::Null)]);
    match begin_invocation(&node, state(1), input) {
        InvocationAction::Complete(env) => {
            assert!(env.has_error);
            assert_eq!(env.output, Err(InvocationError::MissingGlobals));
        }
        _ => panic!("expected a captured error"),
    }
}

#[test]
fn test_interpreter_request_carries_callers_state() {
    let node = node_with_dispatch(Dispatch::Interpreter {
        source_code: "y = x".to_string(),
        function_invocation: false,
    });
    match begin_invocation(&node, state(11), Value::Null) {
        InvocationAction::RunInterpreter(req) => {
            assert_eq!(req.state, Some(state(11)));
            assert_eq!(req.source_code, "y = x");
        }
        _ => panic!("expected an interpreter request"),
    }
}

#[test]
fn test_isolated_invocations_do_not_interfere() {
    let cell = CodeCell {
        name: None,
        language: SupportedLanguage::ScriptEngine,
        source_code: "out = inp".to_string(),
        function_invocation: false,
    };
    let report = Report {
        cell_depended_values: vec!["inp".to_string()],
        cell_exposed_values: vec!["out".to_string()],
        triggerable_functions: vec![],
    };
    let node = code_cell(&cell, Some(Ok(report))).unwrap();

    // A stub isolated engine that derives its output from its own request
    // alone, standing in for a fresh engine instance per invocation.
    let run_stub = |action: InvocationAction| -> Value {
        match action {
            InvocationAction::RunIsolated(req) => {
                assert!(req.state.is_none());
                let env = complete_backend_invocation(Ok(BackendSuccess {
                    value: Value::Array(vec![req.input]),
                    replacement_state: None,
                    stdout: vec![],
                    stderr: vec![],
                }));
                env.output.unwrap()
            }
            _ => panic!("expected an isolated-engine request"),
        }
    };

    let first = begin_invocation(&node, state(1), Value::Text("sentinel-a".to_string()));
    let second = begin_invocation(&node, state(2), Value::Text("sentinel-b".to_string()));
    let out_a = run_stub(first);
    let out_b = run_stub(second);
    assert_eq!(out_a, Value::Array(vec![Value::Text("sentinel-a".to_string())]));
    assert_eq!(out_b, Value::Array(vec![Value::Text("sentinel-b".to_string())]));
}

fn codegen_node_with_blocks(own_blocks: Vec<RoleBlock>) -> OperationNode {
    let mut role_blocks = vec![RoleBlock {
        role: ChatModelRole::System,
        source: Some(code_gen_instruction().to_string()),
    }];
    role_blocks.extend(own_blocks);
    node_with_dispatch(Dispatch::CodeGen {
        provider: SupportedModelProviders::OpenAI,
        function_name: None,
        cell_name: None,
        function_invocation: false,
        role_blocks,
    })
}

#[test]
fn test_role_block_ordering_no_own_blocks() {
    let node = codegen_node_with_blocks(vec![]);
    let req = assemble_chat_request(&node, vec!["instruction".to_string()]);
    assert_eq!(req.model, "gpt-3.5-turbo");
    assert_eq!(req.template_messages.len(), 1);
    assert_eq!(req.template_messages[0].role, MessageRole::System);
    assert_eq!(req.template_messages[0].content, "instruction");
}

#[test]
fn test_role_block_ordering_many_own_blocks() {
    let node = codegen_node_with_blocks(vec![
        RoleBlock { role: ChatModelRole::User, source: Some("ask".to_string()) },
        RoleBlock { role: ChatModelRole::Assistant, source: Some("answer".to_string()) },
    ]);
    let rendered = vec![
        "instruction".to_string(),
        "rendered-ask".to_string(),
        "rendered-answer".to_string(),
    ];
    let req = assemble_chat_request(&node, rendered);
    assert_eq!(req.template_messages.len(), 3);
    assert_eq!(req.template_messages[0].role, MessageRole::System);
    assert_eq!(req.template_messages[0].content, "instruction");
    assert_eq!(req.template_messages[1].role, MessageRole::User);
    assert_eq!(req.template_messages[1].content, "rendered-ask");
    assert_eq!(req.template_messages[2].role, MessageRole::Assistant);
    assert_eq!(req.template_messages[2].content, "rendered-answer");
    for m in &req.template_messages {
        assert!(m.name.is_none());
        assert!(m.function_call.is_none());
    }
}

#[test]
fn test_backend_failure_preserves_diagnostics() {
    let env = complete_backend_invocation(Err(BackendFailure {
        message: "interpreter blew up".to_string(),
        stdout: vec!["partial line".to_string()],
        stderr: vec!["traceback".to_string()],
    }));
    assert!(env.has_error);
    assert_eq!(
        env.output,
        Err(InvocationError::Backend { message: "interpreter blew up".to_string() })
    );
    assert_eq!(env.stdout, vec!["partial line".to_string()]);
    assert_eq!(env.stderr, vec!["traceback".to_string()]);
    assert!(env.execution_state.is_none());
}

#[test]
fn test_backend_success_envelope() {
    let env = complete_backend_invocation(Ok(BackendSuccess {
        value: Value::Number(5),
        replacement_state: Some(state(3)),
        stdout: vec!["printed".to_string()],
        stderr: vec![],
    }));
    assert!(!env.has_error);
    assert_eq!(env.output, Ok(Value::Number(5)));
    assert_eq!(env.execution_state, Some(state(3)));
    assert_eq!(env.stdout, vec!["printed".to_string()]);
}

#[test]
fn test_prompt_completion_returns_first_choice_text() {
    let env = complete_prompt_invocation(Ok(response_with_text(Some("hello there"))));
    assert!(!env.has_error);
    assert_eq!(env.output, Ok(Value::Text("hello there".to_string())));
}

#[test]
fn test_prompt_completion_without_usable_choice_is_captured() {
    let env = complete_prompt_invocation(Ok(response_with_text(None)));
    assert!(env.has_error);
    assert_eq!(env.output, Err(InvocationError::EmptyResponse));

    let mut empty = response_with_text(Some("x"));
    empty.choices = vec![];
    let env = complete_prompt_invocation(Ok(empty));
    assert!(env.has_error);
    assert_eq!(env.output, Err(InvocationError::EmptyResponse));
}

#[test]
fn test_prompt_provider_failure_is_captured_not_null() {
    let env = complete_prompt_invocation(Err("connection refused".to_string()));
    assert!(env.has_error);
    assert_eq!(
        env.output,
        Err(InvocationError::Provider { message: "connection refused".to_string() })
    );
}

#[test]
fn test_codegen_completion_carries_replacement_state() {
    let env = complete_codegen_invocation(Ok(ChatOutcome {
        response: response_with_text(Some("fn gen() {}")),
        replacement_state: Some(state(21)),
    }));
    assert!(!env.has_error);
    assert_eq!(env.output, Ok(Value::Text("fn gen() {}".to_string())));
    assert_eq!(env.execution_state, Some(state(21)));
}

#[test]
fn test_marshalable_plain_values() {
    assert!(chidori_core::value::check_marshalable(&Value::Null));
    assert!(chidori_core::value::check_marshalable(&Value::Object(vec![(
        "xs".to_string(),
        Value::Array(vec![Value::Number(1), Value::Text("two".to_string())]),
    )])));
}

#[test]
fn test_marshalable_rejects_marker_kinds_at_depth() {
    assert!(!chidori_core::value::check_marshalable(&Value::StreamPointer(4)));
    assert!(!chidori_core::value::check_marshalable(&Value::Object(vec![(
        "deep".to_string(),
        Value::Array(vec![Value::Null, Value::FunctionPointer(2)]),
    )])));
}

#[test]
fn test_supported_chat_model_api_names() {
    assert_eq!(SupportedChatModel::Gpt4.api_name(), "gpt-4");
    assert_eq!(SupportedChatModel::Gpt40314.api_name(), "gpt-4-0314");
    assert_eq!(SupportedChatModel::Gpt432k.api_name(), "gpt-4-32k");
    assert_eq!(SupportedChatModel::Gpt432k0314.api_name(), "gpt-4-32k-0314");
    assert_eq!(SupportedChatModel::Gpt35Turbo.api_name(), "gpt-3.5-turbo");
    assert_eq!(SupportedChatModel::Gpt35Turbo0301.api_name(), "gpt-3.5-turbo-0301");
}
