use vstd::prelude::*;

use crate::cells::RoleBlock;
use crate::cells::SupportedModelProviders;
use crate::signature::InputSignature;
use crate::signature::OutputSignature;
use crate::value::ExecutionState;
use crate::value::Value;

verus! {

/// Why one invocation failed. Failures are captured into the envelope,
/// never raised past the invocation boundary.
#[derive(Debug, PartialEq)]
pub enum InvocationError {
    /// The interpreter or the isolated script engine failed.
    Backend { message: String },
    /// The model provider's call failed.
    Provider { message: String },
    /// The provider answered without a usable first choice.
    EmptyResponse,
    /// An object input carried no entry under the expected namespace key.
    MissingGlobals,
}

/// The uniform envelope every invocation produces, exactly once, whatever
/// backend ran. When `execution_state` is present it is the replacement
/// context the caller must substitute for the one it passed in.
#[derive(Debug, PartialEq)]
pub struct OperationFnOutput {
    pub has_error: bool,
    pub execution_state: Option<ExecutionState>,
    pub output: Result<Value, InvocationError>,
    pub stdout: Vec<String>,
    pub stderr: Vec<String>,
}

impl OperationFnOutput {
    /// Envelope for a plainly produced value: no error, no diagnostics, no
    /// replacement context.
    pub fn with_value(value: Value) -> (r: OperationFnOutput)
        ensures
            r.has_error == false,
            r.execution_state is None,
            r.output == Result::<Value, InvocationError>::Ok(value),
            r.stdout@.len() == 0,
            r.stderr@.len() == 0,
    {
        OperationFnOutput {
            has_error: false,
            execution_state: None,
            output: Ok(value),
            stdout: Vec::new(),
            stderr: Vec::new(),
        }
    }

    /// Envelope for a captured invocation failure with no diagnostics.
    pub fn with_error(error: InvocationError) -> (r: OperationFnOutput)
        ensures
            r.has_error == true,
            r.execution_state is None,
            r.output == Result::<Value, InvocationError>::Err(error),
            r.stdout@.len() == 0,
            r.stderr@.len() == 0,
    {
        OperationFnOutput {
            has_error: true,
            execution_state: None,
            output: Err(error),
            stdout: Vec::new(),
            stderr: Vec::new(),
        }
    }
}

/// The closed set of invocation strategies a compiled node dispatches
/// through. The variant set is closed and known, so dispatch is a tagged
/// match, not open-ended dynamic dispatch.
#[derive(Debug, PartialEq)]
pub enum Dispatch {
    /// Identity: hand the input back unchanged.
    PassThrough,
    /// Run the cell's source on the general interpreter, inside the
    /// caller's execution context.
    Interpreter { source_code: String, function_invocation: bool },
    /// Run the cell's source on the embedded script engine, on a fresh,
    /// fully isolated execution context created for this one invocation.
    IsolatedEngine { source_code: String, function_invocation: bool },
    /// Render the role blocks and issue one batched chat-completion call.
    PromptChat { provider: SupportedModelProviders, role_blocks: Vec<RoleBlock> },
    /// Generate code through the provider, gated on being invoked as a
    /// function when a callable name is configured.
    CodeGen {
        provider: SupportedModelProviders,
        function_name: Option<String>,
        cell_name: Option<String>,
        function_invocation: bool,
        role_blocks: Vec<RoleBlock>,
    },
}

/// The compiled, directly invocable unit produced from a cell: its name,
/// its derived signatures, and the dispatch strategy its invocations run
/// through. Constructed once per compilation and never mutated; recompiling
/// a cell produces a new node.
#[derive(Debug, PartialEq)]
pub struct OperationNode {
    pub name: Option<String>,
    pub execution_state_id: Option<u64>,
    pub input_signature: InputSignature,
    pub output_signature: OutputSignature,
    pub dispatch: Dispatch,
}

impl OperationNode {
    /// Assembles a node from its parts.
    pub fn new(
        name: Option<String>,
        execution_state_id: Option<u64>,
        input_signature: InputSignature,
        output_signature: OutputSignature,
        dispatch: Dispatch,
    ) -> (r: OperationNode)
        ensures
            r == (OperationNode {
                name,
                execution_state_id,
                input_signature,
                output_signature,
                dispatch,
            }),
    {
        OperationNode { name, execution_state_id, input_signature, output_signature, dispatch }
    }
}

} // verus!
