use vstd::prelude::*;

use crate::value::Value;

verus! {

/// Type tag a signature entry may constrain an input to.
#[derive(Clone, Copy, Debug, PartialEq, Eq, Structural)]
pub enum InputType {
    Text,
}

/// Configuration of one named input: an optional type tag and an optional
/// default value.
#[derive(Debug, PartialEq)]
pub struct InputItemConfiguration {
    pub ty: Option<InputType>,
    pub default: Option<Value>,
}

/// The unconstrained, string-typed, default-less configuration the deriver
/// gives every name it takes from a report.
pub open spec fn text_input_configuration() -> InputItemConfiguration {
    InputItemConfiguration { ty: Some(InputType::Text), default: None }
}

/// Named inputs of a node: `globals` for depended-upon bindings, `args` for
/// declared function parameters. Keys are unique; order carries no meaning.
#[derive(Debug, PartialEq)]
pub struct InputSignature {
    pub globals: Vec<(String, InputItemConfiguration)>,
    pub args: Vec<(String, InputItemConfiguration)>,
}

#[verifier::ext_equal]
pub struct InputSignatureView {
    pub globals: Seq<(String, InputItemConfiguration)>,
    pub args: Seq<(String, InputItemConfiguration)>,
}

impl View for InputSignature {
    type V = InputSignatureView;

    open spec fn view(&self) -> InputSignatureView {
        InputSignatureView { globals: self.globals@, args: self.args@ }
    }
}

pub open spec fn empty_input_signature_view() -> InputSignatureView {
    InputSignatureView {
        globals: Seq::<(String, InputItemConfiguration)>::empty(),
        args: Seq::<(String, InputItemConfiguration)>::empty(),
    }
}

impl InputSignature {
    /// An input signature with no entries at all.
    pub fn new() -> (r: InputSignature)
        ensures
            r@ == empty_input_signature_view(),
            r.globals@.len() == 0,
            r.args@.len() == 0,
    {
        let r = InputSignature { globals: Vec::new(), args: Vec::new() };
        proof {
            assert(r@ =~= empty_input_signature_view());
        }
        r
    }
}

/// Configuration of one named output: a plain exposed value, or a callable
/// with its own independent input signature and event wiring.
#[derive(Debug, PartialEq)]
pub enum OutputItemConfiguration {
    Value,
    Function {
        input_signature: InputSignature,
        emit_event: Vec<String>,
        trigger_on: Vec<String>,
    },
}

#[verifier::ext_equal]
pub enum OutputItemConfigurationView {
    Value,
    Function {
        input_signature: InputSignatureView,
        emit_event: Seq<String>,
        trigger_on: Seq<String>,
    },
}

impl View for OutputItemConfiguration {
    type V = OutputItemConfigurationView;

    open spec fn view(&self) -> OutputItemConfigurationView {
        match self {
            OutputItemConfiguration::Value => OutputItemConfigurationView::Value,
            OutputItemConfiguration::Function { input_signature, emit_event, trigger_on } => {
                OutputItemConfigurationView::Function {
                    input_signature: input_signature@,
                    emit_event: emit_event@,
                    trigger_on: trigger_on@,
                }
            },
        }
    }
}

/// Named outputs of a node: `globals` for values the node exposes once it
/// runs, `functions` for callables it exposes.
#[derive(Debug, PartialEq)]
pub struct OutputSignature {
    pub globals: Vec<(String, OutputItemConfiguration)>,
    pub functions: Vec<(String, OutputItemConfiguration)>,
}

#[verifier::ext_equal]
pub struct OutputSignatureView {
    pub globals: Seq<(String, OutputItemConfigurationView)>,
    pub functions: Seq<(String, OutputItemConfigurationView)>,
}

impl View for OutputSignature {
    type V = OutputSignatureView;

    open spec fn view(&self) -> OutputSignatureView {
        OutputSignatureView {
            globals: self.globals@.map_values(
                |p: (String, OutputItemConfiguration)| (p.0, p.1@),
            ),
            functions: self.functions@.map_values(
                |p: (String, OutputItemConfiguration)| (p.0, p.1@),
            ),
        }
    }
}

pub open spec fn empty_output_signature_view() -> OutputSignatureView {
    OutputSignatureView {
        globals: Seq::<(String, OutputItemConfigurationView)>::empty(),
        functions: Seq::<(String, OutputItemConfigurationView)>::empty(),
    }
}

impl OutputSignature {
    /// An output signature with no entries at all.
    pub fn new() -> (r: OutputSignature)
        ensures
            r@ == empty_output_signature_view(),
            r.globals@.len() == 0,
            r.functions@.len() == 0,
    {
        let r = OutputSignature { globals: Vec::new(), functions: Vec::new() };
        proof {
            assert(r@ =~= empty_output_signature_view());
        }
        r
    }
}

/// Static-analysis dependency report for one cell, as the analysis
/// collaborator hands it over: which identifiers the cell reads, which
/// values it exposes, and which functions it offers for triggering.
#[derive(Debug, PartialEq)]
pub struct Report {
    pub cell_depended_values: Vec<String>,
    pub cell_exposed_values: Vec<String>,
    pub triggerable_functions: Vec<TriggerableFunction>,
}

/// One function a cell exposes for triggering, with its declared argument
/// names in order.
#[derive(Debug, PartialEq)]
pub struct TriggerableFunction {
    pub name: String,
    pub arguments: Vec<String>,
}

/// The input signature derivation owes a report: every depended-upon name,
/// in report order, as an unconstrained string-typed global.
pub open spec fn derived_input_signature(report: Report) -> InputSignatureView {
    InputSignatureView {
        globals: report.cell_depended_values@.map_values(
            |k: String| (k, text_input_configuration()),
        ),
        args: Seq::<(String, InputItemConfiguration)>::empty(),
    }
}

/// The configuration derivation owes one triggerable function: a callable
/// whose fresh signature holds only that function's own arguments, with no
/// event wiring.
pub open spec fn derived_function_configuration(f: TriggerableFunction) -> OutputItemConfigurationView {
    OutputItemConfigurationView::Function {
        input_signature: InputSignatureView {
            globals: Seq::<(String, InputItemConfiguration)>::empty(),
            args: f.arguments@.map_values(|a: String| (a, text_input_configuration())),
        },
        emit_event: Seq::<String>::empty(),
        trigger_on: Seq::<String>::empty(),
    }
}

/// The output signature derivation owes a report: every exposed name as a
/// value output, every triggerable function as a callable output, both in
/// report order.
pub open spec fn derived_output_signature(report: Report) -> OutputSignatureView {
    OutputSignatureView {
        globals: report.cell_exposed_values@.map_values(
            |k: String| (k, OutputItemConfigurationView::Value),
        ),
        functions: report.triggerable_functions@.map_values(
            |f: TriggerableFunction| (f.name, derived_function_configuration(f)),
        ),
    }
}

/// One entry per name, in order, each under the unconstrained string-typed
/// configuration.
pub(crate) fn text_entries_from_names(names: &Vec<String>) -> (r: Vec<(
    String,
    InputItemConfiguration,
)>)
    ensures
        r@ == names@.map_values(|k: String| (k, text_input_configuration())),
{
    let mut r: Vec<(String, InputItemConfiguration)> = Vec::new();
    let mut i: usize = 0;
    while i < names.len()
        invariant
            0 <= i <= names@.len(),
            r@ =~= names@.take(i as int).map_values(|k: String| (k, text_input_configuration())),
        decreases names@.len() - i,
    {
        let key = names[i].clone();
        r.push((key, InputItemConfiguration { ty: Some(InputType::Text), default: None }));
        i += 1;
        proof {
            assert(r@ =~= names@.take(i as int).map_values(
                |k: String| (k, text_input_configuration()),
            ));
        }
    }
    proof {
        assert(names@.take(names@.len() as int) =~= names@);
    }
    r
}

/// Turns a dependency report into a node's signatures: every depended-upon
/// name becomes an unconstrained string-typed input global, every exposed
/// name a value output, and every triggerable function a callable output
/// with a fresh, independent signature holding only that function's own
/// arguments. No renaming, filtering, or reordering is performed.
pub fn signatures_from_report(report: &Report) -> (r: (InputSignature, OutputSignature))
    ensures
        r.0@ == derived_input_signature(*report),
        r.1@ == derived_output_signature(*report),
{
    let input_signature = InputSignature {
        globals: text_entries_from_names(&report.cell_depended_values),
        args: Vec::new(),
    };

    let mut out_globals: Vec<(String, OutputItemConfiguration)> = Vec::new();
    let mut i: usize = 0;
    while i < report.cell_exposed_values.len()
        invariant
            0 <= i <= report.cell_exposed_values@.len(),
            out_globals@.len() == i,
            forall|k: int| 0 <= k < i ==> (#[trigger] out_globals@[k]) == (
            report.cell_exposed_values@[k],
            OutputItemConfiguration::Value,
            ),
        decreases report.cell_exposed_values@.len() - i,
    {
        let key = report.cell_exposed_values[i].clone();
        out_globals.push((key, OutputItemConfiguration::Value));
        i += 1;
    }

    let mut out_functions: Vec<(String, OutputItemConfiguration)> = Vec::new();
    let mut j: usize = 0;
    while j < report.triggerable_functions.len()
        invariant
            0 <= j <= report.triggerable_functions@.len(),
            out_functions@.len() == j,
            forall|k: int|
                0 <= k < j ==> (#[trigger] out_functions@[k]).0
                    == report.triggerable_functions@[k].name && out_functions@[k].1@
                    == derived_function_configuration(report.triggerable_functions@[k]),
        decreases report.triggerable_functions@.len() - j,
    {
        let f = &report.triggerable_functions[j];
        let args = text_entries_from_names(&f.arguments);
        let configuration = OutputItemConfiguration::Function {
            input_signature: InputSignature { globals: Vec::new(), args },
            emit_event: Vec::new(),
            trigger_on: Vec::new(),
        };
        proof {
            assert(configuration@ =~= derived_function_configuration(
                report.triggerable_functions@[j as int],
            ));
        }
        out_functions.push((f.name.clone(), configuration));
        j += 1;
    }

    let output_signature = OutputSignature { globals: out_globals, functions: out_functions };
    proof {
        assert(input_signature@ =~= derived_input_signature(*report));
        assert(output_signature@.globals =~= derived_output_signature(*report).globals);
        assert(output_signature@.functions =~= derived_output_signature(*report).functions);
        assert(output_signature@ =~= derived_output_signature(*report));
    }
    (input_signature, output_signature)
}

/// Law: signature derivation is pure. It performs no I/O and cannot fail,
/// and two equal reports always yield equal signatures.
pub proof fn lemma_signature_derivation_pure(r1: Report, r2: Report)
    requires
        r1 == r2,
    ensures
        derived_input_signature(r1) == derived_input_signature(r2),
        derived_output_signature(r1) == derived_output_signature(r2),
{
}

} // verus!
