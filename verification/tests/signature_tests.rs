use chidori_core::signature::signatures_from_report;
use chidori_core::signature::InputItemConfiguration;
use chidori_core::signature::InputType;
use chidori_core::signature::OutputItemConfiguration;
use chidori_core::signature::Report;
use chidori_core::signature::TriggerableFunction;

fn sample_report() -> Report {
    Report {
        cell_depended_values: vec!["a".to_string(), "b".to_string()],
        cell_exposed_values: vec!["c".to_string()],
        triggerable_functions: vec![TriggerableFunction {
            name: "f".to_string(),
            arguments: vec!["x".to_string(), "y".to_string()],
        }],
    }
}

#[test]
fn test_signature_derivation_scenario() {
    let (input, output) = signatures_from_report(&sample_report());

    assert_eq!(input.globals.len(), 2);
    assert_eq!(input.globals[0].0, "a");
    assert_eq!(input.globals[1].0, "b");
    for (_, configuration) in &input.globals {
        assert_eq!(
            *configuration,
            InputItemConfiguration { ty: Some(InputType::Text), default: None }
        );
    }
    assert_eq!(input.args.len(), 0);

    assert_eq!(output.globals.len(), 1);
    assert_eq!(output.globals[0].0, "c");
    assert_eq!(output.globals[0].1, OutputItemConfiguration::Value);

    assert_eq!(output.functions.len(), 1);
    assert_eq!(output.functions[0].0, "f");
    match &output.functions[0].1 {
        OutputItemConfiguration::Function { input_signature, emit_event, trigger_on } => {
            assert_eq!(input_signature.globals.len(), 0);
            assert_eq!(input_signature.args.len(), 2);
            assert_eq!(input_signature.args[0].0, "x");
            assert_eq!(input_signature.args[1].0, "y");
            assert_eq!(emit_event.len(), 0);
            assert_eq!(trigger_on.len(), 0);
        }
        OutputItemConfiguration::Value => panic!("expected a function configuration"),
    }
}

#[test]
fn test_signature_derivation_pure() {
    let first = signatures_from_report(&sample_report());
    let second = signatures_from_report(&sample_report());
    assert_eq!(first, second);
}

#[test]
fn test_signature_derivation_empty_report() {
    let report = Report {
        cell_depended_values: vec![],
        cell_exposed_values: vec![],
        triggerable_functions: vec![],
    };
    let (input, output) = signatures_from_report(&report);
    assert_eq!(input.globals.len(), 0);
    assert_eq!(input.args.len(), 0);
    assert_eq!(output.globals.len(), 0);
    assert_eq!(output.functions.len(), 0);
}
