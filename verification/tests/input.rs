use jsonrpc_usecase::execution::{execution_outcome, gate_input};
use jsonrpc_usecase::execution::UseCaseExecutionError;
use jsonrpc_usecase::input::transformers::{nested, trim_start};
use jsonrpc_usecase::input::{InputValidationErrors, InputViolation, UseCaseInput};

fn violation(field: &str, rule: &str, message: &str) -> InputViolation {
    InputViolation::new(field.to_owned(), rule.to_owned(), message.to_owned())
}

#[test]
fn violations_keep_their_parts() {
    let v = violation("email", "email", "must be an email address");
    assert_eq!(v.field(), "email");
    assert_eq!(v.rule(), "email");
    assert_eq!(v.message(), "must be an email address");
}

#[test]
fn errors_collect_in_order() {
    let mut errors = InputValidationErrors::new();
    assert!(errors.is_empty());
    assert_eq!(errors.len(), 0);
    errors.push(violation("a", "required", "x"));
    errors.push(violation("b", "not_blank", "y"));
    assert!(!errors.is_empty());
    assert_eq!(errors.len(), 2);
    assert_eq!(errors.violations()[0].field(), "a");
    assert_eq!(errors.violations()[1].rule(), "not_blank");
}

#[test]
fn nested_errors_are_prefixed() {
    let mut child = InputValidationErrors::new();
    child.push(violation("street", "not_blank", "must not be blank"));
    child.push(violation("", "custom", "whole value"));
    let mut parent = InputValidationErrors::new();
    parent.push(violation("name", "required", "missing"));
    parent.extend_prefixed("address", child);
    assert_eq!(parent.len(), 3);
    assert_eq!(parent.violations()[0].field(), "name");
    assert_eq!(parent.violations()[1].field(), "address.street");
    assert_eq!(parent.violations()[1].message(), "must not be blank");
    assert_eq!(parent.violations()[2].field(), "address");
}

#[test]
fn into_result_is_ok_only_without_violations() {
    assert!(InputValidationErrors::new().into_result().is_ok());
    let mut errors = InputValidationErrors::new();
    errors.push(violation("tags[2]", "length", "too long"));
    let expected = errors.clone();
    assert_eq!(errors.into_result(), Err(expected));
}

#[test]
fn errors_describe_their_count() {
    let mut errors = InputValidationErrors::new();
    for index in 0..12 {
        errors.push(violation(&format!("f{index}"), "r", "m"));
    }
    assert_eq!(errors.describe(), "input validation failed with 12 violation(s)");
    assert_eq!(
        InputValidationErrors::new().describe(),
        "input validation failed with 0 violation(s)"
    );
}

#[test]
fn equal_errors_compare_equal() {
    let mut left = InputValidationErrors::new();
    let mut right = InputValidationErrors::default();
    left.push(violation("a", "b", "c"));
    right.push(violation("a", "b", "c"));
    assert_eq!(left, right);
    right.push(violation("d", "e", "f"));
    assert_ne!(left, right);
    assert_ne!(violation("a", "b", "c"), violation("a", "b", "x"));
}

struct SignUp {
    name: String,
}

impl UseCaseInput for SignUp {
    fn transform(&mut self) {
        trim_start::transform(&mut self.name);
    }

    fn validate(&self) -> Result<(), InputValidationErrors> {
        let mut errors = InputValidationErrors::new();
        if self.name.is_empty() {
            errors.push(violation("name", "not_blank", "must not be blank"));
        }
        errors.into_result()
    }
}

#[test]
fn process_transforms_before_validating() {
    let mut input = SignUp { name: "  ada".to_owned() };
    assert!(input.process().is_ok());
    assert_eq!(input.name, "ada");

    let mut blank = SignUp { name: "   ".to_owned() };
    let errors = blank.process().unwrap_err();
    assert_eq!(errors.len(), 1);
    assert_eq!(errors.violations()[0].rule(), "not_blank");

    let processed = SignUp { name: " grace".to_owned() }.into_processed().ok().unwrap();
    assert_eq!(processed.name, "grace");
    assert!(SignUp { name: String::new() }.into_processed().is_err());
}

#[test]
fn nested_transform_applies_the_child_transformations() {
    let mut child = SignUp { name: "\t bob".to_owned() };
    nested::transform(&mut child);
    assert_eq!(child.name, "bob");
}

#[test]
fn execution_error_exposes_one_cause() {
    let mut errors = InputValidationErrors::new();
    errors.push(violation("age", "range", "out of range"));
    let invalid: UseCaseExecutionError<String> = UseCaseExecutionError::from(errors);
    assert_eq!(invalid.input_errors().map(|e| e.len()), Some(1));
    assert!(invalid.execution_error().is_none());

    let failed: UseCaseExecutionError<String> = UseCaseExecutionError::Execution("boom".to_owned());
    assert!(failed.input_errors().is_none());
    assert_eq!(failed.execution_error().map(String::as_str), Some("boom"));
}

#[test]
fn element_paths_use_brackets() {
    assert_eq!(jsonrpc_usecase::input::item_path("tags", 2), "tags[2]");
    assert_eq!(jsonrpc_usecase::input::item_path("previousAddresses", 0), "previousAddresses[0]");
    assert_eq!(jsonrpc_usecase::input::item_path("matrix[1]", 10), "matrix[1][10]");
}

#[test]
fn outer_execute_gates_invalid_input_and_wraps_the_body_error() {
    let mut errors = InputValidationErrors::new();
    errors.push(InputViolation::new("name".to_owned(), "not_blank".to_owned(), "must not be blank".to_owned()));
    match gate_input::<&str, String>("input", Err(errors)) {
        Err(UseCaseExecutionError::InvalidInput(reported)) => assert_eq!(reported.violations()[0].field(), "name"),
        _ => panic!("invalid input must not reach the body"),
    }
    assert!(matches!(gate_input::<&str, String>("input", Ok(())), Ok("input")));
    assert!(matches!(execution_outcome::<u8, String>(Ok(5)), Ok(5)));
    match execution_outcome::<u8, String>(Err("boom".to_owned())) {
        Err(UseCaseExecutionError::Execution(error)) => assert_eq!(error, "boom"),
        _ => panic!("the body's error must become Execution"),
    }
}

#[test]
fn pushed_violations_stay_in_order_with_duplicates() {
    let mut errors = InputValidationErrors::new();
    let names = ["b", "a", "b"];
    for name in names {
        errors.push(InputViolation::new(name.to_owned(), "rule".to_owned(), "message".to_owned()));
    }
    let fields: Vec<&str> = errors.violations().iter().map(|v| v.field()).collect();
    assert_eq!(fields, vec!["b", "a", "b"]);
}
