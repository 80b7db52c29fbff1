use datasource_engine::{DatamodelError, DatamodelWarning, Diagnostics, Span};

fn error(message: &str) -> DatamodelError {
    DatamodelError::new_connector_error(message, Span::new(1, 2))
}

fn warning(at: usize) -> DatamodelWarning {
    DatamodelWarning::new_deprecated_provider_array_warning(Span::new(at, at + 1))
}

fn collection(errors: &[&str], warnings: &[usize]) -> Diagnostics {
    let mut diagnostics = Diagnostics::new();
    for message in errors {
        diagnostics.push_error(error(message));
    }
    for at in warnings {
        diagnostics.push_warning(warning(*at));
    }
    diagnostics
}

#[test]
fn every_error_has_its_message_and_its_span() {
    let span = Span::new(4, 9);
    let cases = vec![
        (DatamodelError::new_argument_not_found_error("url", span), "Argument \"url\" is missing."),
        (
            DatamodelError::new_source_argument_not_found_error("url", "db", span),
            "Argument \"url\" is missing in data source block \"db\".",
        ),
        (
            DatamodelError::new_type_mismatch_error("String", "array", "(array)", span),
            "Expected a String value, but received array value \"(array)\".",
        ),
        (DatamodelError::new_functional_evaluation_error("No env here.", span), "No env here."),
        (
            DatamodelError::new_source_validation_error("It is wrong.", "db", span),
            "Error validating datasource `db`: It is wrong.",
        ),
        (
            DatamodelError::new_datasource_provider_not_known_error("a,b", span),
            "Datasource provider not known: \"a,b\".",
        ),
        (DatamodelError::new_source_not_known_error("a,b", span), "Source \"a,b\" is not known."),
        (DatamodelError::new_connector_error("Not on this database.", span), "Not on this database."),
        (
            DatamodelError::new_validation_error("You defined no datasource.", span),
            "Error validating: You defined no datasource.",
        ),
    ];
    for (error, message) in cases {
        assert_eq!(error.description(), message);
        assert_eq!(error.span(), span);
    }
}

#[test]
fn a_missing_argument_is_named_after_its_block() {
    let lifted = DatamodelError::new_argument_not_found_error("url", Span::new(4, 9))
        .lift_to_source("db");
    assert_eq!(
        lifted,
        DatamodelError::new_source_argument_not_found_error("url", "db", Span::new(4, 9))
    );
}

#[test]
fn other_errors_are_handed_on_unchanged() {
    let kept = DatamodelError::new_type_mismatch_error("String", "numeric", "1", Span::new(4, 5))
        .lift_to_source("db");
    assert_eq!(
        kept,
        DatamodelError::new_type_mismatch_error("String", "numeric", "1", Span::new(4, 5))
    );
    let named = DatamodelError::new_source_argument_not_found_error("url", "db", Span::new(4, 9))
        .lift_to_source("other");
    assert_eq!(
        named,
        DatamodelError::new_source_argument_not_found_error("url", "db", Span::new(4, 9))
    );
}

#[test]
fn only_a_string_mismatch_is_a_string_mismatch() {
    let span = Span::new(0, 1);
    assert!(DatamodelError::new_type_mismatch_error("String", "numeric", "1", span)
        .is_string_mismatch());
    assert!(!DatamodelError::new_type_mismatch_error("Int", "string", "x", span)
        .is_string_mismatch());
    assert!(!DatamodelError::new_functional_evaluation_error(
        "Expected a String value, but received",
        span
    )
    .is_string_mismatch());
}

#[test]
fn the_warning_has_its_message_and_its_span() {
    let warning = warning(7);
    assert_eq!(warning.span(), Span::new(7, 8));
    assert_eq!(
        warning.description(),
        "Using multiple providers is now deprecated. You should use a single provider instead."
    );
}

#[test]
fn new_diagnostics_are_empty() {
    let diagnostics = Diagnostics::new();
    assert!(!diagnostics.has_errors());
    assert!(diagnostics.errors.is_empty());
    assert!(diagnostics.warnings.is_empty());
}

#[test]
fn warnings_alone_are_no_failure() {
    let mut diagnostics = Diagnostics::new();
    diagnostics.push_warning(warning(1));
    diagnostics.append_warning_vec(vec![warning(2), warning(3)]);
    assert!(!diagnostics.has_errors());
    assert_eq!(diagnostics.warnings, vec![warning(1), warning(2), warning(3)]);
}

#[test]
fn one_error_is_a_failure() {
    let diagnostics = collection(&[], &[1]).merge_error(error("a"));
    assert!(diagnostics.has_errors());
    assert_eq!(diagnostics.errors, vec![error("a")]);
    assert_eq!(diagnostics.warnings, vec![warning(1)]);
}

#[test]
fn merging_keeps_the_order_of_both_sides() {
    let mut merged = collection(&["a", "b"], &[1]);
    merged.append(collection(&["c"], &[2, 3]));
    assert_eq!(merged, collection(&["a", "b", "c"], &[1, 2, 3]));
}

#[test]
fn merging_is_associative() {
    let first = || collection(&["a"], &[1, 2]);
    let second = || collection(&["b", "c"], &[]);
    let third = || collection(&[], &[3]);

    let mut left = first();
    left.append(second());
    left.append(third());

    let mut tail = second();
    tail.append(third());
    let mut right = first();
    right.append(tail);

    assert_eq!(left, right);
    assert_eq!(left, collection(&["a", "b", "c"], &[1, 2, 3]));
}

#[test]
fn merging_with_nothing_changes_nothing() {
    let mut merged = collection(&["a"], &[1]);
    merged.append(Diagnostics::new());
    assert_eq!(merged, collection(&["a"], &[1]));
    let mut other = Diagnostics::new();
    other.append(collection(&["a"], &[1]));
    assert_eq!(other, collection(&["a"], &[1]));
}
