use rustrict::{ConstraintError, HaveSize, RustrictScope, StringScope};

fn messages(errors: &[ConstraintError]) -> Vec<String> {
    errors.iter().map(|e| e.message()).collect()
}

#[test]
fn should_add_a_success_or_failure_to_the_scope() {}

#[test]
fn test_validates_a_failed_constraint() {
    let mut session = RustrictScope::new();
    session.validate_string("Test", |scope| {
        scope.must("Test", |value: &&str| *value == "Not Test");
    });
    let results = session.results();
    assert!(results == vec![Err(ConstraintError::new(|| "Test".to_string()))]);
}

#[test]
fn test_can_be_converted_to_string() {
    for message in ["", "label", "with spaces"] {
        let scope: StringScope<rustrict::NoGenerator> = StringScope::new(message.to_string());
        assert_eq!(scope.to_string(), format!("StringScope({})", message));
    }
}

#[test]
fn checks_are_recorded_in_the_order_issued() {
    let mut session = RustrictScope::new();
    session.validate_string("size", |scope| {
        scope.must(vec![1u8, 2], HaveSize::with_exact_size(2));
        scope.must(vec![1u8], HaveSize::with_exact_size(2));
        scope.must_not(vec![1u8, 2], HaveSize::with_exact_size(2));
        scope.must_not(vec![1u8], HaveSize::with_exact_size(2));
    });
    let results = session.results();
    assert_eq!(results.len(), 4);
    assert!(results[0].is_ok());
    assert!(results[1].is_err());
    assert!(results[2].is_err());
    assert!(results[3].is_ok());
    assert_eq!(messages(&session.failures()), vec!["size", "size"]);
}

#[test]
fn ad_hoc_constraint_records_the_label_on_failure() {
    let mut session = RustrictScope::new();
    session.validate_string("ad hoc", |scope| {
        scope.constraint(|| 1 + 1 == 2);
        scope.constraint(|| false);
    });
    let results = session.results();
    assert_eq!(results.len(), 2);
    assert!(results[0].is_ok());
    assert_eq!(results[1].as_ref().unwrap_err().message(), "ad hoc");
}

#[test]
fn failures_keep_only_errors_in_order() {
    let mut session = RustrictScope::new();
    session.validate_string("first", |scope| {
        scope.must(3, |v: &i32| *v > 5);
        scope.must(7, |v: &i32| *v > 5);
    });
    session.validate_string("second", |scope| {
        scope.must_not(7, |v: &i32| *v > 5);
        scope.must_not(3, |v: &i32| *v > 5);
    });
    let results = session.results();
    let failures = session.failures();
    assert_eq!(results.len(), 4);
    assert_eq!(failures.len(), results.iter().filter(|r| r.is_err()).count());
    assert_eq!(messages(&failures), vec!["first", "second"]);
}

#[test]
fn a_new_session_is_empty() {
    let session = RustrictScope::new();
    assert!(session.results().is_empty());
    assert!(session.failures().is_empty());
}

#[test]
fn custom_exception_generator_replaces_the_constraints_error() {
    let mut session = RustrictScope::new();
    session.validate_string_with_custom_exception(
        "label",
        |label: String| ConstraintError::new(move || format!("custom: {}", label)),
        |scope| {
            scope.must(vec![1u8], HaveSize::with_exact_size(3));
            scope.must(2, |v: &i32| *v == 2);
            scope.must_not(2, |v: &i32| *v == 2);
        },
    );
    let results = session.results();
    assert_eq!(results.len(), 3);
    assert!(results[1].is_ok());
    assert_eq!(messages(&session.failures()), vec!["custom: label", "custom: label"]);
}

#[test]
fn scopes_append_after_earlier_outcomes() {
    let mut session = RustrictScope::new();
    session.validate_string("one", |scope| scope.constraint(|| false));
    session.validate_string("two", |_scope| {});
    session.validate_string("three", |scope| scope.constraint(|| false));
    assert_eq!(messages(&session.failures()), vec!["one", "three"]);
}

#[test]
fn plain_predicates_are_checked_like_constraints() {
    let mut session = RustrictScope::new();
    session.validate_string("Test", |scope| {
        scope.must_hold("Test", |value: &&str| *value == "Not Test");
        scope.must_hold("Test", |value: &&str| *value == "Test");
        scope.must_not_hold(4, |value: &i32| *value == 4);
        scope.must_not_hold(5, |value: &i32| *value == 4);
    });
    let results = session.results();
    assert_eq!(results.len(), 4);
    assert!(results[1].is_ok());
    assert!(results[3].is_ok());
    assert_eq!(messages(&session.failures()), vec!["Test", "Test"]);
}

#[test]
fn plain_predicates_use_the_custom_generator() {
    let mut session = RustrictScope::new();
    session.validate_string_with_custom_exception(
        "g",
        |label: String| ConstraintError::new(move || format!("<{}>", label)),
        |scope| scope.must_hold(1, |value: &i32| *value > 1),
    );
    assert_eq!(messages(&session.failures()), vec!["<g>"]);
}

#[test]
fn a_scope_gives_up_its_entries_in_order() {
    let mut scope: StringScope<rustrict::NoGenerator> = StringScope::new("own".to_string());
    scope.must(vec![1u8], HaveSize::with_exact_size(1));
    scope.constraint(|| false);
    let entries = scope.into_results();
    assert_eq!(entries.len(), 2);
    assert!(entries[0].is_ok());
    assert_eq!(entries[1].as_ref().unwrap_err().message(), "own");
}
