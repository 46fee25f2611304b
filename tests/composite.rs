use rustrict::composite::{render, ERROR_KIND};
use rustrict::{contain, CompositeError, ConstraintError};

fn errors_of(messages: &[&str]) -> Vec<ConstraintError> {
    messages
        .iter()
        .map(|m| {
            let owned = m.to_string();
            ConstraintError::new(move || owned.clone())
        })
        .collect()
}

#[test]
fn composite_error_can_be_created_with_multiple_errors() {
    let messages = ["a", "Zb9", "message0", "x1y2z3", "LAST"];
    let exceptions = errors_of(&messages);
    let composite = CompositeError::new(exceptions.clone());
    let composite_errors = composite.errors();
    assert_eq!(composite_errors.len(), exceptions.len());
    for (composite_error, expected_error) in composite_errors.iter().zip(exceptions.iter()) {
        assert!(contain(expected_error.to_string()).matches(&composite_error.to_string()));
    }
}

#[test]
fn composite_error_can_be_created_with_a_single_error() {
    let message = "SingleError42";
    let exception = errors_of(&[message]).remove(0);
    let composite = CompositeError::new(vec![exception.clone()]);
    assert!(contain(exception.to_string()).matches(&composite.to_string()));
    let composite_error_strings: Vec<String> =
        composite.errors().iter().map(|e| e.to_string()).collect();
    let expected_error_strings: Vec<String> = vec![exception.to_string()];
    assert_eq!(composite_error_strings, expected_error_strings);
}

#[test]
fn single_error_is_rendered_on_its_own() {
    let composite = CompositeError::new(errors_of(&["boom"]));
    assert_eq!(
        composite.to_string(),
        format!("An error occurred -- [{}] boom", ERROR_KIND)
    );
}

#[test]
fn multiple_errors_are_rendered_in_order() {
    let composite = CompositeError::new(errors_of(&["first", "second", "third"]));
    let expected = format!(
        "Multiple errors occurred -- {{ [{k}] first }},\n{{ [{k}] second }},\n{{ [{k}] third }}",
        k = ERROR_KIND
    );
    assert_eq!(composite.to_string(), expected);
    assert_eq!(composite.to_string(), expected);
}

#[test]
fn render_lays_out_the_given_kind() {
    let one = vec!["m".to_string()];
    assert_eq!(render("K", &one), "An error occurred -- [K] m");
    let two = vec!["a".to_string(), "b".to_string()];
    assert_eq!(render("K", &two), "Multiple errors occurred -- { [K] a },\n{ [K] b }");
    let empty_messages = vec![String::new(), String::new()];
    assert_eq!(render("", &empty_messages), "Multiple errors occurred -- { []  },\n{ []  }");
}

#[test]
fn contain_matches_substrings_only() {
    let expectation = contain("needle".to_string());
    assert_eq!(expectation.value(), "needle");
    assert!(expectation.matches(&"haystack with a needle in it".to_string()));
    assert!(!expectation.matches(&"haystack".to_string()));
    assert!(!expectation.matches(&"needl".to_string()));
    assert!(contain(String::new()).matches(&String::new()));
}

#[test]
fn composite_names_the_std_error_type() {
    let composite = CompositeError::new(errors_of(&["Error 1", "Error 2"]));
    assert_eq!(
        composite.to_string(),
        "Multiple errors occurred -- { [dyn core::error::Error] Error 1 },\n{ [dyn core::error::Error] Error 2 }"
    );
}
