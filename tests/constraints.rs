use rustrict::constraints::Constraint;
use rustrict::HaveSize;

#[test]
fn should_validate_collections_with_the_specified_size() {
    for size in [0usize, 1, 3, 10] {
        for len in [0usize, 1, 3, 4, 10] {
            let collection: Vec<u8> = vec![7; len];
            let constraint = HaveSize::with_exact_size(size);
            let result = constraint.validate(&collection);
            assert_eq!(result, collection.len() == size);
        }
    }
}

#[test]
fn exact_size_of_the_largest_size_rejects_small_collections() {
    let constraint = HaveSize::with_exact_size(usize::MAX);
    assert!(!constraint.validate(&Vec::<u8>::new()));
    assert!(!constraint.validate(&vec![1u8, 2, 3]));
}

#[test]
fn should_generate_an_exception_with_the_specified_description() {
    for (size, description) in [(0usize, ""), (5, "five"), (usize::MAX, "largest")] {
        let constraint = HaveSize::with_exact_size(size);
        let exception =
            <HaveSize<_> as Constraint<Vec<u8>>>::generate_exception(&constraint, description.to_string());
        assert_eq!(exception.message(), description);
    }
}

#[test]
fn should_validate_collections_with_the_specified_predicate() {
    let constraint = HaveSize::new(|size: usize| size > 0);
    for len in [1usize, 2, 99] {
        let collection: Vec<u8> = vec![0; len];
        assert!(constraint.validate(&collection));
    }
    assert!(!constraint.validate(&Vec::<u8>::new()));
}

#[test]
fn should_reject_collections_that_fail_the_predicate() {
    let constraint = HaveSize::new(|size: usize| size <= 5);
    let collection: Vec<u8> = vec![1, 2, 3, 4, 5, 6];
    assert!(!constraint.validate(&collection));
    assert!(constraint.validate(&vec![1u8, 2, 3, 4, 5]));
}

#[test]
fn predicate_constraint_echoes_its_description() {
    let constraint = |value: &i32| *value % 2 == 0;
    assert!(constraint.validate(&4));
    assert!(!constraint.validate(&3));
    let exception = Constraint::<i32>::generate_exception(&constraint, "must be even".to_string());
    assert_eq!(exception.message(), "must be even");
}

#[test]
fn validate_size_applies_a_plain_predicate() {
    let constraint = HaveSize::new(|size: usize| size % 2 == 0);
    assert!(constraint.validate_size(&vec![1u8, 2]));
    assert!(!constraint.validate_size(&vec![1u8, 2, 3]));
    assert!(constraint.validate_size(&Vec::<u8>::new()));
}
