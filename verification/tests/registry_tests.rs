use test_manager::errors::PipelineError;
use test_manager::registry::{get_filtered_tests, list_test_rows, TestDescriptor};

fn registry_ab() -> Vec<TestDescriptor> {
    vec![
        TestDescriptor { name: "test_a".to_string(), priority: Some(5) },
        TestDescriptor { name: "test_b".to_string(), priority: Some(1) },
    ]
}

#[test]
fn empty_filter_yields_full_registry_in_registry_order() {
    let reg = registry_ab();
    let resolved = get_filtered_tests(&reg, &Vec::new()).expect("empty filter resolves");
    assert_eq!(resolved.len(), 2);
    assert_eq!(resolved[0].name, "test_a");
    assert_eq!(resolved[1].name, "test_b");
}

#[test]
fn filter_order_is_respected_over_registry_order() {
    let reg = registry_ab();
    let filters = vec!["test_b".to_string(), "test_a".to_string()];
    let resolved = get_filtered_tests(&reg, &filters).expect("both names registered");
    assert_eq!(resolved.len(), 2);
    assert_eq!(resolved[0].name, "test_b");
    assert_eq!(resolved[1].name, "test_a");
}

#[test]
fn filter_length_matches_filter_even_with_repeats() {
    let reg = registry_ab();
    let filters = vec!["test_a".to_string(), "test_a".to_string(), "test_b".to_string()];
    let resolved = get_filtered_tests(&reg, &filters).expect("all names registered");
    assert_eq!(resolved.len(), 3);
    assert_eq!(resolved[0].name, "test_a");
    assert_eq!(resolved[1].name, "test_a");
    assert_eq!(resolved[2].name, "test_b");
}

#[test]
fn unknown_filter_name_fails_resolution() {
    let reg = registry_ab();
    let filters = vec!["test_b".to_string(), "test_zzz".to_string()];
    match get_filtered_tests(&reg, &filters) {
        Err(PipelineError::UnknownTest(name)) => assert_eq!(name, "test_zzz"),
        other => panic!("expected UnknownTest, got {:?}", other),
    }
}

#[test]
fn listing_rows_are_verbatim_and_unsorted_by_priority() {
    let reg = registry_ab();
    let rows = list_test_rows(&reg);
    assert_eq!(rows.len(), 2);
    assert_eq!(rows[0], "5\ttest_a");
    assert_eq!(rows[1], "1\ttest_b");
}

#[test]
fn listing_row_priority_defaults_to_zero() {
    let reg = vec![TestDescriptor { name: "test_c".to_string(), priority: None }];
    let rows = list_test_rows(&reg);
    assert_eq!(rows, vec!["0\ttest_c".to_string()]);
}
