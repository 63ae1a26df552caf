use money_example::xunit::{TestCase, TestData, TestRunner, TestValue};

fn was_run(_: &TestData, test_data: &mut TestData) {
    test_data.insert("was_run".into(), true.into());
}

fn fill(fixture: &mut TestData) {
    fixture.insert("ready".into(), TestValue::Bool(true));
}

fn copy_ready(fixture: &TestData, test_data: &mut TestData) {
    let seen = fixture.get("ready").is_some();
    test_data.insert("saw_ready".into(), seen.into());
}

#[test]
fn run_records_what_the_test_inserts() {
    let mut test = TestRunner::new(TestCase { setup: |_| {}, run: was_run });
    assert_eq!(test.get("was_run"), None);
    test.run();
    assert_eq!(test.get("was_run"), Some(&true.into()));
}

#[test]
fn a_new_runner_has_no_results() {
    let test = TestRunner::new(TestCase { setup: fill, run: was_run });
    assert_eq!(test.get("was_run"), None);
    assert_eq!(test.get("ready"), None);
    assert_eq!(test.get(""), None);
}

#[test]
fn setup_alone_records_nothing() {
    let mut test = TestRunner::new(TestCase { setup: fill, run: copy_ready });
    test.setup();
    assert_eq!(test.get("ready"), None);
    assert_eq!(test.get("saw_ready"), None);
}

#[test]
fn run_reads_the_fixture_that_setup_filled() {
    let mut test = TestRunner::new(TestCase { setup: fill, run: copy_ready });
    test.setup();
    test.run();
    assert_eq!(test.get("saw_ready"), Some(&TestValue::Bool(true)));
}

#[test]
fn run_without_setup_sees_an_empty_fixture() {
    let mut test = TestRunner::new(TestCase { setup: fill, run: copy_ready });
    test.run();
    assert_eq!(test.get("saw_ready"), Some(&TestValue::Bool(false)));
}

#[test]
fn a_test_value_holds_its_truth_value() {
    assert_eq!(TestValue::from(true), TestValue::Bool(true));
    assert_eq!(TestValue::from(false), TestValue::Bool(false));
    assert_ne!(TestValue::from(true), TestValue::from(false));
}
