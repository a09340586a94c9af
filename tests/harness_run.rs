use imagi::error::PipelineError;
use imagi::harness::{compile_outcome, TestRunResult};

#[test]
fn failing_tests_still_yield_the_full_output() {
    let r = TestRunResult::capture("Tests run: 2, Failures: 1".to_string(), "trace".to_string(), Some(1));
    assert_eq!(r.combined_output, "Tests run: 2, Failures: 1\ntrace");
    assert_eq!(r.exit_status, Some(1));
    assert_eq!(r.display_output, "Tests run: 2, Failures: 1");
}

#[test]
fn standard_error_is_shown_when_output_is_empty() {
    let r = TestRunResult::capture(String::new(), "boom".to_string(), None);
    assert_eq!(r.combined_output, "\nboom");
    assert_eq!(r.display_output, "boom");
    assert_eq!(r.exit_status, None);
}

#[test]
fn compile_failure_is_a_compile_error() {
    assert_eq!(compile_outcome(false), Err(PipelineError::Compile));
    assert_eq!(compile_outcome(true), Ok(()));
}
