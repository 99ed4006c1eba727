use executor::context::{build_batch, guest_args, run_report, ContextError, WasmRuntime};
use executor::messages::{decimal_string, error_text, executed_text, not_found_text, not_found_texts};
use executor::registry::RuntimeRegistry;

#[test]
fn decimal_of_small_and_large_numbers() {
    assert_eq!(decimal_string(0), "0");
    assert_eq!(decimal_string(7), "7");
    assert_eq!(decimal_string(10), "10");
    assert_eq!(decimal_string(305), "305");
    assert_eq!(decimal_string(usize::MAX), usize::MAX.to_string());
}

#[test]
fn status_texts() {
    assert_eq!(executed_text(3), "Runtime 3 executed!");
    assert_eq!(not_found_text(12), "Runtime 12 not found");
    assert_eq!(error_text(4, "trap"), "Runtime 4 error: trap");
}

#[test]
fn guest_receives_its_id() {
    assert_eq!(guest_args(42), vec!["42".to_string()]);
    assert_eq!(guest_args(0), vec!["0".to_string()]);
}

#[test]
fn report_of_success_and_failure() {
    let ok: Result<String, ContextError> = Ok("Runtime 1 executed!".to_string());
    assert_eq!(run_report(1, &ok), "Runtime 1 executed!");
    let failed: Result<String, ContextError> = Err(ContextError::Execution("no _start".to_string()));
    assert_eq!(run_report(5, &failed), "Runtime 5 error: no _start");
}

#[test]
fn error_cause_of_each_kind() {
    assert_eq!(ContextError::Load("a".to_string()).cause(), "a");
    assert_eq!(ContextError::Link("b".to_string()).cause(), "b");
    assert_eq!(ContextError::Instantiate("c".to_string()).cause(), "c");
    assert_eq!(ContextError::Execution("d".to_string()).cause(), "d");
}

#[test]
fn unreadable_artifact_is_a_load_error() {
    match WasmRuntime::new(0, "/nonexistent/dir/module.wasm", &Vec::new()) {
        Err(ContextError::Load(cause)) => assert!(!cause.is_empty()),
        Err(_) => panic!("expected a load error"),
        Ok(_) => panic!("expected a failure"),
    }
}

#[test]
fn create_with_unreadable_artifact_creates_nothing() {
    let mut reg: RuntimeRegistry<WasmRuntime> = RuntimeRegistry::new();
    let start = reg.next_id();
    let mut failures = 0;
    let mut built: Vec<Option<WasmRuntime>> = Vec::new();
    for i in 0..2 {
        match WasmRuntime::new(start + i, "/nonexistent/dir/module.wasm", &Vec::new()) {
            Ok(rt) => built.push(Some(rt)),
            Err(_) => {
                failures += 1;
                built.push(None);
            }
        }
    }
    let summary = reg.add_batch(start, built);
    assert_eq!(summary.created, 0);
    assert_eq!(summary.total, 0);
    assert_eq!(failures, 2);
}

#[test]
fn not_found_texts_follow_request_order() {
    assert_eq!(
        not_found_texts(&vec![4, 0]),
        vec!["Runtime 4 not found".to_string(), "Runtime 0 not found".to_string()]
    );
    assert!(not_found_texts(&Vec::new()).is_empty());
}

#[test]
fn batch_from_unreadable_artifact_fails_every_slot() {
    let built = build_batch(5, 3, "/nonexistent/dir/module.wasm", &vec![("KEY".to_string(), "value".to_string())]);
    assert_eq!(built.len(), 3);
    assert!(built.iter().all(|b| matches!(b, Err(ContextError::Load(_)))));
    assert!(build_batch(0, 0, "/nonexistent/dir/module.wasm", &Vec::new()).is_empty());
}
