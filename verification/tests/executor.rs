//! Tests for the in-memory executor: the run protocol, the input slot,
//! and observer orchestration.

use std::cell::{Cell, RefCell};

use fuzz_executor::{ExecError, ExitKind, InMemoryExecutor, Input, Observer};

/// An input with a fixed canonical byte form.
#[derive(Clone)]
struct NopInput {}

impl Input for NopInput {
    fn serialize(&self) -> Result<Vec<u8>, ExecError> {
        Ok(b"NOP".to_vec())
    }

    fn deserialize(&mut self, _buf: &[u8]) -> Result<(), ExecError> {
        Ok(())
    }
}

/// An input that carries its own byte form.
struct BytesInput {
    data: Vec<u8>,
}

impl Input for BytesInput {
    fn serialize(&self) -> Result<Vec<u8>, ExecError> {
        Ok(self.data.clone())
    }

    fn deserialize(&mut self, buf: &[u8]) -> Result<(), ExecError> {
        self.data = buf.to_vec();
        Ok(())
    }
}

/// An input with no canonical byte form: serialization always fails.
struct UnserializableInput {}

impl Input for UnserializableInput {
    fn serialize(&self) -> Result<Vec<u8>, ExecError> {
        Err(ExecError::SerializationFailure)
    }

    fn deserialize(&mut self, _buf: &[u8]) -> Result<(), ExecError> {
        Err(ExecError::SerializationFailure)
    }
}

/// An observer whose reset and post-exec steps always fail.
struct Nopserver {}

impl Observer for Nopserver {
    fn reset(&mut self) -> Result<(), ExecError> {
        Err(ExecError::ObserverFailure)
    }

    fn post_exec(&mut self) -> Result<(), ExecError> {
        Err(ExecError::ObserverFailure)
    }
}

/// An observer that counts its steps and fails with a configured error.
struct CountingObserver {
    fail_with: Option<ExecError>,
    reset_calls: u32,
    post_exec_calls: u32,
}

impl CountingObserver {
    fn ok() -> Self {
        CountingObserver { fail_with: None, reset_calls: 0, post_exec_calls: 0 }
    }

    fn failing(e: ExecError) -> Self {
        CountingObserver { fail_with: Some(e), reset_calls: 0, post_exec_calls: 0 }
    }

    fn outcome(&self) -> Result<(), ExecError> {
        match self.fail_with {
            Some(e) => Err(e),
            None => Ok(()),
        }
    }
}

impl Observer for CountingObserver {
    fn reset(&mut self) -> Result<(), ExecError> {
        self.reset_calls += 1;
        self.outcome()
    }

    fn post_exec(&mut self) -> Result<(), ExecError> {
        self.post_exec_calls += 1;
        self.outcome()
    }
}

fn test_harness_fn_nop(buf: Vec<u8>) -> ExitKind {
    println!("Fake exec with buf of len {}", buf.len());
    ExitKind::Normal
}

#[test]
fn test_inmem_post_exec() {
    let mut in_mem_executor =
        InMemoryExecutor::<NopInput, Nopserver, _>::new(test_harness_fn_nop);
    let nopserver = Nopserver {};
    in_mem_executor.add_observer(nopserver);
    assert_eq!(in_mem_executor.post_exec_observers().is_err(), true);
}

#[test]
fn test_inmem_exec() {
    let mut in_mem_executor =
        InMemoryExecutor::<NopInput, Nopserver, _>::new(test_harness_fn_nop);
    let input = NopInput {};
    assert!(in_mem_executor.place_input(Box::new(input)).is_ok());
    assert!(in_mem_executor.run_target().is_ok());
}

#[test]
fn test_place_input_replaces_previous() {
    let mut executor =
        InMemoryExecutor::<BytesInput, Nopserver, _>::new(|_b: Vec<u8>| ExitKind::Normal);
    assert!(executor.cur_input().is_none());

    assert!(executor.place_input(Box::new(BytesInput { data: b"AAA".to_vec() })).is_ok());
    assert_eq!(executor.cur_input().as_ref().unwrap().data, b"AAA".to_vec());

    // replacing discards the prior input entirely; nothing is merged
    assert!(executor.place_input(Box::new(BytesInput { data: b"BB".to_vec() })).is_ok());
    assert_eq!(executor.cur_input().as_ref().unwrap().data, b"BB".to_vec());
}

#[test]
fn test_run_target_without_input_fails_empty_state() {
    let invocations = Cell::new(0u32);
    let harness = |_b: Vec<u8>| {
        invocations.set(invocations.get() + 1);
        ExitKind::Normal
    };
    let mut executor = InMemoryExecutor::<NopInput, Nopserver, _>::new(harness);
    let result = executor.run_target();
    assert_eq!(result, Err(ExecError::EmptyState));
    // the harness was never invoked
    assert_eq!(invocations.get(), 0);
}

#[test]
fn test_run_target_serialization_failure_propagates() {
    let invocations = Cell::new(0u32);
    let harness = |_b: Vec<u8>| {
        invocations.set(invocations.get() + 1);
        ExitKind::Normal
    };
    let mut executor = InMemoryExecutor::<UnserializableInput, Nopserver, _>::new(harness);
    assert!(executor.place_input(Box::new(UnserializableInput {})).is_ok());
    let result = executor.run_target();
    assert_eq!(result, Err(ExecError::SerializationFailure));
    assert_eq!(invocations.get(), 0);
}

#[test]
fn test_run_target_invokes_harness_once_with_serialized_bytes() {
    let seen: RefCell<Vec<Vec<u8>>> = RefCell::new(Vec::new());
    let harness = |b: Vec<u8>| {
        seen.borrow_mut().push(b);
        ExitKind::Normal
    };
    let mut executor = InMemoryExecutor::<BytesInput, Nopserver, _>::new(harness);
    assert!(executor.place_input(Box::new(BytesInput { data: vec![1u8, 2, 3] })).is_ok());
    let result = executor.run_target();
    assert_eq!(result, Ok(ExitKind::Normal));
    // exactly one invocation, with exactly the serialized bytes
    assert_eq!(*seen.borrow(), vec![vec![1u8, 2, 3]]);
}

#[test]
fn test_run_target_returns_harness_outcome() {
    let mut executor =
        InMemoryExecutor::<NopInput, Nopserver, _>::new(|_b: Vec<u8>| ExitKind::Crash);
    assert!(executor.place_input(Box::new(NopInput {})).is_ok());
    assert_eq!(executor.run_target(), Ok(ExitKind::Crash));
}

#[test]
fn test_scenario_three_byte_input_survives_run() {
    // harness completes normally for any input
    let mut executor =
        InMemoryExecutor::<BytesInput, Nopserver, _>::new(|_b: Vec<u8>| ExitKind::Normal);
    assert!(executor.place_input(Box::new(BytesInput { data: vec![7u8, 8, 9] })).is_ok());
    assert_eq!(executor.run_target(), Ok(ExitKind::Normal));
    // the slot still holds the same three bytes afterward
    assert_eq!(executor.cur_input().as_ref().unwrap().data, vec![7u8, 8, 9]);
}

#[test]
fn test_reset_observers_all_invoked_first_error_wins() {
    let mut executor =
        InMemoryExecutor::<NopInput, CountingObserver, _>::new(|_b: Vec<u8>| ExitKind::Normal);
    executor.add_observer(CountingObserver::ok());
    executor.add_observer(CountingObserver::failing(ExecError::ObserverFailure));
    executor.add_observer(CountingObserver::failing(ExecError::ConfigurationFatal));
    executor.add_observer(CountingObserver::ok());

    // the first failure is surfaced, not the later one
    assert_eq!(executor.reset_observers(), Err(ExecError::ObserverFailure));
    // every observer's step still ran exactly once
    for observer in executor.observers() {
        assert_eq!(observer.reset_calls, 1);
        assert_eq!(observer.post_exec_calls, 0);
    }
}

#[test]
fn test_post_exec_observers_all_invoked_first_error_wins() {
    let mut executor =
        InMemoryExecutor::<NopInput, CountingObserver, _>::new(|_b: Vec<u8>| ExitKind::Normal);
    executor.add_observer(CountingObserver::failing(ExecError::ConfigurationFatal));
    executor.add_observer(CountingObserver::failing(ExecError::ObserverFailure));
    executor.add_observer(CountingObserver::ok());

    assert_eq!(executor.post_exec_observers(), Err(ExecError::ConfigurationFatal));
    for observer in executor.observers() {
        assert_eq!(observer.reset_calls, 0);
        assert_eq!(observer.post_exec_calls, 1);
    }
}

#[test]
fn test_observers_succeed_when_all_succeed() {
    let mut executor =
        InMemoryExecutor::<NopInput, CountingObserver, _>::new(|_b: Vec<u8>| ExitKind::Normal);
    executor.add_observer(CountingObserver::ok());
    executor.add_observer(CountingObserver::ok());
    assert_eq!(executor.reset_observers(), Ok(()));
    assert_eq!(executor.post_exec_observers(), Ok(()));
    assert_eq!(executor.observers().len(), 2);
}

#[test]
fn test_scenario_failing_observer_never_blocks_execution() {
    let mut executor =
        InMemoryExecutor::<NopInput, Nopserver, _>::new(|_b: Vec<u8>| ExitKind::Normal);
    executor.add_observer(Nopserver {});
    assert!(executor.post_exec_observers().is_err());
    assert!(executor.reset_observers().is_err());
    // observer failures never block a run
    assert!(executor.place_input(Box::new(NopInput {})).is_ok());
    assert_eq!(executor.run_target(), Ok(ExitKind::Normal));
}

#[test]
fn test_cur_input_mut_writes_land_in_slot() {
    let mut executor =
        InMemoryExecutor::<BytesInput, Nopserver, _>::new(|_b: Vec<u8>| ExitKind::Normal);
    assert!(executor.place_input(Box::new(BytesInput { data: vec![1u8] })).is_ok());
    match executor.cur_input_mut() {
        Some(input) => input.data = vec![4u8, 5],
        None => panic!("input slot must be occupied"),
    }
    assert_eq!(executor.cur_input().as_ref().unwrap().data, vec![4u8, 5]);
}

#[test]
fn test_deserialize_restores_input_state() {
    let mut input = BytesInput { data: Vec::new() };
    assert!(input.deserialize(&[9u8, 9]).is_ok());
    assert_eq!(input.serialize(), Ok(vec![9u8, 9]));
}
