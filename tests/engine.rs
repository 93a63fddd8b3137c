use bcos_wasm::driver::{verify_contract, Action, EntryPoint, Event, Execution, Phase};
use bcos_wasm::env::{out_of_gas, host_trap, CallKind, EnvironmentInterface, Message, Trap, MAX_STORAGE_VALUE};
use bcos_wasm::memory::{read_range, write_range, HostError};
use bcos_wasm::result::{complete, ExecutionResult, StatusCode};
use bcos_wasm::{has_wasm_preamble, has_wasm_version, BcosWasm};

const VALID: [u8; 8] = [0x00, 0x61, 0x73, 0x6d, 0x01, 0x00, 0x00, 0x00];

fn finished(action: Action) -> ExecutionResult {
    match action {
        Action::Finish(r) => r,
        other => panic!("expected a result, got {:?}", other),
    }
}

fn assert_failure(action: Action, status: StatusCode) {
    let r = finished(action);
    assert_eq!(r.status, status);
    assert_eq!(r.gas_left, 0);
    assert!(r.output.is_none());
}

fn names(list: &[&str]) -> Vec<String> {
    list.iter().map(|s| s.to_string()).collect()
}

fn message(kind: CallKind, input: Vec<u8>) -> Message {
    Message {
        kind,
        sender: vec![0xaa; 20],
        destination: vec![0xbb; 20],
        origin: vec![0xcc; 20],
        input,
        gas: 1000,
    }
}

/// Drives a call up to the point where `main` is running.
fn running_call(code: &[u8]) -> Execution {
    let (mut ex, a) = Execution::start(code, CallKind::Call, true, false);
    assert!(matches!(a, Action::Compile));
    assert!(matches!(ex.step(Event::Compiled(names(&["memory", "main"]))), Action::Instantiate));
    assert!(matches!(ex.step(Event::Instantiated(true)), Action::CallEntry(EntryPoint::Main)));
    ex
}

/// Drives a deployment up to the point where `deploy` is running.
fn running_deploy(code: &[u8], host_alternate: bool, hash_type: i32) -> Execution {
    let (mut ex, a) = Execution::start(code, CallKind::Create, true, host_alternate);
    assert!(matches!(a, Action::Compile));
    let exports = names(&["memory", "main", "deploy", "hash_type"]);
    assert!(matches!(ex.step(Event::Compiled(exports)), Action::Instantiate));
    assert!(matches!(ex.step(Event::Instantiated(true)), Action::CallHashType));
    assert!(matches!(ex.step(Event::HashType(hash_type)), Action::CallEntry(EntryPoint::Deploy)));
    ex
}

#[test]
fn preamble_is_checked() {
    assert!(has_wasm_preamble(&VALID));
    assert!(has_wasm_preamble(&[0x00, 0x61, 0x73, 0x6d, 0x09, 0x09, 0x09, 0x09, 0x01]));
    assert!(!has_wasm_preamble(&[0x00, 0x61, 0x73, 0x6d]));
    assert!(!has_wasm_preamble(&[0x01, 0x61, 0x73, 0x6d, 0x01, 0x00, 0x00, 0x00]));
    assert!(!has_wasm_preamble(&[]));
}

#[test]
fn version_is_checked() {
    assert!(has_wasm_version(&VALID, 1));
    assert!(!has_wasm_version(&VALID, 2));
    assert!(!has_wasm_version(&[0x00, 0x61, 0x73, 0x6d, 0x01, 0x00, 0x00, 0x01], 1));
    assert!(!has_wasm_version(&[0x00, 0x61, 0x73, 0x6d, 0x01, 0x00, 0x00], 1));
}

#[test]
fn init_builds_the_vm() {
    assert_eq!(BcosWasm::init(), BcosWasm {});
}

#[test]
fn bad_magic_is_a_validation_failure() {
    for code in [vec![], vec![0x00, 0x61, 0x73], b"not wasm code".to_vec(), vec![0xff; 16]] {
        let (ex, a) = Execution::start(&code, CallKind::Call, true, false);
        assert_eq!(ex.phase, Phase::Done);
        assert_failure(a, StatusCode::ContractValidationFailure);
    }
    let (_, a) = Execution::start(b"garbage!", CallKind::Create, false, false);
    assert_failure(a, StatusCode::ContractValidationFailure);
}

#[test]
fn bad_version_is_a_validation_failure() {
    let code = [0x00, 0x61, 0x73, 0x6d, 0x02, 0x00, 0x00, 0x00];
    let (ex, a) = Execution::start(&code, CallKind::Call, true, false);
    assert_eq!(ex.phase, Phase::Done);
    assert_failure(a, StatusCode::ContractValidationFailure);
}

#[test]
fn missing_context_is_an_internal_error() {
    let (_, a) = Execution::start(&VALID, CallKind::Call, false, false);
    assert_failure(a, StatusCode::InternalError);
}

#[test]
fn compile_failure_is_a_validation_failure() {
    let (mut ex, _) = Execution::start(&VALID, CallKind::Call, true, false);
    assert_failure(ex.step(Event::CompileFailed), StatusCode::ContractValidationFailure);
}

#[test]
fn call_without_main_is_a_validation_failure() {
    let (mut ex, _) = Execution::start(&VALID, CallKind::Call, true, false);
    assert!(matches!(ex.step(Event::Compiled(names(&["memory"]))), Action::Instantiate));
    assert!(matches!(ex.step(Event::Instantiated(true)), Action::CallEntry(EntryPoint::Main)));
    assert_failure(ex.step(Event::EntryMissing), StatusCode::ContractValidationFailure);
}

#[test]
fn deployment_needs_main_and_deploy() {
    assert!(verify_contract(&names(&["memory", "deploy", "main"])));
    assert!(!verify_contract(&names(&["memory", "main"])));
    assert!(!verify_contract(&names(&["deploy"])));
    assert!(!verify_contract(&names(&["mai", "deploy2"])));
    assert!(!verify_contract(&vec![]));
    let (mut ex, _) = Execution::start(&VALID, CallKind::Create, true, false);
    assert_failure(
        ex.step(Event::Compiled(names(&["memory", "deploy"]))),
        StatusCode::ContractValidationFailure,
    );
}

#[test]
fn missing_memory_is_a_validation_failure() {
    let (mut ex, _) = Execution::start(&VALID, CallKind::Call, true, false);
    ex.step(Event::Compiled(names(&["main"])));
    assert_failure(ex.step(Event::Instantiated(false)), StatusCode::ContractValidationFailure);
    let (mut ex, _) = Execution::start(&VALID, CallKind::Call, true, false);
    ex.step(Event::Compiled(names(&["main"])));
    assert_failure(ex.step(Event::InstantiateFailed), StatusCode::ContractValidationFailure);
}

#[test]
fn hash_type_mismatch_is_a_validation_failure() {
    let exports = names(&["memory", "main", "deploy", "hash_type"]);
    for (host_alternate, value) in [(true, 0), (false, 1), (true, 7)] {
        let (mut ex, _) = Execution::start(&VALID, CallKind::Create, true, host_alternate);
        ex.step(Event::Compiled(exports.clone()));
        assert!(matches!(ex.step(Event::Instantiated(true)), Action::CallHashType));
        assert_failure(ex.step(Event::HashType(value)), StatusCode::ContractValidationFailure);
    }
    running_deploy(&VALID, true, 1);
    running_deploy(&VALID, false, 0);
    running_deploy(&VALID, false, 5);
}

#[test]
fn hash_type_trap_is_fatal() {
    let (mut ex, _) = Execution::start(&VALID, CallKind::Create, true, false);
    ex.step(Event::Compiled(names(&["memory", "main", "deploy"])));
    ex.step(Event::Instantiated(true));
    assert_failure(ex.step(Event::HashTypeFailed), StatusCode::WasmTrap);
}

#[test]
fn finish_then_return_succeeds_with_output_and_gas() {
    let mut env = EnvironmentInterface::new(message(CallKind::Call, vec![1, 2, 3]));
    let mem: Vec<u8> = (0..64u8).collect();
    assert_eq!(env.finish(&mem, 10, 4), Ok(()));
    let mut ex = running_call(&VALID);
    let r = finished(ex.step(env.returned(777)));
    assert_eq!(r.status, StatusCode::Success);
    assert_eq!(r.gas_left, 777);
    assert_eq!(r.output, Some(vec![10, 11, 12, 13]));
}

#[test]
fn return_without_finish_succeeds_with_empty_output() {
    let env = EnvironmentInterface::new(message(CallKind::Call, vec![]));
    let mut ex = running_call(&VALID);
    let r = finished(ex.step(env.returned(5)));
    assert_eq!(r.status, StatusCode::Success);
    assert_eq!(r.gas_left, 5);
    assert_eq!(r.output, Some(vec![]));
}

#[test]
fn revert_then_return_reports_no_gas() {
    let mut env = EnvironmentInterface::new(message(CallKind::Call, vec![]));
    let mem: Vec<u8> = (0..64u8).collect();
    assert_eq!(env.finish(&mem, 0, 2), Ok(()));
    assert_eq!(env.revert(&mem, 60, 4), Ok(()));
    assert!(env.reverted);
    let mut ex = running_call(&VALID);
    let r = finished(ex.step(env.returned(900)));
    assert_eq!(r.status, StatusCode::Revert);
    assert_eq!(r.gas_left, 0);
    assert_eq!(r.output, Some(vec![60, 61, 62, 63]));
}

#[test]
fn deployment_returns_the_code() {
    let code: Vec<u8> = VALID.iter().copied().chain([0x05, 0x06]).collect();
    let mut env = EnvironmentInterface::new(message(CallKind::Create, vec![]));
    let mem = vec![9u8; 16];
    env.finish(&mem, 0, 3).unwrap();
    let mut ex = running_deploy(&code, false, 0);
    let r = finished(ex.step(env.returned(42)));
    assert_eq!(r.status, StatusCode::Success);
    assert_eq!(r.gas_left, 42);
    assert_eq!(r.output, Some(code));
}

#[test]
fn entry_trap_is_fatal() {
    let mut ex = running_call(&VALID);
    assert_failure(ex.step(Event::EntryTrapped), StatusCode::WasmTrap);
    let mut ex = running_deploy(&VALID, false, 0);
    assert_failure(ex.step(Event::EntryTrapped), StatusCode::WasmTrap);
}

#[test]
fn out_of_gas_always_traps() {
    assert_eq!(out_of_gas(), Err(Trap::OutOfGas));
    let mut ex = running_call(&VALID);
    assert_failure(ex.step(Event::EntryTrapped), StatusCode::WasmTrap);
}

#[test]
fn unexpected_event_is_an_internal_error() {
    let (mut ex, _) = Execution::start(&VALID, CallKind::Call, true, false);
    assert_failure(ex.step(Event::EntryTrapped), StatusCode::InternalError);
    let mut ex = running_call(&VALID);
    assert_failure(ex.step(Event::HashType(1)), StatusCode::InternalError);
}

#[test]
fn out_of_range_memory_is_refused_by_every_capability() {
    let mut env = EnvironmentInterface::new(message(CallKind::Call, vec![1, 2, 3]));
    let mut mem = vec![0u8; 32];
    let oob: Result<(), HostError> = Err(HostError::OutOfBounds);
    let oob_len: Result<u32, HostError> = Err(HostError::OutOfBounds);
    assert_eq!(env.finish(&mem, 30, 3), oob);
    assert_eq!(env.finish(&mem, u32::MAX, 2), oob);
    assert_eq!(env.revert(&mem, 33, 0), oob);
    assert!(!env.reverted && !env.finished);
    assert_eq!(env.get_address(&mut mem, 13), oob_len);
    assert_eq!(env.get_caller(&mut mem, 20), oob_len);
    assert_eq!(env.get_tx_origin(&mut mem, 31), oob_len);
    assert_eq!(env.get_call_data(&mut mem, 30), oob);
    assert_eq!(env.set_storage(&mem, 0, 4, 30, 4).map(|_| ()), Err(HostError::OutOfBounds));
    assert_eq!(env.set_storage(&mem, 40, 1, 0, 4).map(|_| ()), Err(HostError::OutOfBounds));
    assert_eq!(env.storage_key(&mem, 16, 17), Err(HostError::OutOfBounds));
    assert_eq!(env.get_storage(&mut mem, 30, &[1, 2, 3]), oob_len);
    assert_eq!(env.code_size_address(&mem, 20, 13), Err(HostError::OutOfBounds));
    assert_eq!(env.log(&mem, 0, 33, 0, 0, 0, 0, 0).map(|_| ()), Err(HostError::OutOfBounds));
    assert_eq!(env.log(&mem, 0, 1, 1, 1, 0, 0, 0).map(|_| ()), Err(HostError::OutOfBounds));
    assert_eq!(env.call(&mem, 0, 20, 31, 2).map(|_| ()), Err(HostError::OutOfBounds));
    env.call_finished(0, vec![7; 8]).unwrap();
    assert_eq!(env.get_return_data(&mut mem, 25), Err(HostError::OutOfBounds));
    assert_eq!(mem, vec![0u8; 32]);
    assert_eq!(host_trap(HostError::OutOfBounds), Trap::Host(HostError::OutOfBounds));
}

#[test]
fn address_capabilities_write_the_message_fields() {
    let env = EnvironmentInterface::new(message(CallKind::Call, vec![4, 5, 6]));
    let mut mem = vec![0u8; 64];
    assert_eq!(env.get_address(&mut mem, 1), Ok(20));
    assert_eq!(mem[0], 0);
    assert_eq!(&mem[1..21], &[0xbb; 20]);
    assert_eq!(mem[21], 0);
    assert_eq!(env.get_caller(&mut mem, 0), Ok(20));
    assert_eq!(&mem[0..20], &[0xaa; 20]);
    assert_eq!(env.get_tx_origin(&mut mem, 44), Ok(20));
    assert_eq!(&mem[44..64], &[0xcc; 20]);
    assert_eq!(env.get_call_data_size(), 3);
    assert_eq!(env.get_call_data(&mut mem, 30), Ok(()));
    assert_eq!(&mem[30..33], &[4, 5, 6]);
}

#[test]
fn storage_capabilities_read_and_cap() {
    let env = EnvironmentInterface::new(message(CallKind::Call, vec![]));
    let mut mem: Vec<u8> = (0..16u8).collect();
    let entry = env.set_storage(&mem, 2, 3, 8, 4).unwrap();
    assert_eq!(entry.key, vec![2, 3, 4]);
    assert_eq!(entry.value, vec![8, 9, 10, 11]);
    assert_eq!(env.storage_key(&mem, 0, 2), Ok(vec![0, 1]));
    assert_eq!(env.get_storage(&mut mem, 4, &[0xee, 0xef]), Ok(2));
    assert_eq!(&mem[3..7], &[3, 0xee, 0xef, 6]);
    assert_eq!(env.get_storage(&mut mem, 16, &[]), Ok(0));
}

#[test]
fn storage_value_is_capped_at_the_maximum() {
    let env = EnvironmentInterface::new(message(CallKind::Call, vec![]));
    let value: Vec<u8> = (0..20000u32).map(|i| (i % 251) as u8).collect();
    let mut mem = vec![0u8; 20000];
    assert_eq!(MAX_STORAGE_VALUE, 16384);
    assert_eq!(env.get_storage(&mut mem, 100, &value), Ok(16384));
    assert_eq!(&mem[100..16484], &value[..16384]);
    assert!(mem[16484..].iter().all(|b| *b == 0));
    assert!(mem[..100].iter().all(|b| *b == 0));
    let mut small = vec![0u8; 16384];
    assert_eq!(env.get_storage(&mut small, 0, &value), Ok(16384));
    let mut exact = vec![0u8; 16400];
    assert_eq!(env.get_storage(&mut exact, 16, &value[..16384]), Ok(16384));
    let mut short = vec![0u8; 16383];
    assert_eq!(env.get_storage(&mut short, 0, &value), Err(HostError::OutOfBounds));
}

#[test]
fn log_reads_data_and_topics() {
    let env = EnvironmentInterface::new(message(CallKind::Call, vec![]));
    let mem: Vec<u8> = (0..128u8).collect();
    let rec = env.log(&mem, 1, 2, 2, 64, 0, 127, 127).unwrap();
    assert_eq!(rec.data, vec![1, 2]);
    assert_eq!(rec.topics.len(), 2);
    assert_eq!(rec.topics[0], (64..96u8).collect::<Vec<u8>>());
    assert_eq!(rec.topics[1], (0..32u8).collect::<Vec<u8>>());
    let none = env.log(&mem, 0, 0, 0, 999, 999, 999, 999).unwrap();
    assert!(none.data.is_empty() && none.topics.is_empty());
    assert_eq!(env.log(&mem, 0, 0, 5, 0, 0, 0, 0).map(|_| ()), Err(HostError::InvalidTopicCount));
    assert_eq!(env.log(&mem, 0, 0, -1, 0, 0, 0, 0).map(|_| ()), Err(HostError::InvalidTopicCount));
    assert_eq!(env.log(&mem, 0, 0, 4, 0, 0, 0, 97).map(|_| ()), Err(HostError::OutOfBounds));
}

#[test]
fn nested_call_keeps_return_data_and_traps_on_failure() {
    let mut env = EnvironmentInterface::new(message(CallKind::Call, vec![]));
    let mut mem: Vec<u8> = (0..32u8).collect();
    let req = env.call(&mem, 0, 4, 10, 3).unwrap();
    assert_eq!(req.address, vec![0, 1, 2, 3]);
    assert_eq!(req.data, vec![10, 11, 12]);
    assert_eq!(env.call_finished(0, vec![5, 6]), Ok(()));
    assert_eq!(env.get_return_data_size(), 2);
    assert_eq!(env.get_return_data(&mut mem, 30), Ok(()));
    assert_eq!(&mem[30..32], &[5, 6]);
    assert_eq!(env.call_finished(1, vec![9]), Err(Trap::CallFailed));
    assert_eq!(env.get_return_data_size(), 1);
}

#[test]
fn memory_transfers_are_exact() {
    let mut mem = vec![0u8; 8];
    assert_eq!(write_range(&mut mem, 6, &[1, 2]), Ok(()));
    assert_eq!(mem, vec![0, 0, 0, 0, 0, 0, 1, 2]);
    assert_eq!(write_range(&mut mem, 7, &[1, 2]), Err(HostError::OutOfBounds));
    assert_eq!(read_range(&mem, 5, 3), Ok(vec![0, 1, 2]));
    assert_eq!(read_range(&mem, 8, 0), Ok(vec![]));
    assert_eq!(read_range(&mem, 9, 0), Err(HostError::OutOfBounds));
}

#[test]
fn completion_maps_terminal_state() {
    let r = complete(false, &VALID, false, vec![1], vec![2], 10);
    assert_eq!((r.status, r.gas_left, r.output), (StatusCode::Success, 10, Some(vec![2])));
    let r = complete(true, &VALID, false, vec![1], vec![2], 10);
    assert_eq!((r.status, r.gas_left, r.output), (StatusCode::Success, 10, Some(VALID.to_vec())));
    let r = complete(true, &VALID, true, vec![1], vec![2], 10);
    assert_eq!((r.status, r.gas_left, r.output), (StatusCode::Revert, 0, Some(vec![1])));
    let r = ExecutionResult::failure(StatusCode::WasmTrap);
    assert_eq!((r.status, r.gas_left, r.output), (StatusCode::WasmTrap, 0, None));
}

#[test]
fn compile_uses_the_engine() {
    let engine = wasmtime::Engine::default();
    let (mut ex, _) = Execution::start(&VALID, CallKind::Call, true, false);
    let (a, module) = ex.compile(&engine);
    assert!(module.is_some());
    assert!(matches!(a, Action::Instantiate));
    assert_eq!(ex.phase, Phase::Instantiating);

    let (mut ex, _) = Execution::start(&VALID, CallKind::Create, true, false);
    let (a, module) = ex.compile(&engine);
    assert!(module.is_some());
    assert_failure(a, StatusCode::ContractValidationFailure);

    let broken: Vec<u8> = VALID.iter().copied().chain([0x01, 0xff, 0xff]).collect();
    let (mut ex, _) = Execution::start(&broken, CallKind::Call, true, false);
    let (a, module) = ex.compile(&engine);
    assert!(module.is_none());
    assert_failure(a, StatusCode::ContractValidationFailure);
}
