use evm_exec_core::execution::frame_return_with_refund_flag;
use evm_exec_core::frame::{CallOutcome, FrameResult};
use evm_exec_core::gas::Gas;
use evm_exec_core::interpreter::{InstructionResult, InterpreterResult, MemRange};
use evm_exec_core::primitives::{Env, SpecId, TxEnv};

/// Creates a frame result, settles it against a 100-gas transaction
/// and returns the settled gas.
fn call_last_frame_return(instruction_result: InstructionResult, gas: Gas) -> Gas {
    let mut env = Env::default();
    env.tx.gas_limit = 100;

    let mut first_frame = FrameResult::Call(CallOutcome::new(
        InterpreterResult {
            result: instruction_result,
            output: Vec::new(),
            gas,
        },
        MemRange { start: 0, end: 0 },
    ));
    frame_return_with_refund_flag(SpecId::Cancun, &env, &mut first_frame, true);
    first_frame.gas()
}

#[test]
fn test_consume_gas() {
    let gas = call_last_frame_return(InstructionResult::Stop, Gas::new(90));
    assert_eq!(gas.remaining(), 90);
    assert_eq!(gas.spend(), 10);
    assert_eq!(gas.refunded(), 0);
}

#[test]
fn test_consume_gas_with_refund() {
    let mut return_gas = Gas::new(90);
    return_gas.record_refund(30);

    let gas = call_last_frame_return(InstructionResult::Stop, return_gas);
    assert_eq!(gas.remaining(), 90);
    assert_eq!(gas.spend(), 10);
    assert_eq!(gas.refunded(), 2);

    let gas = call_last_frame_return(InstructionResult::Revert, return_gas);
    assert_eq!(gas.remaining(), 90);
    assert_eq!(gas.spend(), 10);
    assert_eq!(gas.refunded(), 0);
}

#[test]
fn test_revert_gas() {
    let gas = call_last_frame_return(InstructionResult::Revert, Gas::new(90));
    assert_eq!(gas.remaining(), 90);
    assert_eq!(gas.spend(), 10);
    assert_eq!(gas.refunded(), 0);
}

#[test]
fn test_error_forfeits_gas() {
    let gas = call_last_frame_return(InstructionResult::OutOfGas, Gas::new(90));
    assert_eq!(gas.remaining(), 0);
    assert_eq!(gas.spend(), 100);
    assert_eq!(gas.refunded(), 0);
}

fn settle(spec_id: SpecId, limit: u64, remaining: u64, refund: i64) -> Gas {
    let env = Env { tx: TxEnv { gas_limit: limit } };
    let mut gas = Gas::new(remaining);
    gas.record_refund(refund);
    let mut frame = FrameResult::Call(CallOutcome::new(
        InterpreterResult {
            result: InstructionResult::Stop,
            output: Vec::new(),
            gas,
        },
        MemRange { start: 0, end: 0 },
    ));
    frame_return_with_refund_flag(spec_id, &env, &mut frame, true);
    frame.gas()
}

#[test]
fn test_refund_cap_divisors() {
    // spend = 100 - 40 = 60: pre-London cap 30, London-or-later cap 12.
    let berlin = settle(SpecId::Berlin, 100, 40, 50);
    assert_eq!(berlin.refunded(), 30);
    let london = settle(SpecId::London, 100, 40, 50);
    assert_eq!(london.refunded(), 12);
    // A refund under both caps passes through whole.
    let small = settle(SpecId::Berlin, 100, 40, 7);
    assert_eq!(small.refunded(), 7);
    let small_london = settle(SpecId::London, 100, 40, 7);
    assert_eq!(small_london.refunded(), 7);
}

#[test]
fn test_record_cost_underflow_is_reported() {
    let mut gas = Gas::new(10);
    assert!(!gas.record_cost(11));
    assert_eq!(gas.remaining(), 10);
    assert!(gas.record_cost(4));
    assert_eq!(gas.remaining(), 6);
    assert_eq!(gas.spend(), 4);
}

#[test]
fn test_set_final_refund_idempotent() {
    let mut gas = Gas::new(100);
    assert!(gas.record_cost(60));
    gas.record_refund(50);
    gas.set_final_refund(SpecId::London);
    assert_eq!(gas.refunded(), 12);
    gas.set_final_refund(SpecId::London);
    assert_eq!(gas.refunded(), 12);
}
