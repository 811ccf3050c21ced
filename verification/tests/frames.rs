use evm_exec_core::context::{EvmContext, CALL_STACK_LIMIT};
use evm_exec_core::execution;
use evm_exec_core::frame::{CallInputs, CallOutcome, CreateInputs, Frame, FrameOrResult,
    FrameResult};
use evm_exec_core::gas::Gas;
use evm_exec_core::interpreter::{InstructionResult, InterpreterResult, MemRange, SharedMemory};
use evm_exec_core::journal::{JournalEntry, Log};
use evm_exec_core::primitives::{Address, Env, SpecId, TxEnv};

fn address_from(text: &str) -> Address {
    Address::new(text.as_bytes().to_vec())
}

fn call_inputs(gas_limit: u64, range: MemRange) -> CallInputs {
    CallInputs {
        caller: address_from("aa"),
        target: address_from("bb"),
        value: 0,
        input: Vec::new(),
        gas_limit,
        return_memory_range: range,
    }
}

#[test]
fn test_call_past_depth_limit_resolves_immediately() {
    let mut ctx = EvmContext::new(Env { tx: TxEnv { gas_limit: 100 } });
    for _ in 0..(CALL_STACK_LIMIT + 1) {
        let opened = execution::call(&mut ctx, call_inputs(10, MemRange { start: 0, end: 0 }));
        assert!(matches!(opened, FrameOrResult::Frame(_)));
    }
    let too_deep = execution::call(&mut ctx, call_inputs(10, MemRange { start: 0, end: 0 }));
    match too_deep {
        FrameOrResult::Result(FrameResult::Call(outcome)) => {
            assert_eq!(outcome.result.result, InstructionResult::CallTooDeep);
            assert_eq!(outcome.result.gas.remaining(), 10);
        },
        _ => panic!("past the depth limit the call resolves without a frame"),
    }
}

#[test]
fn test_create_derives_address_and_bumps_nonce() {
    let mut ctx = EvmContext::new(Env { tx: TxEnv { gas_limit: 100 } });
    let inputs = CreateInputs {
        caller: address_from("aa"),
        value: 0,
        init_code: vec![0x60, 0x00],
        gas_limit: 50,
    };
    let opened = execution::create(&mut ctx, inputs);
    match opened {
        FrameOrResult::Frame(Frame::Create(f)) => {
            let mut expected = "aa".as_bytes().to_vec();
            expected.push(0);
            assert_eq!(f.created_address.bytes, expected);
        },
        _ => panic!("the creation must open a frame"),
    }
    assert_eq!(ctx.journaled_state.nonce, 1);
}

#[test]
fn test_revert_undoes_logs_and_journal() {
    let mut ctx = EvmContext::new(Env { tx: TxEnv { gas_limit: 100 } });
    let opened = execution::call(&mut ctx, call_inputs(10, MemRange { start: 0, end: 0 }));
    let frame = match opened {
        FrameOrResult::Frame(Frame::Call(f)) => f,
        _ => panic!("the call must open a frame"),
    };
    ctx.journaled_state.append_log(Log { address: address_from("aa"), data: vec![1] });
    ctx.journaled_state.append_entry(JournalEntry::StorageChanged { address: address_from("aa") });
    assert_eq!(ctx.journaled_state.logs.len(), 1);

    let reverted = InterpreterResult {
        result: InstructionResult::Revert,
        output: Vec::new(),
        gas: Gas::new(10),
    };
    let outcome = execution::call_return(&mut ctx, frame, reverted);
    assert_eq!(outcome.result.result, InstructionResult::Revert);
    assert_eq!(ctx.journaled_state.logs.len(), 0);
    assert_eq!(ctx.journaled_state.journal.len(), 0);
    assert_eq!(ctx.journaled_state.depth(), 0);
}

#[test]
fn test_commit_keeps_logs() {
    let mut ctx = EvmContext::new(Env { tx: TxEnv { gas_limit: 100 } });
    let opened = execution::call(&mut ctx, call_inputs(10, MemRange { start: 0, end: 0 }));
    let frame = match opened {
        FrameOrResult::Frame(Frame::Call(f)) => f,
        _ => panic!("the call must open a frame"),
    };
    ctx.journaled_state.append_log(Log { address: address_from("aa"), data: vec![1] });
    let stopped = InterpreterResult {
        result: InstructionResult::Stop,
        output: Vec::new(),
        gas: Gas::new(10),
    };
    let _ = execution::call_return(&mut ctx, frame, stopped);
    assert_eq!(ctx.journaled_state.logs.len(), 1);
    assert_eq!(ctx.journaled_state.depth(), 0);
}

#[test]
fn test_insert_call_outcome_writes_return_data() {
    let mut ctx = EvmContext::new(Env { tx: TxEnv { gas_limit: 100 } });
    let opened = execution::call(&mut ctx, call_inputs(50, MemRange { start: 2, end: 5 }));
    let mut frame = match opened {
        FrameOrResult::Frame(f) => f,
        _ => panic!("the call must open a frame"),
    };
    {
        let interp = match &mut frame {
            Frame::Call(f) => &mut f.frame_data.interpreter,
            Frame::Create(f) => &mut f.frame_data.interpreter,
        };
        assert!(interp.gas.record_cost(20));
    }
    let mut memory = SharedMemory::with_data(vec![9, 9, 9, 9, 9, 9]);
    let mut child_gas = Gas::new(20);
    assert!(child_gas.record_cost(5));
    let outcome = CallOutcome::new(
        InterpreterResult {
            result: InstructionResult::Return,
            output: vec![0xAA, 0xBB],
            gas: child_gas,
        },
        MemRange { start: 2, end: 5 },
    );
    execution::insert_call_outcome(&mut ctx, &mut frame, &mut memory, outcome);

    // Only the first two bytes of the three-byte range change: the
    // output is shorter than the range.
    assert_eq!(memory.data, vec![9, 9, 0xAA, 0xBB, 9, 9]);
    let interp = match &frame {
        Frame::Call(f) => &f.frame_data.interpreter,
        Frame::Create(f) => &f.frame_data.interpreter,
    };
    assert_eq!(interp.instruction_result, InstructionResult::Continue);
    assert_eq!(interp.return_data, vec![0xAA, 0xBB]);
    // The parent charged 20 for the child; the successful child hands
    // its remaining 15 back.
    assert_eq!(interp.gas.limit(), 50);
    assert_eq!(interp.gas.remaining(), 45);
}

#[test]
fn test_insert_call_outcome_gas_by_status() {
    for (status, expect_remaining) in [
        (InstructionResult::Return, 45),
        (InstructionResult::Revert, 45),
        (InstructionResult::OutOfGas, 30),
    ] {
        let mut ctx = EvmContext::new(Env { tx: TxEnv { gas_limit: 100 } });
        let opened = execution::call(&mut ctx, call_inputs(50, MemRange { start: 0, end: 0 }));
        let mut frame = match opened {
            FrameOrResult::Frame(f) => f,
            _ => panic!("the call must open a frame"),
        };
        // The parent hands 20 gas to the child: its own ledger charges
        // them first.
        {
            let interp = match &mut frame {
                Frame::Call(f) => &mut f.frame_data.interpreter,
                Frame::Create(f) => &mut f.frame_data.interpreter,
            };
            assert!(interp.gas.record_cost(20));
        }
        let mut child_gas = Gas::new(20);
        assert!(child_gas.record_cost(5));
        let outcome = CallOutcome::new(
            InterpreterResult { result: status, output: Vec::new(), gas: child_gas },
            MemRange { start: 0, end: 0 },
        );
        let mut memory = SharedMemory::new();
        execution::insert_call_outcome(&mut ctx, &mut frame, &mut memory, outcome);
        let interp = match &frame {
            Frame::Call(f) => &f.frame_data.interpreter,
            Frame::Create(f) => &f.frame_data.interpreter,
        };
        assert_eq!(interp.gas.remaining(), expect_remaining, "status {:?}", status);
    }
}

#[test]
fn test_create_return_attaches_address_only_on_success() {
    for (status, expect_some) in [
        (InstructionResult::Stop, true),
        (InstructionResult::Revert, false),
        (InstructionResult::OutOfGas, false),
    ] {
        let mut ctx = EvmContext::new(Env { tx: TxEnv { gas_limit: 100 } });
        let inputs = CreateInputs {
            caller: address_from("aa"),
            value: 0,
            init_code: Vec::new(),
            gas_limit: 50,
        };
        let opened = execution::create(&mut ctx, inputs);
        let frame = match opened {
            FrameOrResult::Frame(Frame::Create(f)) => f,
            _ => panic!("the creation must open a frame"),
        };
        let done = InterpreterResult { result: status, output: Vec::new(), gas: Gas::new(50) };
        let outcome = execution::create_return(&mut ctx, frame, done);
        assert_eq!(outcome.address.is_some(), expect_some, "status {:?}", status);
    }
}

#[test]
fn test_last_frame_return_settles_transaction() {
    let mut ctx = EvmContext::new(Env { tx: TxEnv { gas_limit: 100 } });
    let mut gas = Gas::new(90);
    gas.record_refund(30);
    let mut result = FrameResult::Call(CallOutcome::new(
        InterpreterResult { result: InstructionResult::Stop, output: Vec::new(), gas },
        MemRange { start: 0, end: 0 },
    ));
    execution::last_frame_return(SpecId::London, &mut ctx, &mut result);
    let settled = result.gas();
    assert_eq!(settled.remaining(), 90);
    assert_eq!(settled.spend(), 10);
    assert_eq!(settled.refunded(), 2);
}
