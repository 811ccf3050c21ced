use evm_exec_core::context::EvmContext;
use evm_exec_core::execution;
use evm_exec_core::frame::{CallInputs, CallOutcome, CreateInputs, CreateOutcome, Frame,
    FrameOrResult, FrameResult};
use evm_exec_core::gas::Gas;
use evm_exec_core::handler::{handler_call, handler_insert_call_outcome,
    handler_insert_create_outcome, handler_last_frame_return, inspector_handle_register,
    EvmHandler, HandlerKind};
use evm_exec_core::inspector::{inspected_call, inspected_create, inspected_insert_create_outcome,
    inspected_last_frame_return, inspector_step_begin, inspector_step_end, log_inspect_after,
    selfdestruct_inspect_after, CountingInspector, InspectorStacks, NoOpInspector};
use evm_exec_core::journal::{JournalEntry, Log};
use evm_exec_core::interpreter::{InstructionResult, Interpreter, InterpreterResult, MemRange,
    SharedMemory};
use evm_exec_core::primitives::{Address, Env, SpecId, TxEnv};
use evm_exec_core::table::{make_boxed_instruction_table, make_instruction_table,
    InstructionTables, LOG0, LOG4, SELFDESTRUCT};

fn address_from(text: &str) -> Address {
    Address::new(text.as_bytes().to_vec())
}

fn call_inputs(caller: &str, target: &str, gas_limit: u64) -> CallInputs {
    CallInputs {
        caller: address_from(caller),
        target: address_from(target),
        value: 0,
        input: Vec::new(),
        gas_limit,
        return_memory_range: MemRange { start: 0, end: 0 },
    }
}

fn create_inputs(caller: &str, gas_limit: u64) -> CreateInputs {
    CreateInputs {
        caller: address_from(caller),
        value: 0,
        init_code: vec![0x00],
        gas_limit,
    }
}

#[test]
fn test_make_boxed_instruction_table() {
    // The plain table builds, and the one-way upgrade wraps every slot.
    let inst = make_instruction_table();
    let boxed = make_boxed_instruction_table(inst);
    assert_eq!(boxed.len(), 256);
    for (i, entry) in boxed.iter().enumerate() {
        assert_eq!(entry.base.routine, i as u8);
        assert!(entry.inspected);
        assert_eq!(entry.log_hook, (i as u8) >= LOG0 && (i as u8) <= LOG4);
        assert_eq!(entry.selfdestruct_hook, i as u8 == SELFDESTRUCT);
    }
}

#[test]
fn test_inspector_handlers() {
    // A transaction with gas limit 21100 whose outer call runs six
    // instructions and then settles, watched by a counting observer.
    let mut handler = EvmHandler::mainnet();
    inspector_handle_register(&mut handler);
    let mut stacks = InspectorStacks::new();
    let mut inspector = CountingInspector::new();

    let mut ctx = EvmContext::new(Env { tx: TxEnv { gas_limit: 21100 } });
    let inputs = call_inputs(
        "1000000000000000000000000000000000000000",
        "0000000000000000000000000000000000000000",
        21100,
    );

    let opened = inspected_call(&mut inspector, &mut stacks, &mut ctx, inputs);
    let mut frame = match opened {
        FrameOrResult::Frame(f) => f,
        FrameOrResult::Result(_) => panic!("the outer call must open a frame"),
    };

    {
        let interp = match &mut frame {
            Frame::Call(f) => &mut f.frame_data.interpreter,
            Frame::Create(f) => &mut f.frame_data.interpreter,
        };
        interp.instruction_pointer = 1;
        let mut steps = 0;
        while steps < 6 {
            let run = inspector_step_begin(&mut inspector, interp, &mut ctx);
            assert!(run);
            // The wrapped base instruction runs here (the interpreter
            // loop's job); advance the cursor as its pre-increment would.
            interp.instruction_pointer += 1;
            inspector_step_end(&mut inspector, interp, &mut ctx);
            steps += 1;
        }
    }

    let halted = InterpreterResult {
        result: InstructionResult::Stop,
        output: Vec::new(),
        gas: Gas::new(21100),
    };
    let outer = match frame {
        Frame::Call(f) => execution::call_return(&mut ctx, f, halted),
        Frame::Create(_) => panic!("the outer frame is a call"),
    };
    let mut result = FrameResult::Call(outer);
    inspected_last_frame_return(SpecId::Cancun, &mut inspector, &mut stacks, &mut ctx, &mut result);

    assert_eq!(inspector.step_count, 6);
    assert_eq!(inspector.step_end_count, 6);
    assert_eq!(inspector.initialize_interp_count, 1);
    assert_eq!(inspector.call_count, 1);
    assert_eq!(inspector.call_end_count, 1);
}

#[test]
fn test_inspector_reg() {
    let mut handler = EvmHandler::mainnet();
    inspector_handle_register(&mut handler);
    let _noop = NoOpInspector {};
    assert_eq!(handler.execution.call, HandlerKind::Inspected);
    assert_eq!(handler.execution.last_frame_return, HandlerKind::Inspected);
    match &handler.instruction_table {
        Some(InstructionTables::Boxed(v)) => assert_eq!(v.len(), 256),
        _ => panic!("registration must leave a boxed table"),
    }
}

#[test]
fn test_noop_observer_is_transparent() {
    // The same call opened and settled with and without a no-op
    // observer registered must produce identical outputs.
    let caller = "1000000000000000000000000000000000000000";
    let target = "0000000000000000000000000000000000000000";

    let mut plain_ctx = EvmContext::new(Env { tx: TxEnv { gas_limit: 1000 } });
    let plain_open = execution::call(&mut plain_ctx, call_inputs(caller, target, 1000));
    let plain_frame = match plain_open {
        FrameOrResult::Frame(Frame::Call(f)) => f,
        _ => panic!("the call must open a call frame"),
    };
    let halted = InterpreterResult {
        result: InstructionResult::Stop,
        output: vec![1, 2, 3],
        gas: Gas::new(900),
    };
    let plain_outcome = execution::call_return(&mut plain_ctx, plain_frame, halted);
    let mut plain_result = FrameResult::Call(plain_outcome);
    execution::last_frame_return(SpecId::Cancun, &mut plain_ctx, &mut plain_result);

    let mut noop = NoOpInspector {};
    let mut stacks = InspectorStacks::new();
    let mut seen_ctx = EvmContext::new(Env { tx: TxEnv { gas_limit: 1000 } });
    let seen_open = inspected_call(&mut noop, &mut stacks, &mut seen_ctx, call_inputs(
        caller, target, 1000,
    ));
    let seen_frame = match seen_open {
        FrameOrResult::Frame(Frame::Call(f)) => f,
        _ => panic!("the call must open a call frame"),
    };
    let halted = InterpreterResult {
        result: InstructionResult::Stop,
        output: vec![1, 2, 3],
        gas: Gas::new(900),
    };
    let seen_outcome = execution::call_return(&mut seen_ctx, seen_frame, halted);
    let mut seen_result = FrameResult::Call(seen_outcome);
    inspected_last_frame_return(
        SpecId::Cancun,
        &mut noop,
        &mut stacks,
        &mut seen_ctx,
        &mut seen_result,
    );

    assert_eq!(plain_result.gas(), seen_result.gas());
    assert_eq!(plain_result.status(), seen_result.status());
    match (&plain_result, &seen_result) {
        (FrameResult::Call(a), FrameResult::Call(b)) => {
            assert_eq!(a.result.output, b.result.output);
            assert_eq!(a.memory_range, b.memory_range);
        },
        _ => panic!("both runs settle a call outcome"),
    }
    assert_eq!(plain_ctx.journaled_state.depth(), seen_ctx.journaled_state.depth());
}

#[test]
fn test_nested_create_in_call_with_observer() {
    // A contract creation nested inside a call, with an observer:
    // initialize_interp fires once per entered frame, call_end and
    // create_end once per exit, in LIFO correlation order.
    let caller = "1000000000000000000000000000000000000000";
    let target = "0000000000000000000000000000000000000000";
    let mut inspector = CountingInspector::new();
    let mut stacks = InspectorStacks::new();
    let mut ctx = EvmContext::new(Env { tx: TxEnv { gas_limit: 5000 } });

    let outer = inspected_call(&mut inspector, &mut stacks, &mut ctx, call_inputs(
        caller, target, 5000,
    ));
    let mut outer_frame = match outer {
        FrameOrResult::Frame(f) => f,
        FrameOrResult::Result(_) => panic!("the outer call must open a frame"),
    };
    assert_eq!(stacks.call_depth(), 1);
    assert_eq!(inspector.initialize_interp_count, 1);

    let nested = inspected_create(&mut inspector, &mut stacks, &mut ctx, create_inputs(
        target, 2000,
    ));
    let nested_frame = match nested {
        FrameOrResult::Frame(Frame::Create(f)) => f,
        _ => panic!("the nested creation must open a creation frame"),
    };
    assert_eq!(stacks.create_depth(), 1);
    assert_eq!(stacks.call_depth(), 1);
    assert_eq!(inspector.initialize_interp_count, 2);
    assert_eq!(inspector.create_count, 1);

    // The nested frame completes; its outcome folds into the outer one.
    let done = InterpreterResult {
        result: InstructionResult::Stop,
        output: Vec::new(),
        gas: Gas::new(0),
    };
    let nested_outcome = execution::create_return(&mut ctx, nested_frame, done);
    inspected_insert_create_outcome(
        &mut inspector,
        &mut stacks,
        &mut ctx,
        &mut outer_frame,
        nested_outcome,
    );
    assert_eq!(stacks.create_depth(), 0);
    assert_eq!(stacks.call_depth(), 1);
    assert_eq!(inspector.create_end_count, 1);
    assert_eq!(inspector.call_end_count, 0);

    // The outer frame completes; the transaction settles.
    let halted = InterpreterResult {
        result: InstructionResult::Stop,
        output: Vec::new(),
        gas: Gas::new(4000),
    };
    let outer_outcome = match outer_frame {
        Frame::Call(f) => execution::call_return(&mut ctx, f, halted),
        Frame::Create(_) => panic!("the outer frame is a call"),
    };
    let mut result = FrameResult::Call(outer_outcome);
    inspected_last_frame_return(SpecId::Cancun, &mut inspector, &mut stacks, &mut ctx, &mut result);
    assert_eq!(stacks.call_depth(), 0);
    assert_eq!(inspector.call_end_count, 1);
    assert_eq!(inspector.create_end_count, 1);
    assert_eq!(inspector.initialize_interp_count, 2);
}

#[test]
fn test_pop_without_push_is_a_contract_violation() {
    let mut stacks = InspectorStacks::new();
    assert!(matches!(stacks.pop_call_input(), None));
    assert!(matches!(stacks.pop_create_input(), None));
    let mut stacks2 = InspectorStacks::new();
    stacks2.call_inputs.push(call_inputs("aa", "bb", 1));
    assert!(stacks2.pop_call_input().is_some());
    assert!(matches!(stacks2.pop_call_input(), None));
}

#[test]
fn test_call_entry_pushes_inputs() {
    // Every decorated entry pushes exactly one pending input, so the
    // exit callback stays paired with it.
    let mut inspector = CountingInspector::new();
    let mut stacks = InspectorStacks::new();
    let mut ctx = EvmContext::new(Env { tx: TxEnv { gas_limit: 100 } });
    let _ = inspected_call(&mut inspector, &mut stacks, &mut ctx, call_inputs("aa", "bb", 100));
    assert_eq!(stacks.call_depth(), 1);
    assert_eq!(ctx.journaled_state.depth(), 1);
}

#[test]
fn test_handler_slots_dispatch_by_registration() {
    let mut noop = NoOpInspector {};

    // Before registration the slots run the mainnet operations: no
    // correlation entry is recorded.
    let mut handler = EvmHandler::mainnet();
    let mut ctx = EvmContext::new(Env { tx: TxEnv { gas_limit: 500 } });
    let opened = handler_call(&mut handler, &mut noop, &mut ctx, call_inputs("aa", "bb", 500));
    assert!(matches!(opened, FrameOrResult::Frame(_)));
    assert_eq!(handler.stacks.call_depth(), 0);

    // After registration the same invocation runs the decorated
    // operation: the entry is pushed and the exit callback pops it.
    let mut handler = EvmHandler::mainnet();
    inspector_handle_register(&mut handler);
    let mut ctx = EvmContext::new(Env { tx: TxEnv { gas_limit: 500 } });
    let opened = handler_call(&mut handler, &mut noop, &mut ctx, call_inputs("aa", "bb", 500));
    let frame = match opened {
        FrameOrResult::Frame(Frame::Call(f)) => f,
        _ => panic!("the call must open a call frame"),
    };
    assert_eq!(handler.stacks.call_depth(), 1);

    let halted = InterpreterResult {
        result: InstructionResult::Stop,
        output: Vec::new(),
        gas: Gas::new(400),
    };
    let outcome = execution::call_return(&mut ctx, frame, halted);
    let mut result = FrameResult::Call(outcome);
    handler_last_frame_return(SpecId::Cancun, &mut handler, &mut noop, &mut ctx, &mut result);
    assert_eq!(handler.stacks.call_depth(), 0);
    assert_eq!(result.gas().remaining(), 400);
    assert_eq!(result.gas().spend(), 100);
}

#[test]
fn test_handler_fold_slots_deliver_outcome() {
    // Whichever unit the fold slots hold, the child's outcome lands in
    // the parent frame: output bytes in the memory range, gas absorbed,
    // return data set, and the parent resumed.
    let mut noop = NoOpInspector {};
    let mut handler = EvmHandler::mainnet();
    let mut ctx = EvmContext::new(Env { tx: TxEnv { gas_limit: 100 } });
    let opened = execution::call(&mut ctx, CallInputs {
        caller: address_from("aa"),
        target: address_from("bb"),
        value: 0,
        input: Vec::new(),
        gas_limit: 50,
        return_memory_range: MemRange { start: 0, end: 1 },
    });
    let mut frame = match opened {
        FrameOrResult::Frame(f) => f,
        _ => panic!("the call must open a frame"),
    };
    {
        let interp = match &mut frame {
            Frame::Call(f) => &mut f.frame_data.interpreter,
            Frame::Create(f) => &mut f.frame_data.interpreter,
        };
        assert!(interp.gas.record_cost(20));
    }
    let mut child_gas = Gas::new(20);
    assert!(child_gas.record_cost(5));
    let outcome = CallOutcome::new(
        InterpreterResult {
            result: InstructionResult::Return,
            output: vec![7],
            gas: child_gas,
        },
        MemRange { start: 0, end: 1 },
    );
    let mut memory = SharedMemory::with_data(vec![0, 0]);
    handler_insert_call_outcome(&mut handler, &mut noop, &mut ctx, &mut frame, &mut memory, outcome);
    {
        let interp = match &frame {
            Frame::Call(f) => &f.frame_data.interpreter,
            Frame::Create(f) => &f.frame_data.interpreter,
        };
        assert_eq!(memory.data, vec![7, 0]);
        assert_eq!(interp.gas.remaining(), 45);
        assert_eq!(interp.return_data, vec![7]);
        assert_eq!(interp.instruction_result, InstructionResult::Continue);
    }

    // The decorated slot folds just the same, and pops the pending entry.
    let mut handler = EvmHandler::mainnet();
    inspector_handle_register(&mut handler);
    handler.stacks.create_inputs.push(create_inputs("aa", 5));
    let nested = CreateOutcome::new(
        InterpreterResult {
            result: InstructionResult::Stop,
            output: vec![9],
            gas: Gas::new(5),
        },
        None,
    );
    handler_insert_create_outcome(&mut handler, &mut noop, &mut ctx, &mut frame, nested);
    assert_eq!(handler.stacks.create_depth(), 0);
    let interp = match &frame {
        Frame::Call(f) => &f.frame_data.interpreter,
        Frame::Create(f) => &f.frame_data.interpreter,
    };
    assert_eq!(interp.gas.remaining(), 50);
    assert_eq!(interp.return_data, vec![9]);
}

#[test]
fn test_log_hook_fires_only_on_appended_log() {
    let mut inspector = CountingInspector::new();
    let mut ctx = EvmContext::new(Env { tx: TxEnv { gas_limit: 100 } });

    // The instruction aborted before logging: no callback.
    log_inspect_after(&mut inspector, &mut ctx, 0);
    assert_eq!(inspector.log_count, 0);

    ctx.journaled_state.append_log(Log { address: address_from("aa"), data: vec![7] });
    log_inspect_after(&mut inspector, &mut ctx, 0);
    assert_eq!(inspector.log_count, 1);

    // No new record since the snapshot: no callback.
    log_inspect_after(&mut inspector, &mut ctx, 1);
    assert_eq!(inspector.log_count, 1);
}

#[test]
fn test_selfdestruct_hook_fires_only_on_journal_entry() {
    let mut inspector = CountingInspector::new();
    let mut ctx = EvmContext::new(Env { tx: TxEnv { gas_limit: 100 } });

    selfdestruct_inspect_after(&mut inspector, &ctx);
    assert_eq!(inspector.selfdestruct_count, 0);

    ctx.journaled_state.append_entry(JournalEntry::StorageChanged { address: address_from("aa") });
    selfdestruct_inspect_after(&mut inspector, &ctx);
    assert_eq!(inspector.selfdestruct_count, 0);

    ctx.journaled_state.append_entry(JournalEntry::AccountDestroyed {
        address: address_from("aa"),
        target: address_from("bb"),
        had_balance: 5,
    });
    selfdestruct_inspect_after(&mut inspector, &ctx);
    assert_eq!(inspector.selfdestruct_count, 1);
}

#[test]
fn test_step_decorator_transparent_round_trip() {
    let mut inspector = CountingInspector::new();
    let mut ctx = EvmContext::new(Env { tx: TxEnv { gas_limit: 100 } });
    let mut interp = Interpreter::new(100);
    interp.instruction_pointer = 5;
    let run = inspector_step_begin(&mut inspector, &mut interp, &mut ctx);
    assert!(run);
    assert_eq!(interp.instruction_pointer, 5);
    inspector_step_end(&mut inspector, &mut interp, &mut ctx);
    assert_eq!(inspector.step_count, 1);
    assert_eq!(inspector.step_end_count, 1);

    // A halted interpreter is not stepped further: the decorator skips
    // the instruction and leaves the cursor on the halting position.
    interp.instruction_result = InstructionResult::OutOfGas;
    let run = inspector_step_begin(&mut inspector, &mut interp, &mut ctx);
    assert!(!run);
    assert_eq!(interp.instruction_pointer, 4);
    assert_eq!(inspector.step_count, 2);
    assert_eq!(inspector.step_end_count, 1);
}
