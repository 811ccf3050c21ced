//! The handler set of one execution context: the dispatch table and the
//! five named execution handlers, each an independently replaceable
//! slot, plus the registration hook that splices the instrumentation
//! layer into every one of them.

use vstd::prelude::*;
use crate::context::{spec_make_call_frame, spec_make_create_frame, EvmContext, EvmContextModel};
use crate::execution::spec_settle_gas;
use crate::frame::{CallInputs, CallInputsModel, CallOutcome, CreateInputs, CreateInputsModel,
    CreateOutcome, Frame, FrameOrResult, FrameResult};
use crate::inspector::{inspected_call, inspected_create, inspected_last_frame_return,
    spec_call_entry_outcome, spec_create_entry_outcome, Inspector, InspectorStacks};
use crate::interpreter::{spec_absorb_gas, InstructionResult, InterpreterModel, SharedMemory};
use crate::primitives::SpecId;
use crate::table::{make_boxed_instruction_table, rewrap_boxed_instruction_table, spec_wrap_entry,
    Instruction, InstructionTables};

verus! {

/// Which unit of behaviour a handler slot currently holds: the base
/// mainnet operation, or that operation wrapped by the observer
/// decorator.  At most one observer instance is active per execution
/// context, so one wrap per slot suffices.
#[derive(Clone, Copy, PartialEq, Eq, Structural, Debug)]
pub enum HandlerKind {
    Mainnet,
    Inspected,
}

/// The execution handler table: five named, independently replaceable
/// operations that together define how frames are created and folded
/// back.
#[derive(Clone, Copy, PartialEq, Eq, Structural, Debug)]
pub struct ExecutionHandlers {
    pub call: HandlerKind,
    pub create: HandlerKind,
    pub insert_call_outcome: HandlerKind,
    pub insert_create_outcome: HandlerKind,
    pub last_frame_return: HandlerKind,
}

impl ExecutionHandlers {
    /// The base table: every slot the mainnet operation.
    pub fn mainnet() -> (r: ExecutionHandlers)
        ensures
            r == (ExecutionHandlers {
                call: HandlerKind::Mainnet,
                create: HandlerKind::Mainnet,
                insert_call_outcome: HandlerKind::Mainnet,
                insert_create_outcome: HandlerKind::Mainnet,
                last_frame_return: HandlerKind::Mainnet,
            }),
    {
        ExecutionHandlers {
            call: HandlerKind::Mainnet,
            create: HandlerKind::Mainnet,
            insert_call_outcome: HandlerKind::Mainnet,
            insert_create_outcome: HandlerKind::Mainnet,
            last_frame_return: HandlerKind::Mainnet,
        }
    }
}

/// The handlers of one execution context: the instruction dispatch
/// table, the execution handler slots, and the correlation stacks the
/// instrumentation layer works with once registered.
pub struct EvmHandler {
    pub instruction_table: Option<InstructionTables>,
    pub execution: ExecutionHandlers,
    pub stacks: InspectorStacks,
}

/// The base routines a dispatch table holds, whichever representation
/// it is in.
pub open spec fn spec_table_bases(t: Option<InstructionTables>) -> Seq<Instruction> {
    match t {
        Some(InstructionTables::Plain(v)) => v@,
        Some(InstructionTables::Boxed(v)) => Seq::new(v@.len(), |i: int| v@[i].base),
        None => Seq::<Instruction>::empty(),
    }
}

impl EvmHandler {
    /// A fresh handler set: the plain 256-slot dispatch table, every
    /// execution slot the mainnet operation, empty correlation stacks.
    pub fn mainnet() -> (r: EvmHandler)
        ensures
            spec_table_bases(r.instruction_table).len() == 256,
            r.instruction_table matches Some(InstructionTables::Plain(v)) && forall|i: int|
                0 <= i < 256 ==> (#[trigger] v@[i]).routine == i,
            r.execution == (ExecutionHandlers {
                call: HandlerKind::Mainnet,
                create: HandlerKind::Mainnet,
                insert_call_outcome: HandlerKind::Mainnet,
                insert_create_outcome: HandlerKind::Mainnet,
                last_frame_return: HandlerKind::Mainnet,
            }),
            r.stacks@.call_inputs == Seq::<CallInputsModel>::empty(),
            r.stacks@.create_inputs == Seq::<CreateInputsModel>::empty(),
    {
        EvmHandler {
            instruction_table: Some(InstructionTables::Plain(crate::table::make_instruction_table())),
            execution: ExecutionHandlers::mainnet(),
            stacks: InspectorStacks::new(),
        }
    }
}

/// Registers the instrumentation layer: rebuilds the dispatch table
/// with every slot wrapped (upgrading it to the boxed representation),
/// replaces all five execution handler slots with their decorated
/// versions, and gives the layer fresh correlation stacks.  The handler
/// must hold a dispatch table; registering on a handler without one is
/// the fatal setup error the `requires` excludes.
///
/// At most one observer instance is active per execution context, so a
/// slot holds at most one decoration level: registering again is
/// idempotent, except that the correlation stacks start fresh.
pub fn inspector_handle_register(handler: &mut EvmHandler)
    requires
        (*old(handler)).instruction_table is Some,
        spec_table_bases((*old(handler)).instruction_table).len() == 256,
    ensures
        ({
            let bases = spec_table_bases((*old(handler)).instruction_table);
            &&& final(handler).instruction_table matches Some(InstructionTables::Boxed(v))
                && v@.len() == 256 && forall|i: int|
                0 <= i < 256 ==> (#[trigger] v@[i]) == spec_wrap_entry(bases[i], i as u8)
        }),
        final(handler).execution == (ExecutionHandlers {
            call: HandlerKind::Inspected,
            create: HandlerKind::Inspected,
            insert_call_outcome: HandlerKind::Inspected,
            insert_create_outcome: HandlerKind::Inspected,
            last_frame_return: HandlerKind::Inspected,
        }),
        final(handler).stacks@.call_inputs == Seq::<CallInputsModel>::empty(),
        final(handler).stacks@.create_inputs == Seq::<CreateInputsModel>::empty(),
{
    let taken = handler.instruction_table.take();
    let table = match taken {
        Some(t) => t,
        None => unreached(),
    };
    let boxed = match table {
        InstructionTables::Plain(v) => make_boxed_instruction_table(v),
        InstructionTables::Boxed(v) => rewrap_boxed_instruction_table(v),
    };
    handler.instruction_table = Some(InstructionTables::Boxed(boxed));
    handler.execution = ExecutionHandlers {
        call: HandlerKind::Inspected,
        create: HandlerKind::Inspected,
        insert_call_outcome: HandlerKind::Inspected,
        insert_create_outcome: HandlerKind::Inspected,
        last_frame_return: HandlerKind::Inspected,
    };
    handler.stacks = InspectorStacks::new();
}

/// Invokes whichever unit of behaviour the `call` slot holds: the
/// mainnet operation, or its decorated version working the observer and
/// the correlation stacks.
pub fn handler_call<I: Inspector>(
    handler: &mut EvmHandler,
    insp: &mut I,
    ctx: &mut EvmContext,
    inputs: CallInputs,
) -> (r: FrameOrResult)
    requires
        old(ctx)@.wf(),
    ensures
        final(ctx)@.wf(),
        final(ctx)@.env == old(ctx)@.env,
        final(handler).execution == old(handler).execution,
        final(handler).instruction_table == old(handler).instruction_table,
        old(handler).execution.call is Mainnet ==> (final(ctx)@, r@) == spec_make_call_frame(
            old(ctx)@,
            inputs@,
        ) && final(handler).stacks@ == old(handler).stacks@,
        old(handler).execution.call is Inspected ==> final(handler).stacks@.create_inputs == old(
            handler,
        ).stacks@.create_inputs && exists|m: CallInputsModel, c: EvmContextModel|
            {
                &&& final(handler).stacks@.call_inputs == old(handler).stacks@.call_inputs.push(m)
                &&& c.wf()
                &&& c.env == old(ctx)@.env
                &&& #[trigger] spec_call_entry_outcome(c, m, final(ctx)@, r@)
            },
        old(handler).execution.call is Inspected && I::spec_transparent() ==> final(handler).stacks@.call_inputs == old(handler).stacks@.call_inputs.push(inputs@) && (
        final(ctx)@,
        r@,
        ) == spec_make_call_frame(old(ctx)@, inputs@),
{
    let kind = handler.execution.call;
    match kind {
        HandlerKind::Mainnet => crate::execution::call(ctx, inputs),
        HandlerKind::Inspected => inspected_call(insp, &mut handler.stacks, ctx, inputs),
    }
}

/// Invokes whichever unit of behaviour the `create` slot holds.
pub fn handler_create<I: Inspector>(
    handler: &mut EvmHandler,
    insp: &mut I,
    ctx: &mut EvmContext,
    inputs: CreateInputs,
) -> (r: FrameOrResult)
    requires
        old(ctx)@.wf(),
        old(ctx)@.journaled_state.nonce < u64::MAX,
    ensures
        final(ctx)@.wf(),
        final(ctx)@.env == old(ctx)@.env,
        final(handler).execution == old(handler).execution,
        final(handler).instruction_table == old(handler).instruction_table,
        old(handler).execution.create is Mainnet ==> (final(ctx)@, r@) == spec_make_create_frame(
            old(ctx)@,
            inputs@,
        ) && final(handler).stacks@ == old(handler).stacks@,
        old(handler).execution.create is Inspected ==> final(handler).stacks@.call_inputs == old(
            handler,
        ).stacks@.call_inputs && exists|m: CreateInputsModel, c: EvmContextModel|
            {
                &&& final(handler).stacks@.create_inputs == old(handler).stacks@.create_inputs.push(
                    m,
                )
                &&& c.wf()
                &&& c.env == old(ctx)@.env
                &&& #[trigger] spec_create_entry_outcome(c, m, final(ctx)@, r@)
            },
        old(handler).execution.create is Inspected && I::spec_transparent() ==> final(handler).stacks@.create_inputs == old(handler).stacks@.create_inputs.push(inputs@) && (
        final(ctx)@,
        r@,
        ) == spec_make_create_frame(old(ctx)@, inputs@),
{
    let kind = handler.execution.create;
    match kind {
        HandlerKind::Mainnet => crate::execution::create(ctx, inputs),
        HandlerKind::Inspected => inspected_create(insp, &mut handler.stacks, ctx, inputs),
    }
}

/// Invokes whichever unit of behaviour the `insert_call_outcome` slot
/// holds, folding a completed sub-call back into its parent frame.
pub fn handler_insert_call_outcome<I: Inspector>(
    handler: &mut EvmHandler,
    insp: &mut I,
    ctx: &mut EvmContext,
    frame: &mut Frame,
    shared_memory: &mut SharedMemory,
    outcome: CallOutcome,
)
    requires
        old(ctx)@.wf(),
        outcome.memory_range.wf(),
        outcome.memory_range.end <= old(shared_memory)@.len(),
        old(handler).execution.insert_call_outcome is Mainnet ==> (
        !outcome.result.result.spec_is_error() ==> old(frame)@.frame_data().interpreter.gas.remaining
            + outcome.result.gas.remaining <= old(frame)@.frame_data().interpreter.gas.limit) && (
        outcome.result.result.spec_is_ok() ==> 0 <= old(frame)@.frame_data().interpreter.gas.refunded
            + outcome.result.gas.refunded <= i64::MAX),
        old(handler).execution.insert_call_outcome is Inspected ==> old(handler).stacks@.call_inputs.len() > 0 && old(frame)@.frame_data().interpreter.gas.remaining
            + outcome.result.gas.remaining <= old(frame)@.frame_data().interpreter.gas.limit && 0
            <= old(frame)@.frame_data().interpreter.gas.refunded + outcome.result.gas.refunded
            <= i64::MAX,
    ensures
        final(ctx)@.wf(),
        final(ctx)@.env == old(ctx)@.env,
        final(handler).execution == old(handler).execution,
        final(handler).instruction_table == old(handler).instruction_table,
        (*final(frame)) is Call <==> (*old(frame)) is Call,
        final(frame)@.frame_data().checkpoint == old(frame)@.frame_data().checkpoint,
        final(frame)@.frame_data().interpreter.instruction_result == InstructionResult::Continue,
        old(handler).execution.insert_call_outcome is Mainnet ==> final(handler).stacks@ == old(handler).stacks@ && final(ctx)@ == old(ctx)@,
        old(handler).execution.insert_call_outcome is Inspected ==> final(handler).stacks@.call_inputs == old(handler).stacks@.call_inputs.drop_last() && final(handler).stacks@.create_inputs == old(handler).stacks@.create_inputs,
        old(handler).execution.insert_call_outcome is Mainnet || I::spec_transparent() ==> final(shared_memory)@ == crate::interpreter::spec_write_range(
            old(shared_memory)@,
            outcome.memory_range,
            outcome.result@.output,
        ) && final(ctx)@ == old(ctx)@ && final(frame)@.frame_data().interpreter == (InterpreterModel {
            instruction_result: InstructionResult::Continue,
            gas: spec_absorb_gas(
                old(frame)@.frame_data().interpreter.gas,
                outcome.result.gas,
                outcome.result.result,
            ),
            return_data: outcome.result@.output,
            ..old(frame)@.frame_data().interpreter
        }),
{
    let kind = handler.execution.insert_call_outcome;
    match kind {
        HandlerKind::Mainnet => crate::execution::insert_call_outcome(
            ctx,
            frame,
            shared_memory,
            outcome,
        ),
        HandlerKind::Inspected => crate::inspector::inspected_insert_call_outcome(
            insp,
            &mut handler.stacks,
            ctx,
            frame,
            shared_memory,
            outcome,
        ),
    }
}

/// Invokes whichever unit of behaviour the `insert_create_outcome`
/// slot holds, folding a completed sub-creation back into its parent
/// frame.
pub fn handler_insert_create_outcome<I: Inspector>(
    handler: &mut EvmHandler,
    insp: &mut I,
    ctx: &mut EvmContext,
    frame: &mut Frame,
    outcome: CreateOutcome,
)
    requires
        old(ctx)@.wf(),
        old(handler).execution.insert_create_outcome is Mainnet ==> (
        !outcome.result.result.spec_is_error() ==> old(frame)@.frame_data().interpreter.gas.remaining
            + outcome.result.gas.remaining <= old(frame)@.frame_data().interpreter.gas.limit) && (
        outcome.result.result.spec_is_ok() ==> 0 <= old(frame)@.frame_data().interpreter.gas.refunded
            + outcome.result.gas.refunded <= i64::MAX),
        old(handler).execution.insert_create_outcome is Inspected ==> old(handler).stacks@.create_inputs.len() > 0 && old(frame)@.frame_data().interpreter.gas.remaining
            + outcome.result.gas.remaining <= old(frame)@.frame_data().interpreter.gas.limit && 0
            <= old(frame)@.frame_data().interpreter.gas.refunded + outcome.result.gas.refunded
            <= i64::MAX,
    ensures
        final(ctx)@.wf(),
        final(ctx)@.env == old(ctx)@.env,
        final(handler).execution == old(handler).execution,
        final(handler).instruction_table == old(handler).instruction_table,
        (*final(frame)) is Call <==> (*old(frame)) is Call,
        final(frame)@.frame_data().checkpoint == old(frame)@.frame_data().checkpoint,
        final(frame)@.frame_data().interpreter.instruction_result == InstructionResult::Continue,
        old(handler).execution.insert_create_outcome is Mainnet ==> final(handler).stacks@ == old(handler).stacks@ && final(ctx)@ == old(ctx)@,
        old(handler).execution.insert_create_outcome is Inspected ==> final(handler).stacks@.create_inputs == old(handler).stacks@.create_inputs.drop_last() && final(handler).stacks@.call_inputs == old(handler).stacks@.call_inputs,
        old(handler).execution.insert_create_outcome is Mainnet || I::spec_transparent() ==> final(ctx)@ == old(ctx)@ && final(frame)@.frame_data().interpreter == (InterpreterModel {
            instruction_result: InstructionResult::Continue,
            gas: spec_absorb_gas(
                old(frame)@.frame_data().interpreter.gas,
                outcome.result.gas,
                outcome.result.result,
            ),
            return_data: outcome.result@.output,
            ..old(frame)@.frame_data().interpreter
        }),
{
    let kind = handler.execution.insert_create_outcome;
    match kind {
        HandlerKind::Mainnet => crate::execution::insert_create_outcome(ctx, frame, outcome),
        HandlerKind::Inspected => crate::inspector::inspected_insert_create_outcome(
            insp,
            &mut handler.stacks,
            ctx,
            frame,
            outcome,
        ),
    }
}

/// Invokes whichever unit of behaviour the `last_frame_return` slot
/// holds, settling the transaction's gas.
pub fn handler_last_frame_return<I: Inspector>(
    spec_id: SpecId,
    handler: &mut EvmHandler,
    insp: &mut I,
    ctx: &mut EvmContext,
    frame_result: &mut FrameResult,
)
    requires
        old(ctx)@.wf(),
        old(frame_result)@.interpreter_result().gas.remaining <= old(ctx).env.tx.gas_limit,
        0 <= old(frame_result)@.interpreter_result().gas.refunded,
        old(handler).execution.last_frame_return is Inspected ==> ((*old(frame_result)) is Call
            ==> old(handler).stacks@.call_inputs.len() > 0) && ((*old(frame_result)) is Create
            ==> old(handler).stacks@.create_inputs.len() > 0),
    ensures
        final(ctx)@.wf(),
        final(ctx)@.env == old(ctx)@.env,
        final(handler).execution == old(handler).execution,
        final(handler).instruction_table == old(handler).instruction_table,
        old(handler).execution.last_frame_return is Mainnet || I::spec_transparent() ==> final(frame_result)@ == old(frame_result)@.with_gas(
            spec_settle_gas(
                old(ctx).env.tx.gas_limit,
                old(frame_result)@.interpreter_result().result,
                old(frame_result)@.interpreter_result().gas.remaining,
                old(frame_result)@.interpreter_result().gas.refunded,
                true,
                spec_id,
            ),
        ),
        old(handler).execution.last_frame_return is Mainnet ==> final(handler).stacks@ == old(handler).stacks@,
{
    let kind = handler.execution.last_frame_return;
    match kind {
        HandlerKind::Mainnet => crate::execution::last_frame_return(spec_id, ctx, frame_result),
        HandlerKind::Inspected => inspected_last_frame_return(
            spec_id,
            insp,
            &mut handler.stacks,
            ctx,
            frame_result,
        ),
    }
}

} // verus!
