//! The execution handler table: the named operations that create frames
//! and fold their results back — `call`, `create`, `call_return`,
//! `create_return`, `insert_call_outcome`, `insert_create_outcome` and
//! `last_frame_return` — each with the exact gas-settlement and
//! checkpoint rules it enforces.

use vstd::prelude::*;
use crate::context::{spec_frame_end, spec_make_call_frame, spec_make_create_frame, EvmContext,
    EvmContextModel};
use crate::frame::{CallFrame, CallInputs, CallOutcome, CallOutcomeModel, CreateFrame,
    CreateInputs, CreateOutcome, Frame, FrameOrResult, FrameResult};
use crate::gas::{spec_capped_refund, Gas};
use crate::interpreter::{spec_absorb_gas, spec_write_range, InstructionResult, InterpreterModel,
    InterpreterResult, InterpreterResultModel, SharedMemory};
use crate::primitives::{Address, Env, SpecId};

verus! {

/// The ledger a frame's result settles to, run once per frame and once
/// more for the whole transaction: the full limit is charged, then a
/// success restores the snapshot's remaining gas and carries its refund,
/// a revert restores only the remaining gas, and every other status
/// forfeits both; finally, if refunds are enabled, the refund is capped
/// by the revision's divisor.
pub open spec fn spec_settle_gas(
    limit: u64,
    status: InstructionResult,
    remaining: u64,
    refunded: i64,
    refund_enabled: bool,
    spec_id: SpecId,
) -> Gas {
    let restored = if status.spec_is_ok() {
        Gas { limit, remaining, refunded }
    } else if status.spec_is_revert() {
        Gas { limit, remaining, refunded: 0 }
    } else {
        Gas { limit, remaining: 0, refunded: 0 }
    };
    if refund_enabled {
        Gas {
            limit,
            remaining: restored.remaining,
            refunded: spec_capped_refund(limit, restored.remaining, restored.refunded, spec_id) as i64,
        }
    } else {
        restored
    }
}

/// Settles one interpreter result's gas against the transaction's
/// limit, as [`spec_settle_gas`] states.
fn settle_interpreter_gas(
    spec_id: SpecId,
    env: &Env,
    result: &mut InterpreterResult,
    refund_enabled: bool,
)
    requires
        old(result).gas.remaining <= env.tx.gas_limit,
        0 <= old(result).gas.refunded,
    ensures
        final(result)@ == (InterpreterResultModel {
            gas: spec_settle_gas(
                env.tx.gas_limit,
                old(result).result,
                old(result).gas.remaining,
                old(result).gas.refunded,
                refund_enabled,
                spec_id,
            ),
            ..old(result)@
        }),
{
    let instruction_result = result.result;
    let remaining = result.gas.remaining();
    let refunded = result.gas.refunded();

    // Spend the whole limit up front; gas is reimbursed only when the
    // status calls for it, so failure paths forfeit everything without a
    // separate branch.
    result.gas = Gas::new(env.tx.gas_limit);
    let _ = result.gas.record_cost(env.tx.gas_limit);

    if instruction_result.is_ok() {
        result.gas.erase_cost(remaining);
        result.gas.record_refund(refunded);
    } else if instruction_result.is_revert() {
        result.gas.erase_cost(remaining);
    }
    if refund_enabled {
        result.gas.set_final_refund(spec_id);
    }
}

/// Settles a frame result's gas against the transaction's limit,
/// optionally applying the revision's refund cap.
pub fn frame_return_with_refund_flag(
    spec_id: SpecId,
    env: &Env,
    frame_result: &mut FrameResult,
    refund_enabled: bool,
)
    requires
        old(frame_result)@.interpreter_result().gas.remaining <= env.tx.gas_limit,
        0 <= old(frame_result)@.interpreter_result().gas.refunded,
    ensures
        final(frame_result)@ == old(frame_result)@.with_gas(
            spec_settle_gas(
                env.tx.gas_limit,
                old(frame_result)@.interpreter_result().result,
                old(frame_result)@.interpreter_result().gas.remaining,
                old(frame_result)@.interpreter_result().gas.refunded,
                refund_enabled,
                spec_id,
            ),
        ),
{
    match frame_result {
        FrameResult::Call(outcome) => {
            settle_interpreter_gas(spec_id, env, &mut outcome.result, refund_enabled);
        },
        FrameResult::Create(outcome) => {
            settle_interpreter_gas(spec_id, env, &mut outcome.result, refund_enabled);
        },
    }
}

/// Handles the outermost frame's return: settles the transaction's gas
/// with refunds enabled.
pub fn last_frame_return(spec_id: SpecId, context: &mut EvmContext, frame_result: &mut FrameResult)
    requires
        old(frame_result)@.interpreter_result().gas.remaining <= old(context).env.tx.gas_limit,
        0 <= old(frame_result)@.interpreter_result().gas.refunded,
    ensures
        *final(context) == *old(context),
        final(frame_result)@ == old(frame_result)@.with_gas(
            spec_settle_gas(
                old(context).env.tx.gas_limit,
                old(frame_result)@.interpreter_result().result,
                old(frame_result)@.interpreter_result().gas.remaining,
                old(frame_result)@.interpreter_result().gas.refunded,
                true,
                spec_id,
            ),
        ),
{
    frame_return_with_refund_flag(spec_id, &context.env, frame_result, true)
}

/// Handles a frame sub-call: asks the context for a frame or an
/// immediate result.
pub fn call(context: &mut EvmContext, inputs: CallInputs) -> (r: FrameOrResult)
    requires
        old(context)@.wf(),
    ensures
        (final(context)@, r@) == spec_make_call_frame(old(context)@, inputs@),
        final(context)@.wf(),
{
    context.make_call_frame(&inputs)
}

/// Handles a frame sub-creation.
pub fn create(context: &mut EvmContext, inputs: CreateInputs) -> (r: FrameOrResult)
    requires
        old(context)@.wf(),
        old(context)@.journaled_state.nonce < u64::MAX,
    ensures
        (final(context)@, r@) == spec_make_create_frame(old(context)@, inputs@),
        final(context)@.wf(),
{
    context.make_create_frame(&inputs)
}

/// Closes a call frame: commits or reverts its checkpoint by status and
/// wraps the interpreter's result into the call's outcome.
pub fn call_return(
    context: &mut EvmContext,
    frame: CallFrame,
    interpreter_result: InterpreterResult,
) -> (r: CallOutcome)
    requires
        old(context)@.wf(),
        old(context)@.journaled_state.checkpoints.len() > 0,
        old(context)@.journaled_state.checkpoints.last() == frame.frame_data.checkpoint,
    ensures
        final(context)@ == (EvmContextModel {
            journaled_state: spec_frame_end(
                old(context)@.journaled_state,
                interpreter_result.result,
            ),
            ..old(context)@
        }),
        final(context)@.wf(),
        r@ == (CallOutcomeModel {
            result: interpreter_result@,
            memory_range: frame.return_memory_range,
        }),
{
    context.call_frame_end(&interpreter_result, frame.frame_data.checkpoint);
    CallOutcome::new(interpreter_result, frame.return_memory_range)
}

/// Closes a creation frame: commits or reverts its checkpoint by
/// status, and attaches the created address to the outcome only on
/// success.
pub fn create_return(
    context: &mut EvmContext,
    frame: CreateFrame,
    interpreter_result: InterpreterResult,
) -> (r: CreateOutcome)
    requires
        old(context)@.wf(),
        old(context)@.journaled_state.checkpoints.len() > 0,
        old(context)@.journaled_state.checkpoints.last() == frame.frame_data.checkpoint,
    ensures
        final(context)@ == (EvmContextModel {
            journaled_state: spec_frame_end(
                old(context)@.journaled_state,
                interpreter_result.result,
            ),
            ..old(context)@
        }),
        final(context)@.wf(),
        r@.result == interpreter_result@,
        r@.address == if interpreter_result.result.spec_is_ok() {
            Some(frame.created_address@)
        } else {
            None::<Seq<u8>>
        },
{
    context.call_frame_end(&interpreter_result, frame.frame_data.checkpoint);
    let address: Option<Address> = if interpreter_result.result.is_ok() {
        Some(frame.created_address)
    } else {
        None
    };
    CreateOutcome::new(interpreter_result, address)
}

/// Delivers a completed sub-call's outcome into the parent frame's
/// still-running interpreter: output bytes land in the parent's memory
/// range, gas is absorbed by status, and the parent resumes.
pub fn insert_call_outcome(
    context: &mut EvmContext,
    frame: &mut Frame,
    shared_memory: &mut SharedMemory,
    outcome: CallOutcome,
)
    requires
        outcome.memory_range.wf(),
        outcome.memory_range.end <= old(shared_memory)@.len(),
        !outcome.result.result.spec_is_error() ==> old(frame)@.frame_data().interpreter.gas.remaining
            + outcome.result.gas.remaining <= old(frame)@.frame_data().interpreter.gas.limit,
        outcome.result.result.spec_is_ok() ==> 0 <= old(frame)@.frame_data().interpreter.gas.refunded
            + outcome.result.gas.refunded <= i64::MAX,
    ensures
        *final(context) == *old(context),
        final(shared_memory)@ == spec_write_range(
            old(shared_memory)@,
            outcome.memory_range,
            outcome.result@.output,
        ),
        final(frame)@.frame_data().interpreter == (InterpreterModel {
            instruction_result: InstructionResult::Continue,
            gas: spec_absorb_gas(
                old(frame)@.frame_data().interpreter.gas,
                outcome.result.gas,
                outcome.result.result,
            ),
            return_data: outcome.result@.output,
            ..old(frame)@.frame_data().interpreter
        }),
        final(frame)@.frame_data().checkpoint == old(frame)@.frame_data().checkpoint,
        (*final(frame)) is Call <==> (*old(frame)) is Call,
        (*final(frame)) is Call ==> (*final(frame))->Call_0.return_memory_range == (*old(frame))->Call_0.return_memory_range,
        (*final(frame)) is Create ==> (*final(frame))->Create_0.created_address@ == (*old(frame))->Create_0.created_address@,
{
    match frame {
        Frame::Call(f) => f.frame_data.interpreter.insert_call_outcome_into(shared_memory, outcome),
        Frame::Create(f) => f.frame_data.interpreter.insert_call_outcome_into(
            shared_memory,
            outcome,
        ),
    }
}

/// Delivers a completed sub-creation's outcome into the parent frame's
/// still-running interpreter.
pub fn insert_create_outcome(context: &mut EvmContext, frame: &mut Frame, outcome: CreateOutcome)
    requires
        !outcome.result.result.spec_is_error() ==> old(frame)@.frame_data().interpreter.gas.remaining
            + outcome.result.gas.remaining <= old(frame)@.frame_data().interpreter.gas.limit,
        outcome.result.result.spec_is_ok() ==> 0 <= old(frame)@.frame_data().interpreter.gas.refunded
            + outcome.result.gas.refunded <= i64::MAX,
    ensures
        *final(context) == *old(context),
        final(frame)@.frame_data().interpreter == (InterpreterModel {
            instruction_result: InstructionResult::Continue,
            gas: spec_absorb_gas(
                old(frame)@.frame_data().interpreter.gas,
                outcome.result.gas,
                outcome.result.result,
            ),
            return_data: outcome.result@.output,
            ..old(frame)@.frame_data().interpreter
        }),
        final(frame)@.frame_data().checkpoint == old(frame)@.frame_data().checkpoint,
        (*final(frame)) is Call <==> (*old(frame)) is Call,
        (*final(frame)) is Call ==> (*final(frame))->Call_0.return_memory_range == (*old(frame))->Call_0.return_memory_range,
        (*final(frame)) is Create ==> (*final(frame))->Create_0.created_address@ == (*old(frame))->Create_0.created_address@,
{
    match frame {
        Frame::Call(f) => f.frame_data.interpreter.insert_create_outcome_into(outcome),
        Frame::Create(f) => f.frame_data.interpreter.insert_create_outcome_into(outcome),
    }
}

} // verus!
