//! The execution context: environment plus journaled state, and the
//! frame orchestration it offers — opening a frame with a fresh
//! checkpoint, and committing or reverting that checkpoint when the
//! frame completes.

use vstd::prelude::*;
use crate::frame::{CallFrame, CallFrameModel, CallInputs, CallInputsModel, CallOutcomeModel,
    CreateFrame, CreateFrameModel, CreateInputs, CreateInputsModel, Frame, FrameDataModel,
    FrameModel, FrameOrResult, FrameOrResultModel, FrameResultModel};
use crate::gas::Gas;
use crate::interpreter::{spec_new_interpreter, InstructionResult, Interpreter, InterpreterResult,
    InterpreterResultModel};
use crate::journal::{spec_checkpoint, spec_commit, spec_revert, JournalCheckpoint, JournaledState,
    JournaledStateModel};
use crate::primitives::{Address, Env};

verus! {

/// Deeper than this many nested frames, a call or create resolves at
/// once to a depth-limit outcome instead of opening a frame.
pub const CALL_STACK_LIMIT: usize = 1024;

/// Environment plus journaled state: everything the execution handlers
/// read and mutate besides the frames themselves.
pub struct EvmContext {
    pub env: Env,
    pub journaled_state: JournaledState,
}

/// Mathematical image of an [`EvmContext`].
pub struct EvmContextModel {
    pub env: Env,
    pub journaled_state: JournaledStateModel,
}

impl View for EvmContext {
    type V = EvmContextModel;

    open spec fn view(&self) -> EvmContextModel {
        EvmContextModel { env: self.env, journaled_state: self.journaled_state@ }
    }
}

impl EvmContextModel {
    pub open spec fn wf(self) -> bool {
        self.journaled_state.wf()
    }
}

/// The destination address a creation frame is given before its code
/// runs.  Deriving addresses is the state store's business; this model
/// tags the caller with the low byte of the creation nonce.
pub open spec fn spec_derived_address(caller: Seq<u8>, nonce: int) -> Seq<u8> {
    caller.push((nonce % 256) as u8)
}

/// The context and frame-or-result that opening a call produces: past
/// the depth limit, an immediate depth-limit outcome; otherwise a fresh
/// frame holding a new checkpoint and a fresh interpreter.
pub open spec fn spec_make_call_frame(ctx: EvmContextModel, inputs: CallInputsModel) -> (
    EvmContextModel,
    FrameOrResultModel,
) {
    if ctx.journaled_state.depth > CALL_STACK_LIMIT {
        (
            ctx,
            FrameOrResultModel::Result(
                FrameResultModel::Call(
                    CallOutcomeModel {
                        result: InterpreterResultModel {
                            result: InstructionResult::CallTooDeep,
                            output: Seq::<u8>::empty(),
                            gas: Gas { limit: inputs.gas_limit, remaining: inputs.gas_limit, refunded: 0 },
                        },
                        memory_range: inputs.return_memory_range,
                    },
                ),
            ),
        )
    } else {
        let (js, cp) = spec_checkpoint(ctx.journaled_state);
        (
            EvmContextModel { env: ctx.env, journaled_state: js },
            FrameOrResultModel::Frame(
                FrameModel::Call(
                    CallFrameModel {
                        return_memory_range: inputs.return_memory_range,
                        frame_data: FrameDataModel {
                            checkpoint: cp,
                            interpreter: spec_new_interpreter(inputs.gas_limit),
                        },
                    },
                ),
            ),
        )
    }
}

/// The context and frame-or-result that opening a creation produces.
pub open spec fn spec_make_create_frame(ctx: EvmContextModel, inputs: CreateInputsModel) -> (
    EvmContextModel,
    FrameOrResultModel,
) {
    if ctx.journaled_state.depth > CALL_STACK_LIMIT {
        (
            ctx,
            FrameOrResultModel::Result(
                FrameResultModel::Create(
                    crate::frame::CreateOutcomeModel {
                        result: InterpreterResultModel {
                            result: InstructionResult::CallTooDeep,
                            output: Seq::<u8>::empty(),
                            gas: Gas { limit: inputs.gas_limit, remaining: inputs.gas_limit, refunded: 0 },
                        },
                        address: None,
                    },
                ),
            ),
        )
    } else {
        let with_nonce = JournaledStateModel { nonce: ctx.journaled_state.nonce + 1, ..ctx.journaled_state };
        let (js, cp) = spec_checkpoint(with_nonce);
        (
            EvmContextModel { env: ctx.env, journaled_state: js },
            FrameOrResultModel::Frame(
                FrameModel::Create(
                    CreateFrameModel {
                        created_address: spec_derived_address(
                            inputs.caller,
                            ctx.journaled_state.nonce,
                        ),
                        frame_data: FrameDataModel {
                            checkpoint: cp,
                            interpreter: spec_new_interpreter(inputs.gas_limit),
                        },
                    },
                ),
            ),
        )
    }
}

/// The journaled state after a frame's completion is folded in: a
/// success commits the frame's checkpoint, anything else reverts it.
pub open spec fn spec_frame_end(js: JournaledStateModel, status: InstructionResult) -> JournaledStateModel {
    if status.spec_is_ok() {
        spec_commit(js)
    } else {
        spec_revert(js)
    }
}

impl EvmContext {
    /// A fresh context for one transaction.
    pub fn new(env: Env) -> (r: EvmContext)
        ensures
            r@.env == env,
            r@.journaled_state == (JournaledStateModel {
                depth: 0,
                checkpoints: Seq::<JournalCheckpoint>::empty(),
                logs: Seq::<crate::journal::LogModel>::empty(),
                journal: Seq::<crate::journal::JournalEntryModel>::empty(),
                nonce: 0,
            }),
            r@.wf(),
    {
        EvmContext { env, journaled_state: JournaledState::new() }
    }

    /// Opens a call frame: checks the depth limit, then takes a rollback
    /// checkpoint and builds the frame around a fresh interpreter.
    pub fn make_call_frame(&mut self, inputs: &CallInputs) -> (r: FrameOrResult)
        requires
            old(self)@.wf(),
        ensures
            (final(self)@, r@) == spec_make_call_frame(old(self)@, inputs@),
            final(self)@.wf(),
    {
        if self.journaled_state.depth() > CALL_STACK_LIMIT {
            let outcome = crate::frame::CallOutcome::new(
                InterpreterResult {
                    result: InstructionResult::CallTooDeep,
                    output: Vec::new(),
                    gas: Gas::new(inputs.gas_limit),
                },
                inputs.return_memory_range,
            );
            FrameOrResult::Result(crate::frame::FrameResult::Call(outcome))
        } else {
            let cp = self.journaled_state.checkpoint();
            FrameOrResult::Frame(
                Frame::Call(
                    CallFrame {
                        return_memory_range: inputs.return_memory_range,
                        frame_data: crate::frame::FrameData {
                            checkpoint: cp,
                            interpreter: Interpreter::new(inputs.gas_limit),
                        },
                    },
                ),
            )
        }
    }

    /// Opens a creation frame: checks the depth limit, advances the
    /// creation nonce, precomputes the destination address, then takes a
    /// checkpoint and builds the frame.
    pub fn make_create_frame(&mut self, inputs: &CreateInputs) -> (r: FrameOrResult)
        requires
            old(self)@.wf(),
            old(self)@.journaled_state.nonce < u64::MAX,
        ensures
            (final(self)@, r@) == spec_make_create_frame(old(self)@, inputs@),
            final(self)@.wf(),
    {
        if self.journaled_state.depth() > CALL_STACK_LIMIT {
            let outcome = crate::frame::CreateOutcome::new(
                InterpreterResult {
                    result: InstructionResult::CallTooDeep,
                    output: Vec::new(),
                    gas: Gas::new(inputs.gas_limit),
                },
                None,
            );
            FrameOrResult::Result(crate::frame::FrameResult::Create(outcome))
        } else {
            let mut address_bytes = crate::primitives::clone_bytes(&inputs.caller.bytes);
            address_bytes.push((self.journaled_state.nonce % 256) as u8);
            self.journaled_state.nonce = self.journaled_state.nonce + 1;
            let cp = self.journaled_state.checkpoint();
            FrameOrResult::Frame(
                Frame::Create(
                    CreateFrame {
                        created_address: Address::new(address_bytes),
                        frame_data: crate::frame::FrameData {
                            checkpoint: cp,
                            interpreter: Interpreter::new(inputs.gas_limit),
                        },
                    },
                ),
            )
        }
    }

    /// Folds a call frame's completion into the journaled state:
    /// commits its checkpoint on success, reverts it otherwise.
    pub fn call_frame_end(&mut self, interpreter_result: &InterpreterResult, checkpoint: JournalCheckpoint)
        requires
            old(self)@.wf(),
            old(self)@.journaled_state.checkpoints.len() > 0,
            old(self)@.journaled_state.checkpoints.last() == checkpoint,
        ensures
            final(self)@ == (EvmContextModel {
                journaled_state: spec_frame_end(
                    old(self)@.journaled_state,
                    interpreter_result.result,
                ),
                ..old(self)@
            }),
            final(self)@.wf(),
    {
        if interpreter_result.result.is_ok() {
            self.journaled_state.checkpoint_commit(checkpoint);
        } else {
            self.journaled_state.checkpoint_revert(checkpoint);
        }
    }
}

} // verus!
