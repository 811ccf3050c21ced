//! Activation frames and their inputs and outcomes: what a call or a
//! contract creation is made from, and what it hands back.

use vstd::prelude::*;
use crate::gas::Gas;
use crate::interpreter::{Interpreter, InterpreterModel, InterpreterResult, InterpreterResultModel,
    MemRange};
use crate::journal::JournalCheckpoint;
use crate::primitives::{clone_bytes, Address};

verus! {

/// The inputs a call frame is created from, immutable for the frame's
/// lifetime.
pub struct CallInputs {
    pub caller: Address,
    pub target: Address,
    pub value: u128,
    pub input: Vec<u8>,
    pub gas_limit: u64,
    pub return_memory_range: MemRange,
}

/// Mathematical image of [`CallInputs`].
pub struct CallInputsModel {
    pub caller: Seq<u8>,
    pub target: Seq<u8>,
    pub value: u128,
    pub input: Seq<u8>,
    pub gas_limit: u64,
    pub return_memory_range: MemRange,
}

impl View for CallInputs {
    type V = CallInputsModel;

    open spec fn view(&self) -> CallInputsModel {
        CallInputsModel {
            caller: self.caller@,
            target: self.target@,
            value: self.value,
            input: self.input@,
            gas_limit: self.gas_limit,
            return_memory_range: self.return_memory_range,
        }
    }
}

impl DeepView for CallInputs {
    type V = CallInputsModel;

    open spec fn deep_view(&self) -> CallInputsModel {
        self.view()
    }
}

impl Clone for CallInputs {
    fn clone(&self) -> (r: Self)
        ensures
            r@ == self@,
    {
        CallInputs {
            caller: self.caller.clone(),
            target: self.target.clone(),
            value: self.value,
            input: clone_bytes(&self.input),
            gas_limit: self.gas_limit,
            return_memory_range: self.return_memory_range,
        }
    }
}

/// The inputs a creation frame is created from.
pub struct CreateInputs {
    pub caller: Address,
    pub value: u128,
    pub init_code: Vec<u8>,
    pub gas_limit: u64,
}

/// Mathematical image of [`CreateInputs`].
pub struct CreateInputsModel {
    pub caller: Seq<u8>,
    pub value: u128,
    pub init_code: Seq<u8>,
    pub gas_limit: u64,
}

impl View for CreateInputs {
    type V = CreateInputsModel;

    open spec fn view(&self) -> CreateInputsModel {
        CreateInputsModel {
            caller: self.caller@,
            value: self.value,
            init_code: self.init_code@,
            gas_limit: self.gas_limit,
        }
    }
}

impl DeepView for CreateInputs {
    type V = CreateInputsModel;

    open spec fn deep_view(&self) -> CreateInputsModel {
        self.view()
    }
}

impl Clone for CreateInputs {
    fn clone(&self) -> (r: Self)
        ensures
            r@ == self@,
    {
        CreateInputs {
            caller: self.caller.clone(),
            value: self.value,
            init_code: clone_bytes(&self.init_code),
            gas_limit: self.gas_limit,
        }
    }
}

/// Outcome of a completed call frame: the interpreter's result and the
/// caller's memory range that the output is written back into.
pub struct CallOutcome {
    pub result: InterpreterResult,
    pub memory_range: MemRange,
}

/// Mathematical image of [`CallOutcome`].
pub struct CallOutcomeModel {
    pub result: InterpreterResultModel,
    pub memory_range: MemRange,
}

impl View for CallOutcome {
    type V = CallOutcomeModel;

    open spec fn view(&self) -> CallOutcomeModel {
        CallOutcomeModel { result: self.result@, memory_range: self.memory_range }
    }
}

impl Clone for CallOutcome {
    fn clone(&self) -> (r: Self)
        ensures
            r@ == self@,
    {
        CallOutcome { result: self.result.clone(), memory_range: self.memory_range }
    }
}

impl CallOutcome {
    pub fn new(result: InterpreterResult, memory_range: MemRange) -> (r: CallOutcome)
        ensures
            r@ == (CallOutcomeModel { result: result@, memory_range }),
    {
        CallOutcome { result, memory_range }
    }
}

/// Outcome of a completed creation frame; the created address is present
/// only on success.
pub struct CreateOutcome {
    pub result: InterpreterResult,
    pub address: Option<Address>,
}

/// Mathematical image of [`CreateOutcome`].
pub struct CreateOutcomeModel {
    pub result: InterpreterResultModel,
    pub address: Option<Seq<u8>>,
}

impl View for CreateOutcome {
    type V = CreateOutcomeModel;

    open spec fn view(&self) -> CreateOutcomeModel {
        CreateOutcomeModel {
            result: self.result@,
            address: match self.address {
                Some(a) => Some(a@),
                None => None,
            },
        }
    }
}

impl Clone for CreateOutcome {
    fn clone(&self) -> (r: Self)
        ensures
            r@ == self@,
    {
        CreateOutcome {
            result: self.result.clone(),
            address: match &self.address {
                Some(a) => Some(a.clone()),
                None => None,
            },
        }
    }
}

impl CreateOutcome {
    pub fn new(result: InterpreterResult, address: Option<Address>) -> (r: CreateOutcome)
        ensures
            r@.result == result@,
            r@.address == match address {
                Some(a) => Some(a@),
                None => None::<Seq<u8>>,
            },
    {
        CreateOutcome { result, address }
    }
}

/// Outcome of a frame of either kind, produced exactly once per frame
/// and consumed exactly once by the parent or the top-level driver.
pub enum FrameResult {
    Call(CallOutcome),
    Create(CreateOutcome),
}

/// Mathematical image of [`FrameResult`].
pub enum FrameResultModel {
    Call(CallOutcomeModel),
    Create(CreateOutcomeModel),
}

impl View for FrameResult {
    type V = FrameResultModel;

    open spec fn view(&self) -> FrameResultModel {
        match self {
            FrameResult::Call(o) => FrameResultModel::Call(o@),
            FrameResult::Create(o) => FrameResultModel::Create(o@),
        }
    }
}

impl FrameResultModel {
    /// The interpreter result inside, whichever kind the frame was.
    pub open spec fn interpreter_result(self) -> InterpreterResultModel {
        match self {
            FrameResultModel::Call(o) => o.result,
            FrameResultModel::Create(o) => o.result,
        }
    }

    /// The same outcome with its gas ledger replaced.
    pub open spec fn with_gas(self, gas: Gas) -> FrameResultModel {
        match self {
            FrameResultModel::Call(o) => FrameResultModel::Call(
                CallOutcomeModel {
                    result: InterpreterResultModel { gas, ..o.result },
                    memory_range: o.memory_range,
                },
            ),
            FrameResultModel::Create(o) => FrameResultModel::Create(
                CreateOutcomeModel {
                    result: InterpreterResultModel { gas, ..o.result },
                    address: o.address,
                },
            ),
        }
    }
}

impl FrameResult {
    /// The settled gas of the outcome.
    pub fn gas(&self) -> (r: Gas)
        ensures
            r == self@.interpreter_result().gas,
    {
        match self {
            FrameResult::Call(o) => o.result.gas,
            FrameResult::Create(o) => o.result.gas,
        }
    }

    /// The execution status of the outcome.
    pub fn status(&self) -> (r: crate::interpreter::InstructionResult)
        ensures
            r == self@.interpreter_result().result,
    {
        match self {
            FrameResult::Call(o) => o.result.result,
            FrameResult::Create(o) => o.result.result,
        }
    }
}

/// One activation frame's bookkeeping: its rollback checkpoint and its
/// interpreter state, owned exclusively while the frame is active.
pub struct FrameData {
    pub checkpoint: JournalCheckpoint,
    pub interpreter: Interpreter,
}

/// Mathematical image of [`FrameData`].
pub struct FrameDataModel {
    pub checkpoint: JournalCheckpoint,
    pub interpreter: InterpreterModel,
}

impl View for FrameData {
    type V = FrameDataModel;

    open spec fn view(&self) -> FrameDataModel {
        FrameDataModel { checkpoint: self.checkpoint, interpreter: self.interpreter@ }
    }
}

/// A live call frame.
pub struct CallFrame {
    pub return_memory_range: MemRange,
    pub frame_data: FrameData,
}

/// Mathematical image of [`CallFrame`].
pub struct CallFrameModel {
    pub return_memory_range: MemRange,
    pub frame_data: FrameDataModel,
}

impl View for CallFrame {
    type V = CallFrameModel;

    open spec fn view(&self) -> CallFrameModel {
        CallFrameModel {
            return_memory_range: self.return_memory_range,
            frame_data: self.frame_data@,
        }
    }
}

/// A live creation frame, with its destination address precomputed
/// before any code runs.
pub struct CreateFrame {
    pub created_address: Address,
    pub frame_data: FrameData,
}

/// Mathematical image of [`CreateFrame`].
pub struct CreateFrameModel {
    pub created_address: Seq<u8>,
    pub frame_data: FrameDataModel,
}

impl View for CreateFrame {
    type V = CreateFrameModel;

    open spec fn view(&self) -> CreateFrameModel {
        CreateFrameModel { created_address: self.created_address@, frame_data: self.frame_data@ }
    }
}

/// A live frame of either kind.
pub enum Frame {
    Call(CallFrame),
    Create(CreateFrame),
}

/// Mathematical image of [`Frame`].
pub enum FrameModel {
    Call(CallFrameModel),
    Create(CreateFrameModel),
}

impl View for Frame {
    type V = FrameModel;

    open spec fn view(&self) -> FrameModel {
        match self {
            Frame::Call(f) => FrameModel::Call(f@),
            Frame::Create(f) => FrameModel::Create(f@),
        }
    }
}

impl FrameModel {
    pub open spec fn frame_data(self) -> FrameDataModel {
        match self {
            FrameModel::Call(f) => f.frame_data,
            FrameModel::Create(f) => f.frame_data,
        }
    }
}

/// What a frame-creation handler yields: a live frame to interpret, or a
/// result resolved without entering interpretation.
pub enum FrameOrResult {
    Frame(Frame),
    Result(FrameResult),
}

/// Mathematical image of [`FrameOrResult`].
pub enum FrameOrResultModel {
    Frame(FrameModel),
    Result(FrameResultModel),
}

impl View for FrameOrResult {
    type V = FrameOrResultModel;

    open spec fn view(&self) -> FrameOrResultModel {
        match self {
            FrameOrResult::Frame(f) => FrameOrResultModel::Frame(f@),
            FrameOrResult::Result(r) => FrameOrResultModel::Result(r@),
        }
    }
}

} // verus!
