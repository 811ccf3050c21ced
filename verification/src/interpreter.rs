//! Frame-local interpreter state as this core sees it: status codes, the
//! instruction cursor, the frame's gas ledger and byte buffers.
//!
//! Running the code of a frame is the collaborating interpreter loop's
//! job; this module holds exactly the state that crosses the boundary
//! between that loop and the handlers and observers verified here.

use vstd::prelude::*;
use crate::gas::Gas;
use crate::primitives::clone_bytes;

verus! {

/// Status of an execution.  Statuses are data carried in outcomes, never
/// raised: success and revert kinds restore gas in different measure,
/// and every other kind forfeits it.
#[derive(Clone, Copy, PartialEq, Eq, Structural, Debug)]
pub enum InstructionResult {
    Continue,
    Stop,
    Return,
    SelfDestruct,
    Revert,
    CallTooDeep,
    OutOfFunds,
    OutOfGas,
    StackUnderflow,
    StackOverflow,
    InvalidOpcode,
    StateError,
}

impl InstructionResult {
    /// Success kinds: the frame finished its work.
    pub open spec fn spec_is_ok(self) -> bool {
        match self {
            InstructionResult::Continue
            | InstructionResult::Stop
            | InstructionResult::Return
            | InstructionResult::SelfDestruct => true,
            _ => false,
        }
    }

    /// Revert kinds: the frame undid its state changes but hands its
    /// remaining gas back.
    pub open spec fn spec_is_revert(self) -> bool {
        match self {
            InstructionResult::Revert
            | InstructionResult::CallTooDeep
            | InstructionResult::OutOfFunds => true,
            _ => false,
        }
    }

    /// Error kinds: everything else; such a frame forfeits all its gas.
    pub open spec fn spec_is_error(self) -> bool {
        !self.spec_is_ok() && !self.spec_is_revert()
    }

    pub fn is_ok(&self) -> (r: bool)
        ensures
            r == self.spec_is_ok(),
    {
        match self {
            InstructionResult::Continue
            | InstructionResult::Stop
            | InstructionResult::Return
            | InstructionResult::SelfDestruct => true,
            _ => false,
        }
    }

    pub fn is_revert(&self) -> (r: bool)
        ensures
            r == self.spec_is_revert(),
    {
        match self {
            InstructionResult::Revert
            | InstructionResult::CallTooDeep
            | InstructionResult::OutOfFunds => true,
            _ => false,
        }
    }

    pub fn is_error(&self) -> (r: bool)
        ensures
            r == self.spec_is_error(),
    {
        !self.is_ok() && !self.is_revert()
    }
}

/// A half-open range of addressable memory, `start..end`.
#[derive(Clone, Copy, PartialEq, Eq, Structural, Debug)]
pub struct MemRange {
    pub start: usize,
    pub end: usize,
}

impl MemRange {
    pub open spec fn wf(self) -> bool {
        self.start <= self.end
    }

    pub open spec fn spec_len(self) -> int {
        self.end - self.start
    }
}

/// What a finished frame hands back: its status, its output bytes and
/// its gas ledger.
pub struct InterpreterResult {
    pub result: InstructionResult,
    pub output: Vec<u8>,
    pub gas: Gas,
}

/// Mathematical image of an [`InterpreterResult`].
pub struct InterpreterResultModel {
    pub result: InstructionResult,
    pub output: Seq<u8>,
    pub gas: Gas,
}

impl View for InterpreterResult {
    type V = InterpreterResultModel;

    open spec fn view(&self) -> InterpreterResultModel {
        InterpreterResultModel { result: self.result, output: self.output@, gas: self.gas }
    }
}

impl DeepView for InterpreterResult {
    type V = InterpreterResultModel;

    open spec fn deep_view(&self) -> InterpreterResultModel {
        self.view()
    }
}

impl Clone for InterpreterResult {
    fn clone(&self) -> (r: Self)
        ensures
            r@ == self@,
    {
        InterpreterResult {
            result: self.result,
            output: clone_bytes(&self.output),
            gas: self.gas,
        }
    }
}

/// The memory a frame and its sub-calls address, owned by the running
/// execution context and threaded through the outcome-fold handlers.
pub struct SharedMemory {
    pub data: Vec<u8>,
}

impl View for SharedMemory {
    type V = Seq<u8>;

    open spec fn view(&self) -> Seq<u8> {
        self.data@
    }
}

impl SharedMemory {
    pub fn new() -> (r: SharedMemory)
        ensures
            r@ == Seq::<u8>::empty(),
    {
        SharedMemory { data: Vec::new() }
    }

    pub fn with_data(data: Vec<u8>) -> (r: SharedMemory)
        ensures
            r@ == data@,
    {
        SharedMemory { data }
    }

    pub fn len(&self) -> (r: usize)
        ensures
            r == self@.len(),
    {
        self.data.len()
    }
}

/// A child's remaining gas and refund folded into its parent's ledger:
/// success hands back both, revert only the remaining gas, an error
/// neither.
pub open spec fn spec_absorb_gas(parent: Gas, child: Gas, status: InstructionResult) -> Gas {
    if status.spec_is_ok() {
        Gas {
            limit: parent.limit,
            remaining: (parent.remaining + child.remaining) as u64,
            refunded: (parent.refunded + child.refunded) as i64,
        }
    } else if status.spec_is_revert() {
        Gas {
            limit: parent.limit,
            remaining: (parent.remaining + child.remaining) as u64,
            refunded: parent.refunded,
        }
    } else {
        parent
    }
}

/// Memory after the first `min(out.len(), range len)` output bytes are
/// written at `range.start`; the rest of the memory is untouched.
pub open spec fn spec_write_range(mem: Seq<u8>, range: MemRange, out: Seq<u8>) -> Seq<u8> {
    let n = if out.len() <= range.spec_len() {
        out.len() as int
    } else {
        range.spec_len()
    };
    mem.subrange(0, range.start as int) + out.subrange(0, n) + mem.subrange(
        range.start + n,
        mem.len() as int,
    )
}

/// Interpreter state of one activation frame.  The instruction cursor is
/// a checked offset into the frame's code, so rewinding it can never
/// underflow silently.
pub struct Interpreter {
    pub instruction_pointer: usize,
    pub instruction_result: InstructionResult,
    pub gas: Gas,
    pub return_data: Vec<u8>,
}

/// Mathematical image of an [`Interpreter`].
pub struct InterpreterModel {
    pub instruction_pointer: usize,
    pub instruction_result: InstructionResult,
    pub gas: Gas,
    pub return_data: Seq<u8>,
}

impl View for Interpreter {
    type V = InterpreterModel;

    open spec fn view(&self) -> InterpreterModel {
        InterpreterModel {
            instruction_pointer: self.instruction_pointer,
            instruction_result: self.instruction_result,
            gas: self.gas,
            return_data: self.return_data@,
        }
    }
}

impl Interpreter {
    /// A fresh interpreter for a frame granted `gas_limit` gas.
    pub fn new(gas_limit: u64) -> (r: Interpreter)
        ensures
            r@ == spec_new_interpreter(gas_limit),
    {
        Interpreter {
            instruction_pointer: 0,
            instruction_result: InstructionResult::Continue,
            gas: Gas::new(gas_limit),
            return_data: Vec::new(),
        }
    }

    /// Folds a completed sub-call's outcome into this still-running
    /// interpreter: writes the child's output into the parent's memory
    /// range, absorbs the child's gas by status, and resumes.
    pub fn insert_call_outcome_into(
        &mut self,
        shared_memory: &mut SharedMemory,
        outcome: crate::frame::CallOutcome,
    )
        requires
            outcome.memory_range.wf(),
            outcome.memory_range.end <= old(shared_memory)@.len(),
            !outcome.result.result.spec_is_error() ==> old(self).gas.remaining
                + outcome.result.gas.remaining <= old(self).gas.limit,
            outcome.result.result.spec_is_ok() ==> 0 <= old(self).gas.refunded
                + outcome.result.gas.refunded <= i64::MAX,
        ensures
            final(shared_memory)@ == spec_write_range(
                old(shared_memory)@,
                outcome.memory_range,
                outcome.result@.output,
            ),
            final(self)@ == (InterpreterModel {
                instruction_result: InstructionResult::Continue,
                gas: spec_absorb_gas(old(self).gas, outcome.result.gas, outcome.result.result),
                return_data: outcome.result@.output,
                ..old(self)@
            }),
    {
        let n: usize = if outcome.result.output.len() <= outcome.memory_range.end
            - outcome.memory_range.start {
            outcome.result.output.len()
        } else {
            outcome.memory_range.end - outcome.memory_range.start
        };
        let mut k: usize = 0;
        while k < n
            invariant
                k <= n,
                n <= outcome.result.output@.len(),
                outcome.memory_range.start + n <= outcome.memory_range.end,
                outcome.memory_range.end <= shared_memory@.len(),
                shared_memory@.len() == old(shared_memory)@.len(),
                forall|j: int|
                    0 <= j < shared_memory@.len() && !(outcome.memory_range.start <= j
                        < outcome.memory_range.start + k) ==> shared_memory@[j] == old(shared_memory)@[j],
                forall|j: int|
                    0 <= j < k ==> shared_memory@[outcome.memory_range.start + j]
                        == outcome.result.output@[j],
            decreases n - k,
        {
            shared_memory.data.set(outcome.memory_range.start + k, outcome.result.output[k]);
            k = k + 1;
        }
        proof {
            assert(shared_memory@ =~= spec_write_range(
                old(shared_memory)@,
                outcome.memory_range,
                outcome.result@.output,
            ));
        }
        self.absorb_outcome_gas(outcome.result.gas, outcome.result.result);
        self.return_data = outcome.result.output;
        self.instruction_result = InstructionResult::Continue;
    }

    /// Folds a completed sub-creation's outcome into this interpreter:
    /// absorbs the child's gas by status, stores the child's output as
    /// return data, and resumes.
    pub fn insert_create_outcome_into(&mut self, outcome: crate::frame::CreateOutcome)
        requires
            !outcome.result.result.spec_is_error() ==> old(self).gas.remaining
                + outcome.result.gas.remaining <= old(self).gas.limit,
            outcome.result.result.spec_is_ok() ==> 0 <= old(self).gas.refunded
                + outcome.result.gas.refunded <= i64::MAX,
        ensures
            final(self)@ == (InterpreterModel {
                instruction_result: InstructionResult::Continue,
                gas: spec_absorb_gas(old(self).gas, outcome.result.gas, outcome.result.result),
                return_data: outcome.result@.output,
                ..old(self)@
            }),
    {
        self.absorb_outcome_gas(outcome.result.gas, outcome.result.result);
        self.return_data = outcome.result.output;
        self.instruction_result = InstructionResult::Continue;
    }

    fn absorb_outcome_gas(&mut self, child: Gas, status: InstructionResult)
        requires
            !status.spec_is_error() ==> old(self).gas.remaining + child.remaining <= old(self).gas.limit,
            status.spec_is_ok() ==> 0 <= old(self).gas.refunded + child.refunded <= i64::MAX,
        ensures
            final(self)@ == (InterpreterModel {
                gas: spec_absorb_gas(old(self).gas, child, status),
                ..old(self)@
            }),
    {
        if status.is_ok() {
            self.gas.erase_cost(child.remaining);
            self.gas.record_refund(child.refunded);
        } else if status.is_revert() {
            self.gas.erase_cost(child.remaining);
        }
    }
}

/// The interpreter state a new frame starts from.
pub open spec fn spec_new_interpreter(gas_limit: u64) -> InterpreterModel {
    InterpreterModel {
        instruction_pointer: 0,
        instruction_result: InstructionResult::Continue,
        gas: Gas { limit: gas_limit, remaining: gas_limit, refunded: 0 },
        return_data: Seq::<u8>::empty(),
    }
}

} // verus!
