//! The instruction dispatch table: 256 handler slots indexed by opcode
//! byte, in a plain representation and a boxed one able to carry
//! instrumentation state.  Upgrading plain to boxed is total and
//! one-way.

use vstd::prelude::*;

verus! {

pub const STOP: u8 = 0x00;
pub const PUSH1: u8 = 0x60;
pub const LOG0: u8 = 0xa0;
pub const LOG1: u8 = 0xa1;
pub const LOG2: u8 = 0xa2;
pub const LOG3: u8 = 0xa3;
pub const LOG4: u8 = 0xa4;
pub const CREATE: u8 = 0xf0;
pub const CALL: u8 = 0xf1;
pub const SELFDESTRUCT: u8 = 0xff;

/// A plain instruction handler: the slot only records which of the
/// collaborating interpreter's routines it dispatches to.  Running the
/// routine is out of this core's scope.
#[derive(Clone, Copy, PartialEq, Eq, Structural, Debug)]
pub struct Instruction {
    pub routine: u8,
}

/// A boxed instruction handler: the same base routine plus the captured
/// instrumentation state of the slot — whether the per-step decorator
/// runs, and whether the slot carries a log or an account-destruction
/// hook layered on top.
#[derive(Clone, Copy, PartialEq, Eq, Structural, Debug)]
pub struct BoxedInstruction {
    pub base: Instruction,
    pub inspected: bool,
    pub log_hook: bool,
    pub selfdestruct_hook: bool,
}

/// The two representations of the dispatch table.
pub enum InstructionTables {
    Plain(Vec<Instruction>),
    Boxed(Vec<BoxedInstruction>),
}

/// The boxed slot that wraps a base instruction at the given opcode:
/// the step decorator everywhere, and the log or account-destruction
/// hook layered on the slots that can append such records.
pub open spec fn spec_wrap_entry(base: Instruction, opcode: u8) -> BoxedInstruction {
    BoxedInstruction {
        base,
        inspected: true,
        log_hook: LOG0 <= opcode <= LOG4,
        selfdestruct_hook: opcode == SELFDESTRUCT,
    }
}

/// The plain dispatch table: slot `i` dispatches opcode `i`.
pub fn make_instruction_table() -> (r: Vec<Instruction>)
    ensures
        r@.len() == 256,
        forall|i: int| 0 <= i < 256 ==> (#[trigger] r@[i]).routine == i,
{
    let mut r: Vec<Instruction> = Vec::new();
    let mut i: usize = 0;
    while i < 256
        invariant
            i <= 256,
            r@.len() == i,
            forall|j: int| 0 <= j < i ==> (#[trigger] r@[j]).routine == j,
        decreases 256 - i,
    {
        r.push(Instruction { routine: i as u8 });
        i = i + 1;
    }
    r
}

/// Wraps one instruction slot for instrumentation.
pub fn inspector_instruction(instruction: Instruction, opcode: u8) -> (r: BoxedInstruction)
    ensures
        r == spec_wrap_entry(instruction, opcode),
{
    BoxedInstruction {
        base: instruction,
        inspected: true,
        log_hook: LOG0 <= opcode && opcode <= LOG4,
        selfdestruct_hook: opcode == SELFDESTRUCT,
    }
}

/// Upgrades a whole plain table to the boxed representation, wrapping
/// every slot for instrumentation; the upgrade is total and there is no
/// way back.
pub fn make_boxed_instruction_table(table: Vec<Instruction>) -> (r: Vec<BoxedInstruction>)
    requires
        table@.len() <= 256,
    ensures
        r@.len() == table@.len(),
        forall|i: int|
            0 <= i < table@.len() ==> (#[trigger] r@[i]) == spec_wrap_entry(table@[i], i as u8),
{
    let mut r: Vec<BoxedInstruction> = Vec::new();
    let mut i: usize = 0;
    while i < table.len()
        invariant
            i <= table@.len(),
            table@.len() <= 256,
            r@.len() == i,
            forall|j: int|
                0 <= j < i ==> (#[trigger] r@[j]) == spec_wrap_entry(table@[j], j as u8),
        decreases table@.len() - i,
    {
        r.push(inspector_instruction(table[i], i as u8));
        i = i + 1;
    }
    r
}

/// Marks every slot of an already boxed table as inspected, keeping
/// each slot's base routine.
pub fn rewrap_boxed_instruction_table(table: Vec<BoxedInstruction>) -> (r: Vec<BoxedInstruction>)
    requires
        table@.len() <= 256,
    ensures
        r@.len() == table@.len(),
        forall|i: int|
            0 <= i < table@.len() ==> (#[trigger] r@[i]) == spec_wrap_entry(table@[i].base, i as u8),
{
    let mut r: Vec<BoxedInstruction> = Vec::new();
    let mut i: usize = 0;
    while i < table.len()
        invariant
            i <= table@.len(),
            table@.len() <= 256,
            r@.len() == i,
            forall|j: int|
                0 <= j < i ==> (#[trigger] r@[j]) == spec_wrap_entry(table@[j].base, j as u8),
        decreases table@.len() - i,
    {
        r.push(inspector_instruction(table[i].base, i as u8));
        i = i + 1;
    }
    r
}

} // verus!
