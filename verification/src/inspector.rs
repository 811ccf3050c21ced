//! The instrumentation layer: an observer trait hooked into every
//! instruction and every frame-lifecycle handler, correlation stacks
//! pairing each frame's entry with its exit callback, and the decorated
//! handlers themselves.
//!
//! A transparent observer — one whose hooks leave the interpreter, the
//! context and the inputs untouched and never short-circuit — provably
//! changes nothing: every decorated handler's contract states that under
//! `spec_transparent` its outputs equal the plain handler's.

use vstd::prelude::*;
use crate::context::{spec_make_call_frame, spec_make_create_frame, EvmContext, EvmContextModel};
use crate::execution::spec_settle_gas;
use crate::frame::{CallInputs, CallInputsModel, CallOutcome, CreateInputs, CreateInputsModel,
    CreateOutcome, Frame, FrameModel, FrameOrResult, FrameOrResultModel, FrameResult,
    FrameResultModel};
use crate::interpreter::{spec_absorb_gas, spec_write_range, InstructionResult, Interpreter,
    InterpreterModel, SharedMemory};
use crate::journal::{JournalEntry, Log};
use crate::primitives::{Address, SpecId};

verus! {

/// An observer of execution: read or override access at every
/// instruction and at every frame boundary.
///
/// Every hook keeps the journaled state well formed and leaves the
/// transaction environment alone, and the creation entry hook leaves
/// the creation nonce alone; an end hook may replace an outcome's
/// status and output but keeps its gas ledger and its memory range, so
/// gas accounting stays sound under arbitrary observation.  An observer whose `spec_transparent` holds promises
/// more: its hooks change nothing at all outside the observer itself.
pub trait Inspector: Sized {
    /// Whether this observer is a pure one: no hook touches the
    /// interpreter, the context or the inputs, and none short-circuits.
    spec fn spec_transparent() -> bool;

    /// Called once on each newly created frame's interpreter.
    fn initialize_interp(&mut self, interp: &mut Interpreter, ctx: &mut EvmContext)
        requires
            old(ctx)@.wf(),
        ensures
            final(ctx)@.wf(),
            final(ctx)@.env == old(ctx)@.env,
            Self::spec_transparent() ==> final(interp)@ == old(interp)@ && final(ctx)@ == old(ctx)@,
    ;

    /// Called before each instruction, with the cursor rewound to the
    /// about-to-execute position.
    fn step(&mut self, interp: &mut Interpreter, ctx: &mut EvmContext)
        requires
            old(ctx)@.wf(),
            old(interp)@.instruction_pointer < usize::MAX,
        ensures
            final(ctx)@.wf(),
            final(ctx)@.env == old(ctx)@.env,
            final(interp)@.instruction_pointer < usize::MAX,
            Self::spec_transparent() ==> final(interp)@ == old(interp)@ && final(ctx)@ == old(ctx)@,
    ;

    /// Called after each instruction that was not short-circuited.
    fn step_end(&mut self, interp: &mut Interpreter, ctx: &mut EvmContext)
        requires
            old(ctx)@.wf(),
        ensures
            final(ctx)@.wf(),
            final(ctx)@.env == old(ctx)@.env,
            Self::spec_transparent() ==> final(interp)@ == old(interp)@ && final(ctx)@ == old(ctx)@,
    ;

    /// Called before a call frame opens; a `Some` return short-circuits
    /// the call with that outcome.
    fn call(&mut self, ctx: &mut EvmContext, inputs: &mut CallInputs) -> (r: Option<CallOutcome>)
        requires
            old(ctx)@.wf(),
        ensures
            final(ctx)@.wf(),
            final(ctx)@.env == old(ctx)@.env,
            Self::spec_transparent() ==> final(ctx)@ == old(ctx)@ && final(inputs)@ == old(inputs)@ && r is None,
    ;

    /// Called on a call frame's outcome before it is folded back; the
    /// return replaces the outcome, keeping its gas and memory range.
    fn call_end(&mut self, ctx: &mut EvmContext, inputs: &CallInputs, outcome: CallOutcome) -> (r:
        CallOutcome)
        requires
            old(ctx)@.wf(),
        ensures
            final(ctx)@.wf(),
            final(ctx)@.env == old(ctx)@.env,
            r@.result.gas == outcome@.result.gas,
            r@.memory_range == outcome@.memory_range,
            Self::spec_transparent() ==> final(ctx)@ == old(ctx)@ && r@ == outcome@,
    ;

    /// Called before a creation frame opens; a `Some` return
    /// short-circuits the creation with that outcome.
    fn create(&mut self, ctx: &mut EvmContext, inputs: &mut CreateInputs) -> (r: Option<
        CreateOutcome,
    >)
        requires
            old(ctx)@.wf(),
        ensures
            final(ctx)@.wf(),
            final(ctx)@.env == old(ctx)@.env,
            final(ctx)@.journaled_state.nonce == old(ctx)@.journaled_state.nonce,
            Self::spec_transparent() ==> final(ctx)@ == old(ctx)@ && final(inputs)@ == old(inputs)@ && r is None,
    ;

    /// Called on a creation frame's outcome before it is folded back.
    fn create_end(&mut self, ctx: &mut EvmContext, inputs: &CreateInputs, outcome: CreateOutcome) -> (r:
        CreateOutcome)
        requires
            old(ctx)@.wf(),
        ensures
            final(ctx)@.wf(),
            final(ctx)@.env == old(ctx)@.env,
            r@.result.gas == outcome@.result.gas,
            Self::spec_transparent() ==> final(ctx)@ == old(ctx)@ && r@ == outcome@,
    ;

    /// Called with each log record actually appended by an instruction.
    fn log(&mut self, ctx: &mut EvmContext, record: &Log)
        requires
            old(ctx)@.wf(),
        ensures
            final(ctx)@.wf(),
            final(ctx)@.env == old(ctx)@.env,
            Self::spec_transparent() ==> final(ctx)@ == old(ctx)@,
    ;

    /// Called with each account destruction actually journaled.
    fn selfdestruct(&mut self, address: &Address, target: &Address, had_balance: u128);
}

/// Provides access to an observer instance; lets wrappers around an
/// observer register as if they were the observer itself.
pub trait GetInspector<I: Inspector> {
    fn get_inspector(&mut self) -> &mut I;
}

impl<I: Inspector> GetInspector<I> for I {
    fn get_inspector(&mut self) -> &mut I {
        self
    }
}

/// The observer that does nothing at all.
pub struct NoOpInspector {}

impl Inspector for NoOpInspector {
    open spec fn spec_transparent() -> bool {
        true
    }

    fn initialize_interp(&mut self, interp: &mut Interpreter, ctx: &mut EvmContext) {
    }

    fn step(&mut self, interp: &mut Interpreter, ctx: &mut EvmContext) {
    }

    fn step_end(&mut self, interp: &mut Interpreter, ctx: &mut EvmContext) {
    }

    fn call(&mut self, ctx: &mut EvmContext, inputs: &mut CallInputs) -> (r: Option<CallOutcome>) {
        None
    }

    fn call_end(&mut self, ctx: &mut EvmContext, inputs: &CallInputs, outcome: CallOutcome) -> (r:
        CallOutcome) {
        outcome
    }

    fn create(&mut self, ctx: &mut EvmContext, inputs: &mut CreateInputs) -> (r: Option<
        CreateOutcome,
    >) {
        None
    }

    fn create_end(&mut self, ctx: &mut EvmContext, inputs: &CreateInputs, outcome: CreateOutcome) -> (r:
        CreateOutcome) {
        outcome
    }

    fn log(&mut self, ctx: &mut EvmContext, record: &Log) {
    }

    fn selfdestruct(&mut self, address: &Address, target: &Address, had_balance: u128) {
    }
}

/// A transparent observer that counts how often each hook fires;
/// counters saturate at their word size.
pub struct CountingInspector {
    pub initialize_interp_count: u64,
    pub step_count: u64,
    pub step_end_count: u64,
    pub call_count: u64,
    pub call_end_count: u64,
    pub create_count: u64,
    pub create_end_count: u64,
    pub log_count: u64,
    pub selfdestruct_count: u64,
}

impl CountingInspector {
    pub fn new() -> (r: CountingInspector)
        ensures
            r.initialize_interp_count == 0,
            r.step_count == 0,
            r.step_end_count == 0,
            r.call_count == 0,
            r.call_end_count == 0,
            r.create_count == 0,
            r.create_end_count == 0,
            r.log_count == 0,
            r.selfdestruct_count == 0,
    {
        CountingInspector {
            initialize_interp_count: 0,
            step_count: 0,
            step_end_count: 0,
            call_count: 0,
            call_end_count: 0,
            create_count: 0,
            create_end_count: 0,
            log_count: 0,
            selfdestruct_count: 0,
        }
    }
}

fn saturating_bump(counter: &mut u64)
    ensures
        *final(counter) == if *old(counter) < u64::MAX {
            (*old(counter) + 1) as u64
        } else {
            u64::MAX
        },
{
    if *counter < u64::MAX {
        *counter = *counter + 1;
    }
}

impl Inspector for CountingInspector {
    open spec fn spec_transparent() -> bool {
        true
    }

    fn initialize_interp(&mut self, interp: &mut Interpreter, ctx: &mut EvmContext) {
        saturating_bump(&mut self.initialize_interp_count);
    }

    fn step(&mut self, interp: &mut Interpreter, ctx: &mut EvmContext) {
        saturating_bump(&mut self.step_count);
    }

    fn step_end(&mut self, interp: &mut Interpreter, ctx: &mut EvmContext) {
        saturating_bump(&mut self.step_end_count);
    }

    fn call(&mut self, ctx: &mut EvmContext, inputs: &mut CallInputs) -> (r: Option<CallOutcome>) {
        saturating_bump(&mut self.call_count);
        None
    }

    fn call_end(&mut self, ctx: &mut EvmContext, inputs: &CallInputs, outcome: CallOutcome) -> (r:
        CallOutcome) {
        saturating_bump(&mut self.call_end_count);
        outcome
    }

    fn create(&mut self, ctx: &mut EvmContext, inputs: &mut CreateInputs) -> (r: Option<
        CreateOutcome,
    >) {
        saturating_bump(&mut self.create_count);
        None
    }

    fn create_end(&mut self, ctx: &mut EvmContext, inputs: &CreateInputs, outcome: CreateOutcome) -> (r:
        CreateOutcome) {
        saturating_bump(&mut self.create_end_count);
        outcome
    }

    fn log(&mut self, ctx: &mut EvmContext, record: &Log) {
        saturating_bump(&mut self.log_count);
    }

    fn selfdestruct(&mut self, address: &Address, target: &Address, had_balance: u128) {
        saturating_bump(&mut self.selfdestruct_count);
    }
}

/// The two correlation stacks: pending call inputs and pending create
/// inputs, pushed on frame entry and popped, strictly LIFO, on frame
/// exit.
pub struct InspectorStacks {
    pub call_inputs: Vec<CallInputs>,
    pub create_inputs: Vec<CreateInputs>,
}

/// Mathematical image of the correlation stacks.
pub struct InspectorStacksModel {
    pub call_inputs: Seq<CallInputsModel>,
    pub create_inputs: Seq<CreateInputsModel>,
}

impl View for InspectorStacks {
    type V = InspectorStacksModel;

    open spec fn view(&self) -> InspectorStacksModel {
        InspectorStacksModel {
            call_inputs: self.call_inputs.deep_view(),
            create_inputs: self.create_inputs.deep_view(),
        }
    }
}

impl InspectorStacks {
    pub fn new() -> (r: InspectorStacks)
        ensures
            r@.call_inputs == Seq::<CallInputsModel>::empty(),
            r@.create_inputs == Seq::<CreateInputsModel>::empty(),
    {
        let r = InspectorStacks { call_inputs: Vec::new(), create_inputs: Vec::new() };
        proof {
            assert(r@.call_inputs =~= Seq::<CallInputsModel>::empty());
            assert(r@.create_inputs =~= Seq::<CreateInputsModel>::empty());
        }
        r
    }

    pub fn call_depth(&self) -> (r: usize)
        ensures
            r == self@.call_inputs.len(),
    {
        self.call_inputs.len()
    }

    pub fn create_depth(&self) -> (r: usize)
        ensures
            r == self@.create_inputs.len(),
    {
        self.create_inputs.len()
    }

    /// Pops the pending input of the innermost open call.  A pop
    /// without a matching push is a broken correlation contract —
    /// entry and exit instrumentation desynchronized from control flow
    /// — and surfaces as `None`, never as a silent recovery.
    pub fn pop_call_input(&mut self) -> (r: Option<CallInputs>)
        ensures
            final(self)@.create_inputs == old(self)@.create_inputs,
            old(self)@.call_inputs.len() == 0 ==> r is None && final(self)@ == old(self)@,
            old(self)@.call_inputs.len() > 0 ==> (r matches Some(i) && i@ == old(self)@.call_inputs.last()) && final(self)@.call_inputs == old(self)@.call_inputs.drop_last(),
    {
        let r = self.call_inputs.pop();
        proof {
            if old(self)@.call_inputs.len() > 0 {
                assert(self.call_inputs.deep_view() =~= old(self)@.call_inputs.drop_last());
            } else {
                assert(self.call_inputs.deep_view() =~= old(self)@.call_inputs);
            }
        }
        r
    }

    /// Pops the pending input of the innermost open creation; `None`
    /// reports the same broken contract as [`Self::pop_call_input`].
    pub fn pop_create_input(&mut self) -> (r: Option<CreateInputs>)
        ensures
            final(self)@.call_inputs == old(self)@.call_inputs,
            old(self)@.create_inputs.len() == 0 ==> r is None && final(self)@ == old(self)@,
            old(self)@.create_inputs.len() > 0 ==> (r matches Some(i) && i@ == old(self)@.create_inputs.last()) && final(self)@.create_inputs == old(self)@.create_inputs.drop_last(),
    {
        let r = self.create_inputs.pop();
        proof {
            if old(self)@.create_inputs.len() > 0 {
                assert(self.create_inputs.deep_view() =~= old(self)@.create_inputs.drop_last());
            } else {
                assert(self.create_inputs.deep_view() =~= old(self)@.create_inputs);
            }
        }
        r
    }
}

/// What the decorated call entry yields for any observer, over the
/// inputs it pushed (`m`) and the context as the observer's entry hook
/// left it (`c`).  Either the observer short-circuited — the result is
/// a resolved call outcome, the context exactly `c`, and the plain
/// handler never ran — or the plain handler ran on `c` and `m`: its
/// immediate result is returned unchanged with the context it left, and
/// its live frame is returned with the checkpoint and memory range the
/// handler gave it (the initialization hook sees only the frame's
/// interpreter and the context).
pub open spec fn spec_call_entry_outcome(
    c: EvmContextModel,
    m: CallInputsModel,
    post_ctx: EvmContextModel,
    r: FrameOrResultModel,
) -> bool {
    ||| (r matches FrameOrResultModel::Result(FrameResultModel::Call(_)) && post_ctx == c)
    ||| ({
        let handled = spec_make_call_frame(c, m);
        match handled.1 {
            FrameOrResultModel::Result(res) => r == FrameOrResultModel::Result(res) && post_ctx
                == handled.0,
            FrameOrResultModel::Frame(f) => {
                &&& r matches FrameOrResultModel::Frame(FrameModel::Call(g))
                &&& f matches FrameModel::Call(cf)
                &&& g.return_memory_range == cf.return_memory_range
                &&& g.frame_data.checkpoint == cf.frame_data.checkpoint
            },
        }
    })
}

/// What the decorated create entry yields for any observer, the
/// creation counterpart of [`spec_call_entry_outcome`].
pub open spec fn spec_create_entry_outcome(
    c: EvmContextModel,
    m: CreateInputsModel,
    post_ctx: EvmContextModel,
    r: FrameOrResultModel,
) -> bool {
    ||| (r matches FrameOrResultModel::Result(FrameResultModel::Create(_)) && post_ctx == c)
    ||| ({
        let handled = spec_make_create_frame(c, m);
        match handled.1 {
            FrameOrResultModel::Result(res) => r == FrameOrResultModel::Result(res) && post_ctx
                == handled.0,
            FrameOrResultModel::Frame(f) => {
                &&& r matches FrameOrResultModel::Frame(FrameModel::Create(g))
                &&& f matches FrameModel::Create(cf)
                &&& g.created_address == cf.created_address
                &&& g.frame_data.checkpoint == cf.frame_data.checkpoint
            },
        }
    })
}

/// The decorated call handler: asks the observer first, pushes the
/// (possibly mutated) inputs onto the correlation stack, and either
/// returns the observer's substitute outcome or delegates and hands the
/// new frame's interpreter to `initialize_interp`.
pub fn inspected_call<I: Inspector>(
    insp: &mut I,
    stacks: &mut InspectorStacks,
    ctx: &mut EvmContext,
    inputs: CallInputs,
) -> (r: FrameOrResult)
    requires
        old(ctx)@.wf(),
    ensures
        final(ctx)@.wf(),
        final(ctx)@.env == old(ctx)@.env,
        final(stacks)@.create_inputs == old(stacks)@.create_inputs,
        exists|m: CallInputsModel, c: EvmContextModel|
            {
                &&& final(stacks)@.call_inputs == old(stacks)@.call_inputs.push(m)
                &&& c.wf()
                &&& c.env == old(ctx)@.env
                &&& #[trigger] spec_call_entry_outcome(c, m, final(ctx)@, r@)
            },
        I::spec_transparent() ==> final(stacks)@.call_inputs == old(stacks)@.call_inputs.push(
            inputs@,
        ) && (final(ctx)@, r@) == spec_make_call_frame(old(ctx)@, inputs@),
{
    let mut inputs = inputs;
    let overridden = insp.call(ctx, &mut inputs);
    let ghost pushed = inputs@;
    let ghost hooked_ctx = ctx@;
    match overridden {
        Some(outcome) => {
            stacks.call_inputs.push(inputs);
            let r = FrameOrResult::Result(FrameResult::Call(outcome));
            proof {
                assert(stacks@.call_inputs =~= old(stacks)@.call_inputs.push(pushed));
                assert(spec_call_entry_outcome(hooked_ctx, pushed, ctx@, r@));
            }
            return r;
        },
        None => {},
    }
    stacks.call_inputs.push(inputs.clone());
    proof {
        assert(stacks@.call_inputs =~= old(stacks)@.call_inputs.push(pushed));
    }
    let mut frame_or_result = crate::execution::call(ctx, inputs);
    match &mut frame_or_result {
        FrameOrResult::Frame(frame) => {
            match frame {
                Frame::Call(f) => insp.initialize_interp(&mut f.frame_data.interpreter, ctx),
                Frame::Create(f) => insp.initialize_interp(&mut f.frame_data.interpreter, ctx),
            }
        },
        FrameOrResult::Result(_) => {},
    }
    proof {
        assert(spec_call_entry_outcome(hooked_ctx, pushed, ctx@, frame_or_result@));
    }
    frame_or_result
}

/// The decorated create handler, symmetric to [`inspected_call`].
pub fn inspected_create<I: Inspector>(
    insp: &mut I,
    stacks: &mut InspectorStacks,
    ctx: &mut EvmContext,
    inputs: CreateInputs,
) -> (r: FrameOrResult)
    requires
        old(ctx)@.wf(),
        old(ctx)@.journaled_state.nonce < u64::MAX,
    ensures
        final(ctx)@.wf(),
        final(ctx)@.env == old(ctx)@.env,
        final(stacks)@.call_inputs == old(stacks)@.call_inputs,
        exists|m: CreateInputsModel, c: EvmContextModel|
            {
                &&& final(stacks)@.create_inputs == old(stacks)@.create_inputs.push(m)
                &&& c.wf()
                &&& c.env == old(ctx)@.env
                &&& #[trigger] spec_create_entry_outcome(c, m, final(ctx)@, r@)
            },
        I::spec_transparent() ==> final(stacks)@.create_inputs == old(stacks)@.create_inputs.push(
            inputs@,
        ) && (final(ctx)@, r@) == spec_make_create_frame(old(ctx)@, inputs@),
{
    let mut inputs = inputs;
    let overridden = insp.create(ctx, &mut inputs);
    let ghost pushed = inputs@;
    let ghost hooked_ctx = ctx@;
    match overridden {
        Some(outcome) => {
            stacks.create_inputs.push(inputs);
            let r = FrameOrResult::Result(FrameResult::Create(outcome));
            proof {
                assert(stacks@.create_inputs =~= old(stacks)@.create_inputs.push(pushed));
                assert(spec_create_entry_outcome(hooked_ctx, pushed, ctx@, r@));
            }
            return r;
        },
        None => {},
    }
    stacks.create_inputs.push(inputs.clone());
    proof {
        assert(stacks@.create_inputs =~= old(stacks)@.create_inputs.push(pushed));
    }
    let mut frame_or_result = crate::execution::create(ctx, inputs);
    match &mut frame_or_result {
        FrameOrResult::Frame(frame) => {
            match frame {
                Frame::Call(f) => insp.initialize_interp(&mut f.frame_data.interpreter, ctx),
                Frame::Create(f) => insp.initialize_interp(&mut f.frame_data.interpreter, ctx),
            }
        },
        FrameOrResult::Result(_) => {},
    }
    proof {
        assert(spec_create_entry_outcome(hooked_ctx, pushed, ctx@, frame_or_result@));
    }
    frame_or_result
}

/// The decorated call outcome fold: pops the matching correlation
/// entry (a pop on an empty stack is the fatal contract violation the
/// `requires` excludes), lets the observer replace the outcome, then
/// delegates.
pub fn inspected_insert_call_outcome<I: Inspector>(
    insp: &mut I,
    stacks: &mut InspectorStacks,
    ctx: &mut EvmContext,
    frame: &mut Frame,
    shared_memory: &mut SharedMemory,
    outcome: CallOutcome,
)
    requires
        old(ctx)@.wf(),
        old(stacks)@.call_inputs.len() > 0,
        outcome.memory_range.wf(),
        outcome.memory_range.end <= old(shared_memory)@.len(),
        old(frame)@.frame_data().interpreter.gas.remaining + outcome.result.gas.remaining <= old(frame)@.frame_data().interpreter.gas.limit,
        0 <= old(frame)@.frame_data().interpreter.gas.refunded + outcome.result.gas.refunded
            <= i64::MAX,
    ensures
        final(ctx)@.wf(),
        final(ctx)@.env == old(ctx)@.env,
        final(stacks)@.call_inputs == old(stacks)@.call_inputs.drop_last(),
        final(stacks)@.create_inputs == old(stacks)@.create_inputs,
        (*final(frame)) is Call <==> (*old(frame)) is Call,
        final(frame)@.frame_data().checkpoint == old(frame)@.frame_data().checkpoint,
        final(frame)@.frame_data().interpreter.instruction_result == InstructionResult::Continue,
        I::spec_transparent() ==> final(ctx)@ == old(ctx)@ && final(shared_memory)@
            == spec_write_range(old(shared_memory)@, outcome.memory_range, outcome.result@.output)
            && final(frame)@.frame_data().interpreter == (InterpreterModel {
            instruction_result: InstructionResult::Continue,
            gas: spec_absorb_gas(
                old(frame)@.frame_data().interpreter.gas,
                outcome.result.gas,
                outcome.result.result,
            ),
            return_data: outcome.result@.output,
            ..old(frame)@.frame_data().interpreter
        }),
{
    let popped = stacks.pop_call_input();
    let inputs = match popped {
        Some(i) => i,
        None => unreached(),
    };
    let replaced = insp.call_end(ctx, &inputs, outcome);
    crate::execution::insert_call_outcome(ctx, frame, shared_memory, replaced);
}

/// The decorated create outcome fold, symmetric to
/// [`inspected_insert_call_outcome`].
pub fn inspected_insert_create_outcome<I: Inspector>(
    insp: &mut I,
    stacks: &mut InspectorStacks,
    ctx: &mut EvmContext,
    frame: &mut Frame,
    outcome: CreateOutcome,
)
    requires
        old(ctx)@.wf(),
        old(stacks)@.create_inputs.len() > 0,
        old(frame)@.frame_data().interpreter.gas.remaining + outcome.result.gas.remaining <= old(frame)@.frame_data().interpreter.gas.limit,
        0 <= old(frame)@.frame_data().interpreter.gas.refunded + outcome.result.gas.refunded
            <= i64::MAX,
    ensures
        final(ctx)@.wf(),
        final(ctx)@.env == old(ctx)@.env,
        final(stacks)@.create_inputs == old(stacks)@.create_inputs.drop_last(),
        final(stacks)@.call_inputs == old(stacks)@.call_inputs,
        (*final(frame)) is Call <==> (*old(frame)) is Call,
        final(frame)@.frame_data().checkpoint == old(frame)@.frame_data().checkpoint,
        final(frame)@.frame_data().interpreter.instruction_result == InstructionResult::Continue,
        I::spec_transparent() ==> final(ctx)@ == old(ctx)@ && final(frame)@.frame_data().interpreter == (InterpreterModel {
            instruction_result: InstructionResult::Continue,
            gas: spec_absorb_gas(
                old(frame)@.frame_data().interpreter.gas,
                outcome.result.gas,
                outcome.result.result,
            ),
            return_data: outcome.result@.output,
            ..old(frame)@.frame_data().interpreter
        }),
{
    let popped = stacks.pop_create_input();
    let inputs = match popped {
        Some(i) => i,
        None => unreached(),
    };
    let replaced = insp.create_end(ctx, &inputs, outcome);
    crate::execution::insert_create_outcome(ctx, frame, replaced);
}

/// The decorated settlement of the outermost frame: pops the matching
/// correlation entry, lets the observer replace the outcome, then
/// settles the transaction's gas.
pub fn inspected_last_frame_return<I: Inspector>(
    spec_id: SpecId,
    insp: &mut I,
    stacks: &mut InspectorStacks,
    ctx: &mut EvmContext,
    frame_result: &mut FrameResult,
)
    requires
        old(ctx)@.wf(),
        old(frame_result)@.interpreter_result().gas.remaining <= old(ctx).env.tx.gas_limit,
        0 <= old(frame_result)@.interpreter_result().gas.refunded,
        (*old(frame_result)) is Call ==> old(stacks)@.call_inputs.len() > 0,
        (*old(frame_result)) is Create ==> old(stacks)@.create_inputs.len() > 0,
    ensures
        final(ctx)@.wf(),
        final(ctx)@.env == old(ctx)@.env,
        (*old(frame_result)) is Call ==> final(stacks)@.call_inputs == old(stacks)@.call_inputs.drop_last() && final(stacks)@.create_inputs == old(stacks)@.create_inputs,
        (*old(frame_result)) is Create ==> final(stacks)@.create_inputs == old(stacks)@.create_inputs.drop_last() && final(stacks)@.call_inputs == old(stacks)@.call_inputs,
        I::spec_transparent() ==> final(ctx)@ == old(ctx)@ && final(frame_result)@ == old(frame_result)@.with_gas(
            spec_settle_gas(
                old(ctx).env.tx.gas_limit,
                old(frame_result)@.interpreter_result().result,
                old(frame_result)@.interpreter_result().gas.remaining,
                old(frame_result)@.interpreter_result().gas.refunded,
                true,
                spec_id,
            ),
        ),
{
    match frame_result {
        FrameResult::Call(outcome) => {
            let popped = stacks.pop_call_input();
            let inputs = match popped {
                Some(i) => i,
                None => unreached(),
            };
            let prev = outcome.clone();
            *outcome = insp.call_end(ctx, &inputs, prev);
        },
        FrameResult::Create(outcome) => {
            let popped = stacks.pop_create_input();
            let inputs = match popped {
                Some(i) => i,
                None => unreached(),
            };
            let prev = outcome.clone();
            *outcome = insp.create_end(ctx, &inputs, prev);
        },
    }
    crate::execution::last_frame_return(spec_id, ctx, frame_result);
}

/// The head of the per-instruction decorator: rewinds the cursor to the
/// about-to-execute position, invokes `step`, and reports whether the
/// wrapped instruction should run.  A `false` return means the observer
/// short-circuited the step; the caller skips both the instruction and
/// `step_end`.
pub fn inspector_step_begin<I: Inspector>(
    insp: &mut I,
    interp: &mut Interpreter,
    ctx: &mut EvmContext,
) -> (run: bool)
    requires
        old(ctx)@.wf(),
        old(interp)@.instruction_pointer >= 1,
    ensures
        final(ctx)@.wf(),
        final(ctx)@.env == old(ctx)@.env,
        run <==> final(interp)@.instruction_result == InstructionResult::Continue,
        I::spec_transparent() ==> final(ctx)@ == old(ctx)@ && run == (old(interp)@.instruction_result == InstructionResult::Continue) && (run ==> final(interp)@ == old(interp)@) && (!run ==> final(interp)@ == (InterpreterModel {
            instruction_pointer: (old(interp)@.instruction_pointer - 1) as usize,
            ..old(interp)@
        })),
{
    interp.instruction_pointer = interp.instruction_pointer - 1;
    insp.step(interp, ctx);
    if interp.instruction_result != InstructionResult::Continue {
        return false;
    }
    interp.instruction_pointer = interp.instruction_pointer + 1;
    true
}

/// The tail of the per-instruction decorator: invokes `step_end` after
/// the wrapped instruction ran.
pub fn inspector_step_end<I: Inspector>(
    insp: &mut I,
    interp: &mut Interpreter,
    ctx: &mut EvmContext,
)
    requires
        old(ctx)@.wf(),
    ensures
        final(ctx)@.wf(),
        final(ctx)@.env == old(ctx)@.env,
        I::spec_transparent() ==> final(interp)@ == old(interp)@ && final(ctx)@ == old(ctx)@,
{
    insp.step_end(interp, ctx);
}

/// The second wrap of the log opcodes: after the base instruction ran,
/// invokes `log` exactly when one record was actually appended — the
/// instruction may instead have aborted without logging.
pub fn log_inspect_after<I: Inspector>(insp: &mut I, ctx: &mut EvmContext, old_log_len: usize)
    requires
        old(ctx)@.wf(),
    ensures
        final(ctx)@.wf(),
        final(ctx)@.env == old(ctx)@.env,
        I::spec_transparent() ==> final(ctx)@ == old(ctx)@,
{
    let n = ctx.journaled_state.logs.len();
    if n > 0 && n - 1 == old_log_len {
        let last = ctx.journaled_state.logs[n - 1].clone();
        insp.log(ctx, &last);
    }
}

/// The second wrap of the account-destruction opcode: after the base
/// instruction ran, invokes `selfdestruct` exactly when a destruction
/// entry was actually journaled.
pub fn selfdestruct_inspect_after<I: Inspector>(insp: &mut I, ctx: &EvmContext)
{
    let n = ctx.journaled_state.journal.len();
    if n > 0 {
        let mut found: Option<(Address, Address, u128)> = None;
        match &ctx.journaled_state.journal[n - 1] {
            JournalEntry::AccountDestroyed { address, target, had_balance } => {
                found = Some((address.clone(), target.clone(), *had_balance));
            },
            JournalEntry::StorageChanged { .. } => {},
        }
        match &found {
            Some((address, target, had_balance)) => {
                insp.selfdestruct(address, target, *had_balance);
            },
            None => {},
        }
    }
}

} // verus!
