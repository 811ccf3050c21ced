//! The settlement and correlation laws the core guarantees, stated over
//! the same spec functions the executable handlers are proved against.
//!
//! Transparency of a pure observer is not restated here: it is the
//! `spec_transparent` clause in the contract of every decorated handler
//! in [`crate::inspector`], proved where those handlers are.

use vstd::prelude::*;
use crate::execution::spec_settle_gas;
use crate::frame::{CallInputsModel, CreateInputsModel};
use crate::gas::spec_capped_refund;
use crate::interpreter::InstructionResult;
use crate::primitives::SpecId;

verus! {

/// On a success status, settlement restores the snapshot's remaining
/// gas, and the refund only grows from the snapshot before the cap
/// comes down on it: the settled refund never exceeds the snapshot's.
pub proof fn lemma_settlement_success(
    limit: u64,
    status: InstructionResult,
    remaining: u64,
    refunded: i64,
    refund_enabled: bool,
    spec_id: SpecId,
)
    requires
        status.spec_is_ok(),
        remaining <= limit,
        0 <= refunded,
    ensures
        ({
            let g = spec_settle_gas(limit, status, remaining, refunded, refund_enabled, spec_id);
            &&& g.limit == limit
            &&& g.remaining == remaining
            &&& g.spec_spend() == limit - remaining
            &&& 0 <= g.refunded <= refunded
            &&& !refund_enabled ==> g.refunded == refunded
        }),
{
}

/// On a revert status, settlement restores the snapshot's remaining gas
/// but carries none of the frame's own refund.
pub proof fn lemma_settlement_revert(
    limit: u64,
    status: InstructionResult,
    remaining: u64,
    refunded: i64,
    refund_enabled: bool,
    spec_id: SpecId,
)
    requires
        status.spec_is_revert(),
        remaining <= limit,
        0 <= refunded,
    ensures
        ({
            let g = spec_settle_gas(limit, status, remaining, refunded, refund_enabled, spec_id);
            &&& g.limit == limit
            &&& g.remaining == remaining
            &&& g.spec_spend() == limit - remaining
            &&& g.refunded == 0
        }),
{
}

/// On an error status — neither success nor revert — settlement
/// forfeits everything: no gas remains, the whole limit is spent, and
/// no refund survives.
pub proof fn lemma_settlement_error(
    limit: u64,
    status: InstructionResult,
    remaining: u64,
    refunded: i64,
    refund_enabled: bool,
    spec_id: SpecId,
)
    requires
        status.spec_is_error(),
        remaining <= limit,
        0 <= refunded,
    ensures
        ({
            let g = spec_settle_gas(limit, status, remaining, refunded, refund_enabled, spec_id);
            &&& g.remaining == 0
            &&& g.spec_spend() == limit
            &&& g.refunded == 0
        }),
{
}

/// The refund cap: with `spend = limit - remaining`, the settled refund
/// of a successful frame is `min(refunded, spend / 2)` before London
/// and `min(refunded, spend / 5)` from London onward.
pub proof fn lemma_refund_cap(
    limit: u64,
    status: InstructionResult,
    remaining: u64,
    refunded: i64,
    spec_id: SpecId,
)
    requires
        status.spec_is_ok(),
        remaining <= limit,
        0 <= refunded,
    ensures
        ({
            let g = spec_settle_gas(limit, status, remaining, refunded, true, spec_id);
            let spend = limit - remaining;
            let divisor: int = if spec_id.spec_is_london_or_later() {
                5
            } else {
                2
            };
            g.refunded == if refunded <= spend / divisor {
                refunded as int
            } else {
                spend / divisor
            }
        }),
{
}

/// Applying the cap twice with the same spend changes nothing: the
/// settlement's final-refund step is idempotent.
pub proof fn lemma_refund_cap_idempotent(limit: u64, remaining: u64, refunded: i64, spec_id: SpecId)
    requires
        remaining <= limit,
        0 <= refunded,
    ensures
        ({
            let once = spec_capped_refund(limit, remaining, refunded, spec_id);
            spec_capped_refund(limit, remaining, once as i64, spec_id) == once
        }),
{
}

/// Checkpoints are released in strict stack order: a frame opened on a
/// well-formed journaled state and ended in any status hands back the
/// old depth and the old checkpoint stack, and a frame that did not
/// succeed hands back the whole old state — every log and journal
/// entry recorded inside it is undone.
pub proof fn lemma_checkpoint_round_trip(
    js: crate::journal::JournaledStateModel,
    status: InstructionResult,
)
    requires
        js.wf(),
        js.logs.len() <= usize::MAX,
        js.journal.len() <= usize::MAX,
    ensures
        ({
            let (opened, cp) = crate::journal::spec_checkpoint(js);
            let ended = crate::context::spec_frame_end(opened, status);
            &&& ended.depth == js.depth
            &&& ended.checkpoints == js.checkpoints
            &&& !status.spec_is_ok() ==> ended == js
        }),
{
    let (opened, cp) = crate::journal::spec_checkpoint(js);
    let ended = crate::context::spec_frame_end(opened, status);
    assert(opened.checkpoints.drop_last() =~= js.checkpoints);
    if !status.spec_is_ok() {
        assert(opened.logs.subrange(0, cp.log_i as int) =~= js.logs);
        assert(opened.journal.subrange(0, cp.journal_i as int) =~= js.journal);
    }
}

/// One entry or exit of a call or creation frame, as the correlation
/// stacks see it.
pub enum FrameEvent {
    CallEnter(CallInputsModel),
    CallExit,
    CreateEnter(CreateInputsModel),
    CreateExit,
}

/// How many call frames a sequence of events leaves open.
pub open spec fn spec_open_calls(events: Seq<FrameEvent>) -> int
    decreases events.len(),
{
    if events.len() == 0 {
        0
    } else {
        spec_open_calls(events.drop_last()) + match events.last() {
            FrameEvent::CallEnter(_) => 1int,
            FrameEvent::CallExit => -1int,
            _ => 0int,
        }
    }
}

/// How many creation frames a sequence of events leaves open.
pub open spec fn spec_open_creates(events: Seq<FrameEvent>) -> int
    decreases events.len(),
{
    if events.len() == 0 {
        0
    } else {
        spec_open_creates(events.drop_last()) + match events.last() {
            FrameEvent::CreateEnter(_) => 1int,
            FrameEvent::CreateExit => -1int,
            _ => 0int,
        }
    }
}

/// Proper nesting: at no point of the sequence have more frames of a
/// kind exited than entered.
pub open spec fn spec_nested(events: Seq<FrameEvent>) -> bool {
    forall|i: int|
        0 <= i <= events.len() ==> spec_open_calls(#[trigger] events.take(i)) >= 0
            && spec_open_creates(events.take(i)) >= 0
}

/// The call correlation stack after a sequence of events: entries push
/// their inputs, exits pop, strictly LIFO.
pub open spec fn spec_call_stack_after(events: Seq<FrameEvent>, stack: Seq<CallInputsModel>) -> Seq<
    CallInputsModel,
>
    decreases events.len(),
{
    if events.len() == 0 {
        stack
    } else {
        let prev = spec_call_stack_after(events.drop_last(), stack);
        match events.last() {
            FrameEvent::CallEnter(m) => prev.push(m),
            FrameEvent::CallExit => prev.drop_last(),
            _ => prev,
        }
    }
}

/// The creation correlation stack after a sequence of events.
pub open spec fn spec_create_stack_after(
    events: Seq<FrameEvent>,
    stack: Seq<CreateInputsModel>,
) -> Seq<CreateInputsModel>
    decreases events.len(),
{
    if events.len() == 0 {
        stack
    } else {
        let prev = spec_create_stack_after(events.drop_last(), stack);
        match events.last() {
            FrameEvent::CreateEnter(m) => prev.push(m),
            FrameEvent::CreateExit => prev.drop_last(),
            _ => prev,
        }
    }
}

/// For any properly nested sequence of frame entries and exits, each
/// correlation stack's depth afterwards equals the number of frames of
/// that kind still open — exactly what the decorated handlers maintain,
/// since each entry pushes once and each exit pops once.  An exit
/// without a matching entry falls outside `spec_nested` and is the
/// fatal contract violation the handlers' `requires` exclude.
pub proof fn lemma_correlation_stack_depth(events: Seq<FrameEvent>)
    requires
        spec_nested(events),
    ensures
        spec_call_stack_after(events, Seq::<CallInputsModel>::empty()).len() == spec_open_calls(
            events,
        ),
        spec_create_stack_after(events, Seq::<CreateInputsModel>::empty()).len()
            == spec_open_creates(events),
    decreases events.len(),
{
    if events.len() == 0 {
    } else {
        let prefix = events.drop_last();
        assert(spec_nested(prefix)) by {
            assert forall|i: int| 0 <= i <= prefix.len() implies spec_open_calls(
                #[trigger] prefix.take(i),
            ) >= 0 && spec_open_creates(prefix.take(i)) >= 0 by {
                assert(prefix.take(i) =~= events.take(i));
                assert(spec_open_calls(events.take(i)) >= 0);
                assert(spec_open_creates(events.take(i)) >= 0);
            }
        }
        lemma_correlation_stack_depth(prefix);
        assert(events.take(events.len() as int) =~= events);
        assert(spec_open_calls(events) >= 0);
        assert(spec_open_creates(events) >= 0);
    }
}

} // verus!
