//! The journaled-state collaborator as this core sees it: call depth,
//! rollback checkpoints, emitted logs and the mutation journal.
//!
//! Reverting a checkpoint undoes every entry recorded since it was
//! taken, nested frames' provisionally committed entries included;
//! checkpoints are taken and released in strict stack order matching
//! frame nesting.

use vstd::prelude::*;
use crate::primitives::{clone_bytes, Address};

verus! {

/// An opaque rollback marker: the journal and log positions to cut back
/// to, owned exclusively by one frame until that frame completes.
#[derive(Clone, Copy, PartialEq, Eq, Structural, Debug)]
pub struct JournalCheckpoint {
    pub log_i: usize,
    pub journal_i: usize,
}

/// A log record emitted by a frame.
pub struct Log {
    pub address: Address,
    pub data: Vec<u8>,
}

/// Mathematical image of a [`Log`].
pub struct LogModel {
    pub address: Seq<u8>,
    pub data: Seq<u8>,
}

impl View for Log {
    type V = LogModel;

    open spec fn view(&self) -> LogModel {
        LogModel { address: self.address@, data: self.data@ }
    }
}

impl DeepView for Log {
    type V = LogModel;

    open spec fn deep_view(&self) -> LogModel {
        self.view()
    }
}

impl Clone for Log {
    fn clone(&self) -> (r: Self)
        ensures
            r@ == self@,
    {
        Log { address: self.address.clone(), data: clone_bytes(&self.data) }
    }
}

/// One recorded state mutation.
pub enum JournalEntry {
    AccountDestroyed { address: Address, target: Address, had_balance: u128 },
    StorageChanged { address: Address },
}

/// Mathematical image of a [`JournalEntry`].
pub enum JournalEntryModel {
    AccountDestroyed { address: Seq<u8>, target: Seq<u8>, had_balance: u128 },
    StorageChanged { address: Seq<u8> },
}

impl View for JournalEntry {
    type V = JournalEntryModel;

    open spec fn view(&self) -> JournalEntryModel {
        match self {
            JournalEntry::AccountDestroyed { address, target, had_balance } => {
                JournalEntryModel::AccountDestroyed {
                    address: address@,
                    target: target@,
                    had_balance: *had_balance,
                }
            },
            JournalEntry::StorageChanged { address } => {
                JournalEntryModel::StorageChanged { address: address@ }
            },
        }
    }
}

impl DeepView for JournalEntry {
    type V = JournalEntryModel;

    open spec fn deep_view(&self) -> JournalEntryModel {
        self.view()
    }
}

/// The journaled state one execution context mutates: depth, pending
/// checkpoints, logs, the mutation journal and the creation nonce.
pub struct JournaledState {
    pub depth: usize,
    pub checkpoints: Vec<JournalCheckpoint>,
    pub logs: Vec<Log>,
    pub journal: Vec<JournalEntry>,
    pub nonce: u64,
}

/// Mathematical image of a [`JournaledState`].
pub struct JournaledStateModel {
    pub depth: int,
    pub checkpoints: Seq<JournalCheckpoint>,
    pub logs: Seq<LogModel>,
    pub journal: Seq<JournalEntryModel>,
    pub nonce: int,
}

impl View for JournaledState {
    type V = JournaledStateModel;

    open spec fn view(&self) -> JournaledStateModel {
        JournaledStateModel {
            depth: self.depth as int,
            checkpoints: self.checkpoints@,
            logs: self.logs.deep_view(),
            journal: self.journal.deep_view(),
            nonce: self.nonce as int,
        }
    }
}

impl JournaledStateModel {
    /// Every pending checkpoint cuts at positions that exist, in stack
    /// order, and the depth counts the pending checkpoints.
    pub open spec fn wf(self) -> bool {
        &&& self.depth == self.checkpoints.len()
        &&& forall|i: int|
            0 <= i < self.checkpoints.len() ==> (#[trigger] self.checkpoints[i]).log_i
                <= self.logs.len() && self.checkpoints[i].journal_i <= self.journal.len()
        &&& forall|i: int, j: int|
            0 <= i <= j < self.checkpoints.len() ==> (#[trigger] self.checkpoints[i]).log_i <= (
            #[trigger] self.checkpoints[j]).log_i && self.checkpoints[i].journal_i
                <= self.checkpoints[j].journal_i
    }
}

/// The state after a checkpoint is taken: depth one deeper, the marker
/// holding today's log and journal positions.
pub open spec fn spec_checkpoint(js: JournaledStateModel) -> (JournaledStateModel, JournalCheckpoint) {
    let cp = JournalCheckpoint {
        log_i: js.logs.len() as usize,
        journal_i: js.journal.len() as usize,
    };
    (
        JournaledStateModel { depth: js.depth + 1, checkpoints: js.checkpoints.push(cp), ..js },
        cp,
    )
}

/// The state after the innermost checkpoint is committed: its entries
/// stay (provisionally, until every ancestor commits), depth retreats.
pub open spec fn spec_commit(js: JournaledStateModel) -> JournaledStateModel {
    JournaledStateModel {
        depth: js.depth - 1,
        checkpoints: js.checkpoints.drop_last(),
        ..js
    }
}

/// The state after the innermost checkpoint is reverted: every log and
/// journal entry recorded since it was taken is undone, depth retreats.
pub open spec fn spec_revert(js: JournaledStateModel) -> JournaledStateModel {
    let cp = js.checkpoints.last();
    JournaledStateModel {
        depth: js.depth - 1,
        checkpoints: js.checkpoints.drop_last(),
        logs: js.logs.subrange(0, cp.log_i as int),
        journal: js.journal.subrange(0, cp.journal_i as int),
        ..js
    }
}

impl JournaledState {
    /// A fresh journaled state at depth zero.
    pub fn new() -> (r: JournaledState)
        ensures
            r@ == (JournaledStateModel {
                depth: 0,
                checkpoints: Seq::<JournalCheckpoint>::empty(),
                logs: Seq::<LogModel>::empty(),
                journal: Seq::<JournalEntryModel>::empty(),
                nonce: 0,
            }),
            r@.wf(),
    {
        let r = JournaledState {
            depth: 0,
            checkpoints: Vec::new(),
            logs: Vec::new(),
            journal: Vec::new(),
            nonce: 0,
        };
        proof {
            assert(r@.logs =~= Seq::<LogModel>::empty());
            assert(r@.journal =~= Seq::<JournalEntryModel>::empty());
        }
        r
    }

    pub fn depth(&self) -> (r: usize)
        ensures
            r == self@.depth,
    {
        self.depth
    }

    /// Takes a rollback checkpoint and opens one more level of depth.
    pub fn checkpoint(&mut self) -> (cp: JournalCheckpoint)
        requires
            old(self)@.wf(),
            old(self)@.depth < usize::MAX,
        ensures
            (final(self)@, cp) == spec_checkpoint(old(self)@),
            final(self)@.wf(),
    {
        let cp = JournalCheckpoint { log_i: self.logs.len(), journal_i: self.journal.len() };
        self.depth = self.depth + 1;
        self.checkpoints.push(cp);
        cp
    }

    /// Commits the innermost checkpoint.  It must be the one handed in:
    /// checkpoints are released in strict stack order.
    pub fn checkpoint_commit(&mut self, cp: JournalCheckpoint)
        requires
            old(self)@.wf(),
            old(self)@.checkpoints.len() > 0,
            old(self)@.checkpoints.last() == cp,
        ensures
            final(self)@ == spec_commit(old(self)@),
            final(self)@.wf(),
    {
        let _ = self.checkpoints.pop();
        self.depth = self.depth - 1;
    }

    /// Reverts the innermost checkpoint, undoing every log and journal
    /// entry recorded since it was taken.
    pub fn checkpoint_revert(&mut self, cp: JournalCheckpoint)
        requires
            old(self)@.wf(),
            old(self)@.checkpoints.len() > 0,
            old(self)@.checkpoints.last() == cp,
        ensures
            final(self)@ == spec_revert(old(self)@),
            final(self)@.wf(),
    {
        let _ = self.checkpoints.pop();
        self.depth = self.depth - 1;
        self.logs.truncate(cp.log_i);
        self.journal.truncate(cp.journal_i);
        proof {
            assert(self.logs.deep_view() =~= old(self)@.logs.subrange(0, cp.log_i as int));
            assert(self.journal.deep_view() =~= old(self)@.journal.subrange(
                0,
                cp.journal_i as int,
            ));
        }
    }

    /// Appends a log record.
    pub fn append_log(&mut self, log: Log)
        requires
            old(self)@.wf(),
        ensures
            final(self)@ == (JournaledStateModel {
                logs: old(self)@.logs.push(log@),
                ..old(self)@
            }),
            final(self)@.wf(),
    {
        self.logs.push(log);
        proof {
            assert(self.logs.deep_view() =~= old(self)@.logs.push(log@));
        }
    }

    /// Appends an account-destruction journal entry.
    pub fn append_entry(&mut self, entry: JournalEntry)
        requires
            old(self)@.wf(),
        ensures
            final(self)@ == (JournaledStateModel {
                journal: old(self)@.journal.push(entry@),
                ..old(self)@
            }),
            final(self)@.wf(),
    {
        self.journal.push(entry);
        proof {
            assert(self.journal.deep_view() =~= old(self)@.journal.push(entry@));
        }
    }
}

} // verus!
