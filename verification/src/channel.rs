//! The info channel: a narrow synchronous interface to a durable,
//! externally visible store of agent progress. The core requires only two
//! operations — read the memo, write the memo — and that an accepted write
//! is immediately visible to subsequent reads from the same process.

use vstd::prelude::*;
use crate::memo::{MemoView, ProductionMemo};

verus! {

/// The durable store of one agent run's progress memo. Implementations
/// persist to the control plane's external store; the agent process is the
/// store's only writer during its run.
///
/// A failed write delivers nothing: the store and the history of accepted
/// writes are unchanged. An accepted write is immediately visible: a later
/// read returns it field for field.
pub trait InfoChannel: Sized {
    /// The memo the store currently holds.
    spec fn stored(&self) -> MemoView;

    /// Every memo the store has accepted, in order.
    spec fn writes(&self) -> Seq<MemoView>;

    /// Reads the current memo. Reading changes nothing.
    fn get_info(&mut self) -> (r: Result<ProductionMemo, String>)
        ensures
            final(self).stored() == old(self).stored(),
            final(self).writes() == old(self).writes(),
            r is Ok ==> r->Ok_0@ == old(self).stored(),
    ;

    /// Writes a memo. On success the memo is durably stored and appended
    /// to the history of accepted writes; on failure nothing changes.
    fn send_info(&mut self, memo: ProductionMemo) -> (r: Result<(), String>)
        ensures
            r is Ok ==> final(self).stored() == memo@ && final(self).writes()
                == old(self).writes().push(memo@),
            r is Err ==> final(self).stored() == old(self).stored() && final(self).writes()
                == old(self).writes(),
    ;
}

/// Round-trip law: a memo the channel accepted and that is then re-read
/// comes back field-for-field equal. Returns the re-read memo when both
/// operations succeed.
pub fn written_memo_rereads_equal<C: InfoChannel>(channel: &mut C, memo: ProductionMemo) -> (r:
    Option<ProductionMemo>)
    ensures
        r is Some ==> r->0@ == memo@,
{
    let ghost v = memo@;
    match channel.send_info(memo) {
        Ok(()) => match channel.get_info() {
            Ok(back) => Some(back),
            Err(_) => None,
        },
        Err(_) => None,
    }
}

/// An in-memory channel: the memo is held in the process itself. The
/// simplest faithful store, for exercising agents without a control plane.
pub struct MemoStore {
    memo: Option<ProductionMemo>,
    history: Ghost<Seq<MemoView>>,
}

impl MemoStore {
    /// An empty store: reads hand out the empty memo until a write lands.
    pub fn new() -> (r: MemoStore)
        ensures
            r.stored() == ProductionMemo::empty_view(),
            r.writes() == Seq::<MemoView>::empty(),
    {
        MemoStore { memo: None, history: Ghost(Seq::empty()) }
    }
}

impl InfoChannel for MemoStore {
    closed spec fn stored(&self) -> MemoView {
        match self.memo {
            Some(memo) => memo@,
            None => ProductionMemo::empty_view(),
        }
    }

    closed spec fn writes(&self) -> Seq<MemoView> {
        self.history@
    }

    fn get_info(&mut self) -> (r: Result<ProductionMemo, String>) {
        match &self.memo {
            Some(memo) => Ok(memo.clone()),
            None => Ok(ProductionMemo::empty()),
        }
    }

    fn send_info(&mut self, memo: ProductionMemo) -> (r: Result<(), String>) {
        proof {
            self.history@ = self.history@.push(memo@);
        }
        self.memo = Some(memo);
        Ok(())
    }
}

} // verus!
