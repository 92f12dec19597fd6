use vstd::prelude::*;
use vstd::rwlock::{RwLock, RwLockPredicate};
use crate::control::{command_update, handle, lemma_command_keeps_valid, ControlMessage};
use crate::envelope::XFADE_LEN;
use crate::params::{reply, ControlError, GrainParams};
use crate::store::SampleStore;

verus! {

/// What the lock guarantees of every value it holds: a grain valid for a store
/// of `store_len` samples.
pub struct ValidGrain {
    pub store_len: usize,
}

impl RwLockPredicate<GrainParams> for ValidGrain {
    open spec fn inv(self, v: GrainParams) -> bool {
        v.valid_for(self.store_len as int)
    }
}

/// The parameter record shared between the control side, which writes one
/// command at a time under the exclusive lock, and the renderer, which copies
/// a snapshot under the shared lock once per block.
pub struct SharedParams {
    pub lock: RwLock<GrainParams, ValidGrain>,
    pub store_len: usize,
}

impl SharedParams {
    pub open spec fn wf(&self) -> bool {
        &&& XFADE_LEN < self.store_len
        &&& self.lock.pred() == (ValidGrain { store_len: self.store_len })
    }

    /// The shared record for a store, holding the start-up parameters.
    pub fn new(store: &SampleStore) -> (r: SharedParams)
        requires
            store.wf(),
        ensures
            r.wf(),
            r.store_len == store.len_spec(),
    {
        let n = store.len();
        let lock = RwLock::new(GrainParams::initial(n), Ghost(ValidGrain { store_len: n }));
        SharedParams { lock, store_len: n }
    }

    /// Copies the current parameters under the shared lock, which is held for
    /// the copy alone. The copy is valid for the store.
    pub fn snapshot(&self) -> (r: GrainParams)
        requires
            self.wf(),
        ensures
            r.valid_for(self.store_len as int),
    {
        let guard = self.lock.acquire_read();
        let r = *guard.borrow();
        guard.release_read();
        r
    }

    /// Validates and applies one command under the exclusive lock, all at once
    /// or not at all. The reply is the one the command gets on the parameters
    /// that were current when the lock was taken.
    pub fn apply(&self, msg: &ControlMessage) -> (r: Result<(), ControlError>)
        requires
            self.wf(),
        ensures
            exists|p: GrainParams|
                p.valid_for(self.store_len as int) && r == #[trigger] reply(
                    command_update(p, *msg, self.store_len as int),
                ),
    {
        let (current, guard) = self.lock.acquire_write();
        let mut next = current;
        let r = handle(&mut next, msg, self.store_len);
        proof {
            lemma_command_keeps_valid(current, *msg, self.store_len as int);
        }
        guard.release_write(next);
        assert(current.valid_for(self.store_len as int) && r == reply(
            command_update(current, *msg, self.store_len as int),
        ));
        r
    }
}

} // verus!
