//! Bookkeeping for the detached worker tasks around the core: one
//! transport I/O loop per device, one keep-alive loop per handler that
//! needs it, and one scanning task per communication manager. The
//! platform executor that actually polls the tasks lives outside this
//! crate; this ledger gives each spawned task an identity so the runtime
//! can abort or await exactly the tasks the pipeline asked for.

use vstd::prelude::*;

verus! {

/// The kinds of detached worker task the pipeline spawns.
#[derive(Clone, Copy, PartialEq, Eq, Structural, Debug)]
pub enum TaskKind {
    /// Drains a transport's event stream for the device under the index.
    TransportIoLoop { device_index: u32 },
    /// Re-issues the last amplitude for the device under the index.
    KeepAliveLoop { device_index: u32 },
    /// Runs one communication manager's discovery.
    ScanningLoop,
}

/// Whether the ledger holds a task under `id`.
pub open spec fn contains_task(tasks: Seq<(u64, TaskKind)>, id: u64) -> bool {
    exists|i: int| 0 <= i < tasks.len() && (#[trigger] tasks[i]).0 == id
}

/// The ledger of live worker tasks, keyed by monotonically assigned ids.
pub struct AndroidAsyncManager {
    next_task_id: u64,
    tasks: Vec<(u64, TaskKind)>,
}

impl AndroidAsyncManager {
    pub closed spec fn ledger(&self) -> Seq<(u64, TaskKind)> {
        self.tasks@
    }

    pub closed spec fn spec_next_task_id(&self) -> u64 {
        self.next_task_id
    }

    /// Every recorded id is unique and below the allocation counter.
    pub open spec fn wf(&self) -> bool {
        &&& forall|i: int, j: int|
            0 <= i < j < self.ledger().len() ==> (#[trigger] self.ledger()[i]).0 != (
            #[trigger] self.ledger()[j]).0
        &&& forall|i: int|
            0 <= i < self.ledger().len() ==> (#[trigger] self.ledger()[i]).0
                < self.spec_next_task_id()
    }

    pub fn new() -> (r: Self)
        ensures
            r.ledger() =~= Seq::<(u64, TaskKind)>::empty(),
            r.spec_next_task_id() == 0,
            r.wf(),
    {
        AndroidAsyncManager { next_task_id: 0, tasks: Vec::new() }
    }

    /// Strikes a finished or aborted task from the ledger; true exactly
    /// when the id was live.
    #[verifier::loop_isolation(false)]
    pub fn task_finished(&mut self, id: u64) -> (r: bool)
        requires
            old(self).wf(),
        ensures
            final(self).wf(),
            final(self).spec_next_task_id() == old(self).spec_next_task_id(),
            r == contains_task(old(self).ledger(), id),
            !r ==> final(self).ledger() =~= old(self).ledger(),
            r ==> final(self).ledger().len() == old(self).ledger().len() - 1 && !contains_task(
                final(self).ledger(),
                id,
            ),
    {
        let ghost pre = self.tasks@;
        proof {
            assert forall|a: int, b: int| 0 <= a < b < pre.len() implies pre[a].0 != pre[b].0 by {
                assert((#[trigger] old(self).ledger()[a]).0 != (#[trigger] old(self).ledger()[b]).0);
            }
        }
        let mut i: usize = 0;
        while i < self.tasks.len()
            invariant
                i <= self.tasks@.len(),
                forall|j: int| 0 <= j < i ==> (#[trigger] self.tasks@[j]).0 != id,
                *self == *old(self),
            decreases self.tasks@.len() - i,
        {
            if self.tasks[i].0 == id {
                self.tasks.remove(i);
                proof {
                    assert forall|a: int|
                        0 <= a < self.tasks@.len() implies #[trigger] self.tasks@[a] == (if a
                            < i as int {
                            pre[a]
                        } else {
                            pre[a + 1]
                        }) by {}
                    assert forall|j: int|
                        0 <= j < self.tasks@.len() implies (#[trigger] self.tasks@[j]).0 != id by {
                        if j >= i as int {
                            assert(pre[i as int].0 == id);
                            assert(pre[i as int].0 != pre[j + 1].0);
                        }
                    }
                    assert forall|a: int, b: int|
                        0 <= a < b < self.tasks@.len() implies (#[trigger] self.tasks@[a]).0 != (
                        #[trigger] self.tasks@[b]).0 by {
                        let a0 = if a < i as int { a } else { a + 1 };
                        let b0 = if b < i as int { b } else { b + 1 };
                        assert(pre[a0].0 != pre[b0].0);
                    }
                    assert forall|j: int|
                        0 <= j < self.tasks@.len() implies (#[trigger] self.tasks@[j]).0
                        < self.next_task_id by {
                        if j < i as int {
                            assert((#[trigger] old(self).ledger()[j]).0 < self.next_task_id);
                        } else {
                            assert((#[trigger] old(self).ledger()[j + 1]).0 < self.next_task_id);
                        }
                    }
                }
                return true;
            }
            i = i + 1;
        }
        false
    }
}

/// Records one detached worker task with the manager and hands back the
/// fresh id under which the executor's handle should be filed.
pub fn spawn(manager: &mut AndroidAsyncManager, kind: TaskKind) -> (r: u64)
    requires
        old(manager).wf(),
        old(manager).spec_next_task_id() < u64::MAX,
    ensures
        final(manager).wf(),
        r == old(manager).spec_next_task_id(),
        final(manager).spec_next_task_id() == old(manager).spec_next_task_id() + 1,
        final(manager).ledger() =~= old(manager).ledger().push((r, kind)),
        contains_task(final(manager).ledger(), r),
        !contains_task(old(manager).ledger(), r),
{
    let id = manager.next_task_id;
    manager.tasks.push((id, kind));
    manager.next_task_id = id + 1;
    proof {
        let ghost pre = old(manager).ledger();
        assert(manager.tasks@[manager.tasks@.len() - 1].0 == id);
        assert forall|i: int|
            0 <= i < manager.ledger().len() implies (#[trigger] manager.ledger()[i]).0
            < manager.spec_next_task_id() by {
            if i < pre.len() {
                assert(manager.ledger()[i] == pre[i]);
                assert((#[trigger] old(manager).ledger()[i]).0 < id);
            }
        }
        assert forall|a: int, b: int|
            0 <= a < b < manager.ledger().len() implies (#[trigger] manager.ledger()[a]).0 != (
            #[trigger] manager.ledger()[b]).0 by {
            if b < pre.len() {
                assert((#[trigger] old(manager).ledger()[a]).0 != (#[trigger] old(
                    manager,
                ).ledger()[b]).0);
            } else {
                assert(manager.ledger()[b].0 == id);
                assert(manager.ledger()[a] == pre[a]);
                assert((#[trigger] old(manager).ledger()[a]).0 < id);
            }
        }
        assert forall|i: int|
            0 <= i < pre.len() implies (#[trigger] pre[i]).0 != id by {
            assert((#[trigger] old(manager).ledger()[i]).0 < id);
        }
    }
    id
}

} // verus!
