//! A thread group: the set of tasks sharing one originating process
//! identity.
//!
//! Tasks hold the owning link to their group; the group keeps only
//! non-owning lookups (indices into the session's task table), so the
//! ownership direction is acyclic and a group becomes collectible exactly
//! when its member set empties.

use vstd::prelude::*;

use crate::replay_task::ReplayTask;
use crate::wait_status::WaitStatus;

verus! {

/// A stable identity for one thread group: group ids may be reused, the
/// serial never is.
#[derive(Copy, Clone, PartialEq, Eq, Structural, Debug)]
pub struct ThreadGroupUid {
    pub tgid: i32,
    pub serial: u32,
}

/// Tracks a group of tasks with an associated id, set from the original
/// thread-group leader, the fork child which became the ancestor of all
/// other threads in the group.
pub struct ThreadGroup {
    /// Indices of the member tasks in the session's task table; these
    /// links are non-owning.
    pub tasks: Vec<usize>,
    pub tgid: i32,
    pub real_tgid: i32,
    pub real_tgid_own_namespace: i32,
    pub exit_status: WaitStatus,
    /// Tasks are not allowed to make themselves undumpable; if one tries,
    /// this records it so the engine can lie about it where necessary.
    pub dumpable: bool,
    /// Whether this thread group has execed.
    pub execed: bool,
    pub received_sigframe_sigsegv: bool,
    /// Parent group's index in the session, or `None` for a group that is
    /// not itself a tracee.
    pub parent: Option<usize>,
    /// Indices of child groups; mirrors OS process ancestry.
    pub children: Vec<usize>,
    pub serial: u32,
}

/// The task with its unstable mark set; everything else untouched.
pub open spec fn spec_set_unstable(t: ReplayTask) -> ReplayTask {
    ReplayTask { unstable: true, ..t }
}

/// Whether one of the first `j` member entries names task index `i`.
pub open spec fn spec_member_before(members: Seq<usize>, j: int, i: int) -> bool {
    exists|k: int| 0 <= k < j && k < members.len() && members[k] as int == i
}

/// Whether some member entry names task index `i`.
pub open spec fn spec_is_member(members: Seq<usize>, i: int) -> bool {
    spec_member_before(members, members.len() as int, i)
}

/// The task table after a group with the given members destabilizes:
/// every member is marked unstable, every other task is untouched.
pub open spec fn spec_destabilized(tasks: Seq<ReplayTask>, members: Seq<usize>) -> Seq<ReplayTask> {
    Seq::new(
        tasks.len(),
        |i: int|
            if spec_is_member(members, i) {
                spec_set_unstable(tasks[i])
            } else {
                tasks[i]
            },
    )
}

/// Destabilizing marks members and touches nothing else, so doing it
/// twice leaves exactly the state one pass leaves: the operation is
/// idempotent.
pub proof fn lemma_destabilize_idempotent(tasks: Seq<ReplayTask>, members: Seq<usize>)
    ensures
        spec_destabilized(spec_destabilized(tasks, members), members) =~= spec_destabilized(
            tasks,
            members,
        ),
{
}

impl ThreadGroup {
    pub fn new(
        parent: Option<usize>,
        tgid: i32,
        real_tgid: i32,
        real_tgid_own_namespace: i32,
        serial: u32,
    ) -> (r: ThreadGroup)
        ensures
            r.tasks@ =~= Seq::<usize>::empty(),
            r.tgid == tgid,
            r.real_tgid == real_tgid,
            r.real_tgid_own_namespace == real_tgid_own_namespace,
            r.exit_status.spec_raw() == 0,
            r.dumpable,
            !r.execed,
            !r.received_sigframe_sigsegv,
            r.parent == parent,
            r.children@ =~= Seq::<usize>::empty(),
            r.serial == serial,
    {
        ThreadGroup {
            tasks: Vec::new(),
            tgid,
            real_tgid,
            real_tgid_own_namespace,
            exit_status: WaitStatus::new(0),
            dumpable: true,
            execed: false,
            received_sigframe_sigsegv: false,
            parent,
            children: Vec::new(),
            serial,
        }
    }

    /// Every member's index stays inside the given task table.
    pub open spec fn members_in_bounds(self, tasks: Seq<ReplayTask>) -> bool {
        forall|j: int| 0 <= j < self.tasks@.len() ==> #[trigger] self.tasks@[j] < tasks.len()
    }

    /// Mark every current member task unstable: even though such a task
    /// may look runnable it might not be, and the driving loop must stop
    /// choosing which member to wait on and wait on any live task instead,
    /// accepting reports in kernel-determined order.  Instability is a
    /// one-way street; repeating the call changes nothing.
    pub fn destabilize(&self, tasks: &mut Vec<ReplayTask>)
        requires
            self.members_in_bounds(old(tasks)@),
        ensures
            final(tasks)@ =~= spec_destabilized(old(tasks)@, self.tasks@),
    {
        let ghost orig = tasks@;
        let mut j: usize = 0;
        while j < self.tasks.len()
            invariant
                self.members_in_bounds(orig),
                j <= self.tasks@.len(),
                tasks@.len() == orig.len(),
                forall|i: int|
                    0 <= i < orig.len() ==> tasks@[i] == if spec_member_before(
                        self.tasks@,
                        j as int,
                        i,
                    ) {
                        spec_set_unstable(orig[i])
                    } else {
                        orig[i]
                    },
            decreases self.tasks@.len() - j,
        {
            let m = self.tasks[j];
            proof {
                assert(self.tasks@[j as int] < orig.len());
            }
            tasks[m].unstable = true;
            proof {
                assert forall|i: int| 0 <= i < orig.len() implies tasks@[i] == if
                    spec_member_before(self.tasks@, j as int + 1, i) {
                    spec_set_unstable(orig[i])
                } else {
                    orig[i]
                } by {
                    if i == m as int {
                        assert(self.tasks@[j as int] as int == i);
                        assert(spec_member_before(self.tasks@, j as int + 1, i));
                    } else {
                        if spec_member_before(self.tasks@, j as int + 1, i) {
                            let k = choose|k: int|
                                0 <= k < j as int + 1 && k < self.tasks@.len() && self.tasks@[k]
                                    as int == i;
                            if k == j as int {
                                assert(self.tasks@[j as int] as int == i);
                                assert(i == m as int);
                            } else {
                                assert(0 <= k < j as int && k < self.tasks@.len() && self.tasks@[k]
                                    as int == i);
                                assert(spec_member_before(self.tasks@, j as int, i));
                            }
                        }
                        if spec_member_before(self.tasks@, j as int, i) {
                            let k2 = choose|k2: int|
                                0 <= k2 < j as int && k2 < self.tasks@.len() && self.tasks@[k2]
                                    as int == i;
                            assert(0 <= k2 < j as int + 1 && k2 < self.tasks@.len()
                                && self.tasks@[k2] as int == i);
                            assert(spec_member_before(self.tasks@, j as int + 1, i));
                        }
                    }
                }
            }
            j = j + 1;
        }
        proof {
            assert(final(tasks)@ =~= spec_destabilized(orig, self.tasks@)) by {
                assert forall|i: int| 0 <= i < orig.len() implies tasks@[i]
                    == spec_destabilized(orig, self.tasks@)[i] by {
                }
            }
        }
    }

    pub fn tguid(&self) -> (r: ThreadGroupUid)
        ensures
            r == (ThreadGroupUid { tgid: self.tgid, serial: self.serial }),
    {
        ThreadGroupUid { tgid: self.tgid, serial: self.serial }
    }

    /// Parent group's index, or `None` if this group is not a tracee's
    /// child.
    pub fn parent(&self) -> (r: Option<usize>)
        ensures
            r == self.parent,
    {
        self.parent
    }

    /// Indices of child groups.  A group is not destroyed while any child
    /// still references it as parent.
    pub fn children(&self) -> (r: &Vec<usize>)
        ensures
            r@ == self.children@,
    {
        &self.children
    }
}

} // verus!
