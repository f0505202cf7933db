//! The replay session: the owner of all task, thread-group, and
//! address-space state, and of the position in the recording.
//!
//! Tasks and groups refer to each other by index into these tables; a
//! borrow of the current frame never outlives the step being processed.

use vstd::prelude::*;

use crate::address_space::AddressSpace;
use crate::address_space::copy_bytes;
use crate::errors::ReplayError;
use crate::kernel_abi::SupportedArch;
use crate::registers::Registers;
use crate::replay_task::CloneFlagSet;
use crate::replay_task::ReplayTask;
use crate::thread_group::ThreadGroup;
use crate::thread_group::spec_destabilized;
use crate::trace::FrameTime;
use crate::trace::RawDataRecord;
use crate::trace::TraceFrame;
use crate::trace::TraceReader;
use crate::wait_status::WaitStatus;

verus! {

/// The first task at or after `from` whose recorded id is `rec_tid`.
pub open spec fn spec_find_task_from_rec_tid(
    tasks: Seq<ReplayTask>,
    rec_tid: i32,
    from: int,
) -> Option<int>
    decreases tasks.len() - from,
{
    if from < 0 || from >= tasks.len() {
        None
    } else if tasks[from].rec_tid == rec_tid {
        Some(from)
    } else {
        spec_find_task_from_rec_tid(tasks, rec_tid, from + 1)
    }
}

/// The write log of each space, abstractly: address and bytes of every
/// write, in order.
pub open spec fn spec_space_views(spaces: Seq<AddressSpace>) -> Seq<Seq<(u64, Seq<u8>)>> {
    spaces.map(|i: int, s: AddressSpace| s.writes@.map(|j: int, w: crate::address_space::MemWrite| (w.addr, w.data@)))
}

/// The effect of one recorded write on the abstract write logs: a record
/// with no address or no bytes is a no-op; otherwise the bytes land in the
/// space of the task the record names, and a record naming no live task is
/// trace corruption (`None`).
pub open spec fn spec_apply_one(
    views: Seq<Seq<(u64, Seq<u8>)>>,
    tasks: Seq<ReplayTask>,
    rec: RawDataRecord,
) -> Option<Seq<Seq<(u64, Seq<u8>)>>> {
    if rec.addr == 0 || rec.data@.len() == 0 {
        Some(views)
    } else {
        match spec_find_task_from_rec_tid(tasks, rec.rec_tid, 0) {
            Some(t) => {
                let vm = tasks[t].vm as int;
                if 0 <= vm < views.len() {
                    Some(views.update(vm, views[vm].push((rec.addr, rec.data@))))
                } else {
                    None
                }
            },
            None => None,
        }
    }
}

/// The records `[from, to)` applied in order; `None` as soon as one of
/// them is corrupt.
pub open spec fn spec_apply_records(
    views: Seq<Seq<(u64, Seq<u8>)>>,
    tasks: Seq<ReplayTask>,
    recs: Seq<RawDataRecord>,
    from: int,
    to: int,
) -> Option<Seq<Seq<(u64, Seq<u8>)>>>
    decreases to - from,
{
    if from >= to || from < 0 || from >= recs.len() {
        Some(views)
    } else {
        match spec_apply_one(views, tasks, recs[from]) {
            Some(v) => spec_apply_records(v, tasks, recs, from + 1, to),
            None => None,
        }
    }
}

/// The position where the current frame's run of records ends.
pub open spec fn spec_frame_records_end(
    recs: Seq<RawDataRecord>,
    from: int,
    time: FrameTime,
) -> int
    decreases recs.len() - from,
{
    if from < 0 || from >= recs.len() {
        from
    } else if recs[from].time != time {
        from
    } else {
        spec_frame_records_end(recs, from + 1, time)
    }
}

/// The end of a frame's record run lies between the start position and
/// the end of the record list.
pub proof fn lemma_frame_records_end_bounds(recs: Seq<RawDataRecord>, from: int, time: FrameTime)
    requires
        0 <= from <= recs.len(),
    ensures
        from <= spec_frame_records_end(recs, from, time) <= recs.len(),
    decreases recs.len() - from,
{
    if from < recs.len() && recs[from].time == time {
        lemma_frame_records_end_bounds(recs, from + 1, time);
    }
}

/// The exact task a clone-class syscall attaches: a register-level copy
/// of the parent under a fresh serial, with nothing observed, nothing
/// mapped and nothing buffered yet, joining the parent's group and space
/// exactly when the clone flags say so.
pub open spec fn spec_clone_task_child(
    pre: Session,
    t: int,
    flags: CloneFlagSet,
    stack: u64,
    new_tid: i32,
    rec_tid: i32,
) -> ReplayTask {
    ReplayTask {
        tid: new_tid,
        rec_tid: rec_tid,
        serial: pre.next_serial,
        arch: pre.tasks@[t].arch,
        registers: pre.tasks@[t].registers,
        registers_dirty: true,
        ticks: 0,
        scratch_ptr: 0,
        scratch_size: 0,
        syscallbuf_child: 0,
        syscallbuf_size: 0,
        top_of_stack: stack,
        unstable: false,
        wait_status: WaitStatus { raw: 0 },
        is_stopped: false,
        seen_ptrace_exit_event: false,
        tg: if flags.share_thread_group {
            pre.tasks@[t].tg
        } else {
            pre.groups@.len() as usize
        },
        vm: if flags.share_vm {
            pre.tasks@[t].vm
        } else {
            pre.spaces@.len() as usize
        },
    }
}

/// How one `set_data_from_trace` step relates the session before and
/// after: only the record cursor and the named task's write log move, and
/// the result says whether a record was consumed.
pub open spec fn spec_set_data_from_trace_post(
    pre: Session,
    post: Session,
    r: Result<bool, ReplayError>,
) -> bool {
    &&& post.tasks == pre.tasks
    &&& post.groups == pre.groups
    &&& post.next_serial == pre.next_serial
    &&& post.done_initial_exec == pre.done_initial_exec
    &&& post.trace.frames == pre.trace.frames
    &&& post.trace.frame_pos == pre.trace.frame_pos
    &&& post.trace.task_events == pre.trace.task_events
    &&& post.trace.task_event_pos == pre.trace.task_event_pos
    &&& post.trace.raw_recs == pre.trace.raw_recs
    &&& post.trace.mapped_regions == pre.trace.mapped_regions
    &&& post.trace.mapped_pos == pre.trace.mapped_pos
    &&& post.spaces@.len() == pre.spaces@.len()
    &&& forall|k: int|
        0 <= k < pre.spaces@.len() ==> (#[trigger] post.spaces@[k]).maps == pre.spaces@[k].maps
            && post.spaces@[k].breakpoints == pre.spaces@[k].breakpoints
            && post.spaces@[k].watchpoints == pre.spaces@[k].watchpoints
    &&& ({
        let recs = pre.trace.raw_recs@;
        let pos = pre.trace.raw_pos as int;
        let has_record = pos < recs.len() && recs[pos].time
            == pre.trace.spec_current_frame().time;
        if !has_record {
            &&& r == Ok::<bool, ReplayError>(false)
            &&& post.trace.raw_pos == pre.trace.raw_pos
            &&& post.spaces == pre.spaces
        } else {
            &&& post.trace.raw_pos == pos + 1
            &&& match spec_apply_one(spec_space_views(pre.spaces@), pre.tasks@, recs[pos]) {
                Some(v) => r == Ok::<bool, ReplayError>(true) && spec_space_views(post.spaces@)
                    == v,
                None => r == Err::<bool, ReplayError>(
                    ReplayError::RecordForUnknownTask { rec_tid: recs[pos].rec_tid },
                ) && post.spaces == pre.spaces,
            }
        }
    })
}

pub struct Session {
    pub tasks: Vec<ReplayTask>,
    pub groups: Vec<ThreadGroup>,
    pub spaces: Vec<AddressSpace>,
    pub trace: TraceReader,
    pub next_serial: u32,
    /// Nothing is validated against the recording before the initial exec,
    /// since the recorded process did not exist before it.
    pub done_initial_exec: bool,
}

impl Session {
    pub open spec fn wf(self) -> bool {
        &&& self.trace.wf()
        &&& forall|i: int|
            0 <= i < self.tasks@.len() ==> (#[trigger] self.tasks@[i]).wf() && self.tasks@[i].tg
                < self.groups@.len() && self.tasks@[i].vm < self.spaces@.len()
        &&& forall|g: int|
            0 <= g < self.groups@.len() ==> (#[trigger] self.groups@[g]).members_in_bounds(
                self.tasks@,
            )
    }

    pub fn new(trace: TraceReader) -> (r: Session)
        requires
            trace.wf(),
        ensures
            r.wf(),
            r.tasks@.len() == 0,
            r.groups@.len() == 0,
            r.spaces@.len() == 0,
            r.trace == trace,
            r.next_serial == 1,
            !r.done_initial_exec,
    {
        Session {
            tasks: Vec::new(),
            groups: Vec::new(),
            spaces: Vec::new(),
            trace,
            next_serial: 1,
            done_initial_exec: false,
        }
    }

    /// The time of the frame being replayed.
    pub fn current_frame_time(&self) -> (r: FrameTime)
        requires
            self.trace.frame_pos < self.trace.frames.len(),
        ensures
            r == self.trace.spec_current_frame().time,
    {
        self.trace.current_frame_time()
    }

    /// Attach the first task observed: its own thread group and address
    /// space, ancestry-less.
    pub fn create_initial_task(&mut self, tid: i32, rec_tid: i32, arch: SupportedArch) -> (r:
        usize)
        requires
            old(self).wf(),
            old(self).next_serial < 0xffff_fffe,
        ensures
            final(self).wf(),
            r == old(self).tasks@.len(),
            final(self).tasks@.len() == old(self).tasks@.len() + 1,
            forall|i: int|
                0 <= i < old(self).tasks@.len() ==> final(self).tasks@[i] == old(self).tasks@[i],
            final(self).tasks@[r as int].tid == tid,
            final(self).tasks@[r as int].rec_tid == rec_tid,
            final(self).tasks@[r as int].arch == arch,
            final(self).tasks@[r as int].registers == Registers::spec_new(arch),
            !final(self).tasks@[r as int].registers_dirty,
            final(self).tasks@[r as int].ticks == 0,
            !final(self).tasks@[r as int].is_stopped,
            final(self).tasks@[r as int].tg == old(self).groups@.len(),
            final(self).tasks@[r as int].vm == old(self).spaces@.len(),
            final(self).tasks@[r as int].serial == old(self).next_serial + 1,
            final(self).next_serial == old(self).next_serial + 2,
            final(self).groups@.len() == old(self).groups@.len() + 1,
            // the first observed task founds its own ancestry-less group
            // and is its sole member
            ({
                let g = final(self).groups@[old(self).groups@.len() as int];
                &&& g.tgid == rec_tid
                &&& g.real_tgid == tid
                &&& g.real_tgid_own_namespace == tid
                &&& g.parent is None
                &&& g.serial == old(self).next_serial
                &&& g.tasks@ =~= seq![r as usize]
                &&& g.children@ =~= Seq::<usize>::empty()
                &&& g.dumpable
                &&& !g.execed
            }),
            forall|g: int|
                0 <= g < old(self).groups@.len() ==> final(self).groups@[g] == old(self).groups@[
                    g],
            final(self).spaces@.len() == old(self).spaces@.len() + 1,
            // and an empty address space of its own
            final(self).spaces@[old(self).spaces@.len() as int].writes@ =~= Seq::<
                crate::address_space::MemWrite,
            >::empty(),
            final(self).spaces@[old(self).spaces@.len() as int].maps@ =~= Seq::<
                crate::address_space::Mapping,
            >::empty(),
            forall|k: int|
                0 <= k < old(self).spaces@.len() ==> final(self).spaces@[k] == old(self).spaces@[
                    k],
            final(self).trace == old(self).trace,
            final(self).done_initial_exec == old(self).done_initial_exec,
    {
        let tg = self.groups.len();
        let vm = self.spaces.len();
        let t_idx = self.tasks.len();
        let group_serial = self.next_serial;
        let task_serial = self.next_serial + 1;
        self.next_serial = self.next_serial + 2;
        let mut group = ThreadGroup::new(None, rec_tid, tid, tid, group_serial);
        group.tasks.push(t_idx);
        self.groups.push(group);
        self.spaces.push(AddressSpace::new());
        let task = ReplayTask::new(tid, rec_tid, task_serial, arch, tg, vm);
        self.tasks.push(task);
        proof {
            assert forall|i: int| 0 <= i < self.tasks@.len() implies (#[trigger] self.tasks@[i]).wf()
                && self.tasks@[i].tg < self.groups@.len() && self.tasks@[i].vm
                < self.spaces@.len() by {
                if i < old(self).tasks@.len() {
                    assert(self.tasks@[i] == old(self).tasks@[i]);
                }
            }
            assert forall|g: int| 0 <= g < self.groups@.len() implies (#[trigger] self.groups@[
                g]).members_in_bounds(self.tasks@) by {
                if g < old(self).groups@.len() {
                    assert(self.groups@[g] == old(self).groups@[g]);
                    assert(old(self).groups@[g].members_in_bounds(old(self).tasks@));
                }
            }
        }
        t_idx
    }

    /// The first task whose recorded id matches, if any.
    pub fn find_task_from_rec_tid(&self, rec_tid: i32) -> (r: Option<usize>)
        ensures
            match r {
                Some(t) => spec_find_task_from_rec_tid(self.tasks@, rec_tid, 0) == Some(t as int)
                    && t < self.tasks@.len() && self.tasks@[t as int].rec_tid == rec_tid,
                None => spec_find_task_from_rec_tid(self.tasks@, rec_tid, 0) is None,
            },
    {
        let mut i: usize = 0;
        while i < self.tasks.len()
            invariant
                i <= self.tasks@.len(),
                spec_find_task_from_rec_tid(self.tasks@, rec_tid, 0) == spec_find_task_from_rec_tid(
                    self.tasks@,
                    rec_tid,
                    i as int,
                ),
            decreases self.tasks@.len() - i,
        {
            if self.tasks[i].rec_tid == rec_tid {
                return Some(i);
            }
            i = i + 1;
        }
        None
    }

    /// Restore the next chunk of recorded data for the current frame, into
    /// the address space of the task the record names.  Returns `Ok(false)`
    /// when the frame has no further records.
    pub fn set_data_from_trace(&mut self) -> (r: Result<bool, ReplayError>)
        requires
            old(self).wf(),
            old(self).trace.frame_pos < old(self).trace.frames.len(),
        ensures
            final(self).wf(),
            spec_set_data_from_trace_post(*old(self), *final(self), r),
    {
        let idx = match self.trace.read_raw_data_for_frame() {
            None => {
                return Ok(false);
            },
            Some(i) => i,
        };
        let addr = self.trace.raw_recs[idx].addr;
        let rec_tid = self.trace.raw_recs[idx].rec_tid;
        let len = self.trace.raw_recs[idx].data.len();
        if addr == 0 || len == 0 {
            proof {
                assert(spec_apply_one(
                    spec_space_views(self.spaces@),
                    self.tasks@,
                    old(self).trace.raw_recs@[old(self).trace.raw_pos as int],
                ) == Some(spec_space_views(self.spaces@)));
            }
            return Ok(true);
        }
        let t = match self.find_task_from_rec_tid(rec_tid) {
            None => {
                return Err(ReplayError::RecordForUnknownTask { rec_tid });
            },
            Some(t) => t,
        };
        proof {
            assert(t < self.tasks@.len());
            assert(self.tasks@[t as int].vm < self.spaces@.len());
        }
        let vm = self.tasks[t].vm;
        let data = copy_bytes(self.trace.raw_recs[idx].data.as_slice());
        let ghost views0 = spec_space_views(self.spaces@);
        let space = &mut self.spaces[vm];
        space.write_bytes(addr, data);
        proof {
            let ghost rec = old(self).trace.raw_recs@[old(self).trace.raw_pos as int];
            assert(views0.len() == self.spaces@.len());
            assert(spec_space_views(self.spaces@) =~~= views0.update(
                vm as int,
                views0[vm as int].push((rec.addr, rec.data@)),
            ));
            assert(rec.addr != 0 && rec.data@.len() != 0);
            assert(spec_find_task_from_rec_tid(self.tasks@, rec.rec_tid, 0) == Some(t as int));
            assert(vm as int == self.tasks@[t as int].vm as int);
            assert(0 <= (vm as int) && (vm as int) < views0.len());
            assert(spec_apply_one(views0, self.tasks@, rec) == Some(
                spec_space_views(self.spaces@),
            ));
        }
        Ok(true)
    }

    /// Restore all remaining chunks of recorded data for the current
    /// frame, in order.
    pub fn apply_all_data_records_from_trace(&mut self) -> (r: Result<(), ReplayError>)
        requires
            old(self).wf(),
            old(self).trace.frame_pos < old(self).trace.frames.len(),
        ensures
            final(self).wf(),
            final(self).tasks == old(self).tasks,
            final(self).groups == old(self).groups,
            final(self).next_serial == old(self).next_serial,
            final(self).done_initial_exec == old(self).done_initial_exec,
            final(self).trace.frames == old(self).trace.frames,
            final(self).trace.frame_pos == old(self).trace.frame_pos,
            final(self).trace.task_events == old(self).trace.task_events,
            final(self).trace.task_event_pos == old(self).trace.task_event_pos,
            final(self).trace.raw_recs == old(self).trace.raw_recs,
            final(self).trace.mapped_regions == old(self).trace.mapped_regions,
            final(self).trace.mapped_pos == old(self).trace.mapped_pos,
            final(self).spaces@.len() == old(self).spaces@.len(),
            forall|k: int|
                0 <= k < old(self).spaces@.len() ==> (#[trigger] final(self).spaces@[k]).maps
                    == old(self).spaces@[k].maps && final(self).spaces@[k].breakpoints == old(
                    self,
                ).spaces@[k].breakpoints && final(self).spaces@[k].watchpoints == old(
                    self,
                ).spaces@[k].watchpoints,
            ({
                let recs = old(self).trace.raw_recs@;
                let pos = old(self).trace.raw_pos as int;
                let time = old(self).trace.spec_current_frame().time;
                let end = spec_frame_records_end(recs, pos, time);
                match spec_apply_records(
                    spec_space_views(old(self).spaces@),
                    old(self).tasks@,
                    recs,
                    pos,
                    end,
                ) {
                    Some(v) => {
                        &&& r == Ok::<(), ReplayError>(())
                        &&& final(self).trace.raw_pos == end
                        &&& spec_space_views(final(self).spaces@) == v
                    },
                    None => r is Err && (r matches Err(
                        ReplayError::RecordForUnknownTask { .. },
                    )),
                }
            }),
    {
        let ghost recs = self.trace.raw_recs@;
        let ghost time = self.trace.spec_current_frame().time;
        let ghost end = spec_frame_records_end(recs, self.trace.raw_pos as int, time);
        proof {
            lemma_frame_records_end_bounds(recs, self.trace.raw_pos as int, time);
        }
        loop
            invariant
                self.wf(),
                self.trace.frame_pos < self.trace.frames.len(),
                self.tasks == old(self).tasks,
                self.groups == old(self).groups,
                self.next_serial == old(self).next_serial,
                self.done_initial_exec == old(self).done_initial_exec,
                self.trace.frames == old(self).trace.frames,
                self.trace.frame_pos == old(self).trace.frame_pos,
                self.trace.task_events == old(self).trace.task_events,
                self.trace.task_event_pos == old(self).trace.task_event_pos,
                self.trace.raw_recs == old(self).trace.raw_recs,
                self.trace.mapped_regions == old(self).trace.mapped_regions,
                self.trace.mapped_pos == old(self).trace.mapped_pos,
                self.spaces@.len() == old(self).spaces@.len(),
                forall|k: int|
                    0 <= k < old(self).spaces@.len() ==> (#[trigger] self.spaces@[k]).maps == old(
                        self,
                    ).spaces@[k].maps && self.spaces@[k].breakpoints == old(self).spaces@[
                        k].breakpoints && self.spaces@[k].watchpoints == old(self).spaces@[
                        k].watchpoints,
                recs == old(self).trace.raw_recs@,
                time == old(self).trace.spec_current_frame().time,
                end == spec_frame_records_end(recs, old(self).trace.raw_pos as int, time),
                old(self).trace.raw_pos <= self.trace.raw_pos,
                self.trace.raw_pos as int <= end,
                end == spec_frame_records_end(recs, self.trace.raw_pos as int, time),
                spec_apply_records(
                    spec_space_views(old(self).spaces@),
                    old(self).tasks@,
                    recs,
                    old(self).trace.raw_pos as int,
                    end,
                ) == spec_apply_records(
                    spec_space_views(self.spaces@),
                    self.tasks@,
                    recs,
                    self.trace.raw_pos as int,
                    end,
                ),
            decreases end - self.trace.raw_pos,
        {
            let ghost pos_before = self.trace.raw_pos as int;
            let ghost views_before = spec_space_views(self.spaces@);
            match self.set_data_from_trace() {
                Err(e) => {
                    proof {
                        assert(spec_frame_records_end(recs, pos_before, time)
                            == spec_frame_records_end(recs, pos_before + 1, time));
                        lemma_frame_records_end_bounds(recs, pos_before + 1, time);
                        assert(pos_before < end);
                        assert(spec_apply_one(views_before, self.tasks@, recs[pos_before])
                            is None);
                        assert(spec_apply_records(views_before, self.tasks@, recs, pos_before, end)
                            is None);
                    }
                    return Err(e);
                },
                Ok(false) => {
                    proof {
                        assert(spec_frame_records_end(recs, pos_before, time) == pos_before);
                    }
                    return Ok(());
                },
                Ok(true) => {
                    proof {
                        assert(spec_frame_records_end(recs, pos_before, time) == spec_frame_records_end(
                            recs,
                            pos_before + 1,
                            time,
                        ));
                        lemma_frame_records_end_bounds(recs, pos_before + 1, time);
                        assert(spec_apply_records(views_before, self.tasks@, recs, pos_before, end)
                            == spec_apply_records(
                            spec_space_views(self.spaces@),
                            self.tasks@,
                            recs,
                            pos_before + 1,
                            end,
                        ));
                    }
                },
            }
        }
    }

    /// Attach the task a completed clone-class syscall created.  The child
    /// starts as a register-level copy of the parent; it shares the
    /// parent's address space and thread group exactly when the clone
    /// flags say so, and otherwise gets a forked space of its own and a
    /// fresh group whose ancestry names the parent's group.
    pub fn clone_task(
        &mut self,
        t: usize,
        flags: CloneFlagSet,
        stack: u64,
        new_tid: i32,
        rec_tid: i32,
    ) -> (r: usize)
        requires
            old(self).wf(),
            t < old(self).tasks@.len(),
            old(self).next_serial < 0xffff_fffd,
        ensures
            final(self).wf(),
            r == old(self).tasks@.len(),
            final(self).tasks@.len() == old(self).tasks@.len() + 1,
            forall|i: int|
                0 <= i < old(self).tasks@.len() ==> final(self).tasks@[i] == old(self).tasks@[i],
            final(self).tasks@ == old(self).tasks@.push(
                spec_clone_task_child(*old(self), t as int, flags, stack, new_tid, rec_tid),
            ),
            final(self).next_serial == old(self).next_serial + (if flags.share_thread_group {
                1int
            } else {
                2int
            }),
            ({
                let child = final(self).tasks@[r as int];
                let parent = old(self).tasks@[t as int];
                &&& child.tid == new_tid
                &&& child.rec_tid == rec_tid
                &&& child.arch == parent.arch
                &&& child.registers == parent.registers
                &&& child.registers_dirty
                &&& child.top_of_stack == stack
                &&& !child.unstable
                &&& (flags.share_vm ==> child.vm == parent.vm && final(self).spaces
                    == old(self).spaces)
                &&& (!flags.share_vm ==> {
                    &&& child.vm == old(self).spaces@.len()
                    &&& final(self).spaces@.len() == old(self).spaces@.len() + 1
                    &&& forall|k: int|
                        0 <= k < old(self).spaces@.len() ==> final(self).spaces@[k]
                            == old(self).spaces@[k]
                    &&& final(self).spaces@[child.vm as int].writes@.len() == 0
                    &&& final(self).spaces@[child.vm as int].maps@ == old(self).spaces@[
                        parent.vm as int].maps@
                    &&& final(self).spaces@[child.vm as int].breakpoints@ == old(self).spaces@[
                        parent.vm as int].breakpoints@
                    &&& final(self).spaces@[child.vm as int].watchpoints@ == old(self).spaces@[
                        parent.vm as int].watchpoints@
                })
                &&& (flags.share_thread_group ==> {
                    &&& child.tg == parent.tg
                    &&& final(self).groups@.len() == old(self).groups@.len()
                    &&& final(self).groups@[child.tg as int].tasks@ == old(self).groups@[
                        child.tg as int].tasks@.push(r as usize)
                    &&& forall|g: int|
                        0 <= g < old(self).groups@.len() && g != child.tg as int
                            ==> final(self).groups@[g] == old(self).groups@[g]
                })
                &&& (!flags.share_thread_group ==> {
                    &&& child.tg == old(self).groups@.len()
                    &&& final(self).groups@.len() == old(self).groups@.len() + 1
                    &&& final(self).groups@[child.tg as int].tgid == rec_tid
                    &&& final(self).groups@[child.tg as int].real_tgid == new_tid
                    &&& final(self).groups@[child.tg as int].parent == Some(parent.tg)
                    &&& final(self).groups@[child.tg as int].tasks@ =~= seq![r as usize]
                    &&& final(self).groups@[parent.tg as int].children@ == old(self).groups@[
                        parent.tg as int].children@.push(child.tg)
                    &&& forall|g: int|
                        0 <= g < old(self).groups@.len() && g != parent.tg as int
                            ==> final(self).groups@[g] == old(self).groups@[g]
                })
            }),
            final(self).trace == old(self).trace,
            final(self).done_initial_exec == old(self).done_initial_exec,
    {
        let new_idx = self.tasks.len();
        let parent_arch = self.tasks[t].arch;
        let parent_regs = *self.tasks[t].regs_ref();
        let parent_vm = self.tasks[t].vm;
        let parent_tg = self.tasks[t].tg;
        let task_serial = self.next_serial;
        self.next_serial = self.next_serial + 1;

        let vm: usize = if flags.share_vm {
            parent_vm
        } else {
            let new_vm = self.spaces.len();
            proof {
                assert(self.tasks@[t as int].vm < self.spaces@.len());
            }
            let forked = self.spaces[parent_vm].fork_from();
            self.spaces.push(forked);
            new_vm
        };

        let tg: usize = if flags.share_thread_group {
            parent_tg
        } else {
            let new_tg = self.groups.len();
            let group_serial = self.next_serial;
            self.next_serial = self.next_serial + 1;
            let group = ThreadGroup::new(Some(parent_tg), rec_tid, new_tid, new_tid, group_serial);
            self.groups.push(group);
            proof {
                assert(self.tasks@[t as int].tg < old(self).groups@.len());
            }
            let parent_group = &mut self.groups[parent_tg];
            parent_group.children.push(new_tg);
            new_tg
        };

        let mut child = ReplayTask::new(new_tid, rec_tid, task_serial, parent_arch, tg, vm);
        child.top_of_stack = stack;
        child.set_regs(&parent_regs);
        self.tasks.push(child);
        let member_group = &mut self.groups[tg];
        member_group.tasks.push(new_idx);
        proof {
            assert forall|i: int|
                0 <= i < self.tasks@.len() implies (#[trigger] self.tasks@[i]).wf()
                && self.tasks@[i].tg < self.groups@.len() && self.tasks@[i].vm
                < self.spaces@.len() by {
                if i < old(self).tasks@.len() {
                    assert(self.tasks@[i] == old(self).tasks@[i]);
                }
            }
            assert forall|g: int|
                0 <= g < self.groups@.len() implies (#[trigger] self.groups@[g]).members_in_bounds(
                self.tasks@,
            ) by {
                if g < old(self).groups@.len() {
                    assert(old(self).groups@[g].members_in_bounds(old(self).tasks@));
                    if g == tg as int {
                        assert forall|j: int|
                            0 <= j < self.groups@[g].tasks@.len() implies #[trigger] self.groups@[
                            g].tasks@[j] < self.tasks@.len() by {
                            if j < self.groups@[g].tasks@.len() - 1 {
                                assert(self.groups@[g].tasks@[j] == old(self).groups@[g].tasks@[j]
                                    || self.groups@[g].tasks@[j] == old(self).groups@[
                                    g].tasks@[j]);
                            }
                        }
                    } else {
                        if flags.share_thread_group || g != parent_tg as int {
                            assert(self.groups@[g].tasks@ == old(self).groups@[g].tasks@);
                        } else {
                            assert(self.groups@[g].tasks@ == old(self).groups@[g].tasks@);
                        }
                    }
                } else {
                    assert(g == tg as int);
                    assert forall|j: int|
                        0 <= j < self.groups@[g].tasks@.len() implies #[trigger] self.groups@[
                        g].tasks@[j] < self.tasks@.len() by {}
                }
            }
        }
        new_idx
    }

    /// Mark every member of the given group unstable; see
    /// `ThreadGroup::destabilize`.
    pub fn destabilize_thread_group(&mut self, g: usize)
        requires
            old(self).wf(),
            g < old(self).groups@.len(),
        ensures
            final(self).wf(),
            final(self).tasks@ == spec_destabilized(old(self).tasks@, old(self).groups@[
                g as int].tasks@),
            final(self).groups == old(self).groups,
            final(self).spaces == old(self).spaces,
            final(self).trace == old(self).trace,
            final(self).next_serial == old(self).next_serial,
            final(self).done_initial_exec == old(self).done_initial_exec,
    {
        let group = &self.groups[g];
        group.destabilize(&mut self.tasks);
        proof {
            assert(self.tasks@ =~= spec_destabilized(old(self).tasks@, old(self).groups@[
                g as int].tasks@));
            assert forall|i: int| 0 <= i < self.tasks@.len() implies (#[trigger] self.tasks@[
                i]).wf() && self.tasks@[i].tg < self.groups@.len() && self.tasks@[i].vm
                < self.spaces@.len() by {
                assert(old(self).tasks@[i].wf());
            }
            assert forall|gg: int| 0 <= gg < self.groups@.len() implies (#[trigger] self.groups@[
                gg]).members_in_bounds(self.tasks@) by {
                assert(old(self).groups@[gg].members_in_bounds(old(self).tasks@));
            }
        }
    }
}

} // verus!
