//! The engine's view of a recorded trace: sequential frames, out-of-band
//! task lifecycle events, raw memory-write records, and recorded mappings.
//!
//! All reads are forward-only.  "No further events of the requested kind"
//! is a corruption signal, never a quiet end.

use vstd::prelude::*;

use crate::errors::ReplayError;
use crate::kernel_abi::SupportedArch;
use crate::registers::Registers;

verus! {

/// The global time of a frame in the recording.
pub type FrameTime = u64;

/// The deterministic scheduling clock: hardware-counted branch events.
pub type Ticks = u64;

/// What the recorded frame says about its syscall.
#[derive(Copy, Clone, PartialEq, Eq, Structural, Debug)]
pub struct SyscallEvent {
    pub number: i32,
    pub arch: SupportedArch,
    /// The recorded syscall never reached the kernel; there is nothing to
    /// re-execute.
    pub failed_during_preparation: bool,
}

/// One recorded frame: the task it belongs to, the register file and tick
/// count at the stop, and the syscall being entered or exited.
#[derive(Copy, Clone, PartialEq, Eq, Structural, Debug)]
pub struct TraceFrame {
    pub time: FrameTime,
    pub tid: i32,
    pub ticks: Ticks,
    pub regs: Registers,
    pub ev: SyscallEvent,
}

#[derive(Copy, Clone, PartialEq, Eq, Structural, Debug)]
pub enum TraceTaskEventKind {
    Clone,
    Exec,
    Exit,
}

/// An out-of-band lifecycle event, keyed by frame time and kind.  For a
/// clone event, `tid` is the new task's id in the original recording's
/// namespace and `parent_tid` the recorded parent.
#[derive(Copy, Clone, PartialEq, Eq, Structural, Debug)]
pub struct TraceTaskEvent {
    pub time: FrameTime,
    pub kind: TraceTaskEventKind,
    pub tid: i32,
    pub parent_tid: i32,
    pub clone_flags: u64,
}

/// One recorded write into a tracee's memory: which task, where, and the
/// bytes the kernel wrote during recording.
#[derive(Clone, Debug)]
pub struct RawDataRecord {
    pub time: FrameTime,
    pub rec_tid: i32,
    pub addr: u64,
    pub data: Vec<u8>,
}

/// Where the bytes of a recorded mapping come from.
#[derive(Copy, Clone, PartialEq, Eq, Structural, Debug)]
pub enum MappedDataSource {
    SourceZero,
    SourceTrace,
    SourceFile,
}

#[derive(Copy, Clone, PartialEq, Eq, Structural, Debug)]
pub struct MappedData {
    pub time: FrameTime,
    pub source: MappedDataSource,
}

/// A mapping as the recording describes it: placement, protection, and
/// mapping flags.
#[derive(Copy, Clone, PartialEq, Eq, Structural, Debug)]
pub struct KernelMapping {
    pub start: u64,
    pub size: u64,
    pub prot: u32,
    pub flags: u32,
}

#[derive(Copy, Clone, PartialEq, Eq, Structural, Debug)]
pub struct MappedRegion {
    pub km: KernelMapping,
    pub data: MappedData,
}

/// The first event at or after `from` whose time has reached `time` and
/// whose kind matches; events of other kinds or earlier times are skipped.
pub open spec fn spec_find_task_event(
    events: Seq<TraceTaskEvent>,
    from: int,
    time: FrameTime,
    kind: TraceTaskEventKind,
) -> Option<int>
    decreases events.len() - from,
{
    if from < 0 || from >= events.len() {
        None
    } else if events[from].time >= time && events[from].kind == kind {
        Some(from)
    } else {
        spec_find_task_event(events, from + 1, time, kind)
    }
}

/// Forward-only access to the recording.
pub struct TraceReader {
    pub frames: Vec<TraceFrame>,
    pub frame_pos: usize,
    pub task_events: Vec<TraceTaskEvent>,
    pub task_event_pos: usize,
    pub raw_recs: Vec<RawDataRecord>,
    pub raw_pos: usize,
    pub mapped_regions: Vec<MappedRegion>,
    pub mapped_pos: usize,
}

impl TraceReader {
    pub open spec fn wf(self) -> bool {
        &&& self.frame_pos <= self.frames.len()
        &&& self.task_event_pos <= self.task_events.len()
        &&& self.raw_pos <= self.raw_recs.len()
        &&& self.mapped_pos <= self.mapped_regions.len()
    }

    pub fn new(
        frames: Vec<TraceFrame>,
        task_events: Vec<TraceTaskEvent>,
        raw_recs: Vec<RawDataRecord>,
        mapped_regions: Vec<MappedRegion>,
    ) -> (r: TraceReader)
        ensures
            r.wf(),
            r.frames == frames,
            r.task_events == task_events,
            r.raw_recs == raw_recs,
            r.mapped_regions == mapped_regions,
            r.frame_pos == 0,
            r.task_event_pos == 0,
            r.raw_pos == 0,
            r.mapped_pos == 0,
    {
        TraceReader {
            frames,
            frame_pos: 0,
            task_events,
            task_event_pos: 0,
            raw_recs,
            raw_pos: 0,
            mapped_regions,
            mapped_pos: 0,
        }
    }

    /// True when every frame has been replayed.
    pub fn at_end(&self) -> (r: bool)
        ensures
            r == (self.frame_pos >= self.frames.len()),
    {
        self.frame_pos >= self.frames.len()
    }

    pub open spec fn spec_current_frame(self) -> TraceFrame {
        self.frames[self.frame_pos as int]
    }

    /// The frame being replayed; a borrow of it never outlives the step.
    pub fn current_frame(&self) -> (r: TraceFrame)
        requires
            self.frame_pos < self.frames.len(),
        ensures
            r == self.spec_current_frame(),
    {
        self.frames[self.frame_pos]
    }

    pub fn current_frame_time(&self) -> (r: FrameTime)
        requires
            self.frame_pos < self.frames.len(),
        ensures
            r == self.spec_current_frame().time,
    {
        self.frames[self.frame_pos].time
    }

    /// Move to the next frame.
    pub fn advance_frame(&mut self)
        requires
            old(self).frame_pos < old(self).frames.len(),
        ensures
            *final(self) == (TraceReader {
                frame_pos: (old(self).frame_pos + 1) as usize,
                ..*old(self)
            }),
    {
        self.frame_pos = self.frame_pos + 1;
    }

    /// The next raw memory-write record, if it belongs to the current
    /// frame; returned as an index so the caller can borrow the bytes.
    pub fn read_raw_data_for_frame(&mut self) -> (r: Option<usize>)
        requires
            old(self).wf(),
            old(self).frame_pos < old(self).frames.len(),
        ensures
            final(self).wf(),
            match r {
                Some(i) => {
                    &&& i == old(self).raw_pos
                    &&& i < old(self).raw_recs.len()
                    &&& old(self).raw_recs[i as int].time == old(self).spec_current_frame().time
                    &&& *final(self) == (TraceReader { raw_pos: (i + 1) as usize, ..*old(self) })
                },
                None => {
                    &&& *final(self) == *old(self)
                    &&& (old(self).raw_pos == old(self).raw_recs.len() || old(self).raw_recs[old(
                        self,
                    ).raw_pos as int].time != old(self).spec_current_frame().time)
                },
            },
    {
        if self.raw_pos < self.raw_recs.len() {
            let t = self.raw_recs[self.raw_pos].time;
            if t == self.frames[self.frame_pos].time {
                let i = self.raw_pos;
                self.raw_pos = self.raw_pos + 1;
                return Some(i);
            }
        }
        None
    }

    /// The next recorded mapping, consumed in order.
    pub fn read_mapped_region(&mut self) -> (r: Option<MappedRegion>)
        requires
            old(self).wf(),
        ensures
            final(self).wf(),
            match r {
                Some(m) => {
                    &&& old(self).mapped_pos < old(self).mapped_regions.len()
                    &&& m == old(self).mapped_regions[old(self).mapped_pos as int]
                    &&& *final(self) == (TraceReader {
                        mapped_pos: (old(self).mapped_pos + 1) as usize,
                        ..*old(self)
                    })
                },
                None => {
                    &&& old(self).mapped_pos == old(self).mapped_regions.len()
                    &&& *final(self) == *old(self)
                },
            },
    {
        if self.mapped_pos < self.mapped_regions.len() {
            let m = self.mapped_regions[self.mapped_pos];
            self.mapped_pos = self.mapped_pos + 1;
            Some(m)
        } else {
            None
        }
    }

    /// Scan forward for the lifecycle event the current frame requires,
    /// skipping unrelated events.  The matching event must carry exactly
    /// the requested frame time; a trace with no such event is corrupt.
    pub fn read_task_trace_event(&mut self, time: FrameTime, kind: TraceTaskEventKind) -> (r: Result<
        TraceTaskEvent,
        ReplayError,
    >)
        requires
            old(self).wf(),
        ensures
            final(self).wf(),
            final(self).frames == old(self).frames,
            final(self).frame_pos == old(self).frame_pos,
            final(self).task_events == old(self).task_events,
            final(self).raw_recs == old(self).raw_recs,
            final(self).raw_pos == old(self).raw_pos,
            final(self).mapped_regions == old(self).mapped_regions,
            final(self).mapped_pos == old(self).mapped_pos,
            match spec_find_task_event(
                old(self).task_events@,
                old(self).task_event_pos as int,
                time,
                kind,
            ) {
                Some(i) => {
                    if old(self).task_events@[i].time == time {
                        &&& r == Ok::<TraceTaskEvent, ReplayError>(old(self).task_events@[i])
                        &&& final(self).task_event_pos == i + 1
                    } else {
                        r == Err::<TraceTaskEvent, ReplayError>(
                            ReplayError::TraceTaskEventTimeMismatch {
                                expected: time,
                                found: old(self).task_events@[i].time,
                            },
                        )
                    }
                },
                None => r == Err::<TraceTaskEvent, ReplayError>(
                    ReplayError::TraceTaskEventMissing { kind },
                ),
            },
    {
        loop
            invariant
                self.wf(),
                self.frames == old(self).frames,
                self.frame_pos == old(self).frame_pos,
                self.task_events == old(self).task_events,
                self.raw_recs == old(self).raw_recs,
                self.raw_pos == old(self).raw_pos,
                self.mapped_regions == old(self).mapped_regions,
                self.mapped_pos == old(self).mapped_pos,
                old(self).task_event_pos <= self.task_event_pos,
                spec_find_task_event(
                    self.task_events@,
                    self.task_event_pos as int,
                    time,
                    kind,
                ) == spec_find_task_event(
                    old(self).task_events@,
                    old(self).task_event_pos as int,
                    time,
                    kind,
                ),
            decreases self.task_events.len() - self.task_event_pos,
        {
            if self.task_event_pos >= self.task_events.len() {
                return Err(ReplayError::TraceTaskEventMissing { kind });
            }
            let ev = self.task_events[self.task_event_pos];
            let matches_here = ev.time >= time && ev.kind == kind;
            if matches_here {
                self.task_event_pos = self.task_event_pos + 1;
                if ev.time == time {
                    return Ok(ev);
                } else {
                    return Err(
                        ReplayError::TraceTaskEventTimeMismatch { expected: time, found: ev.time },
                    );
                }
            }
            self.task_event_pos = self.task_event_pos + 1;
        }
    }
}

} // verus!
