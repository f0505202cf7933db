use rd::errors::ReplayError;
use rd::kernel_abi::{SupportedArch, X64_WRITE};
use rd::registers::Registers;
use rd::session::Session;
use rd::trace::{
    RawDataRecord, SyscallEvent, TraceFrame, TraceReader, TraceTaskEvent, TraceTaskEventKind,
};

fn frame(time: u64, number: i32) -> TraceFrame {
    TraceFrame {
        time,
        tid: 10,
        ticks: 0,
        regs: Registers::new(SupportedArch::X64),
        ev: SyscallEvent { number, arch: SupportedArch::X64, failed_during_preparation: false },
    }
}

fn event(time: u64, kind: TraceTaskEventKind, tid: i32, parent_tid: i32) -> TraceTaskEvent {
    TraceTaskEvent { time, kind, tid, parent_tid, clone_flags: 0 }
}

#[test]
fn the_matching_event_is_found_past_unrelated_ones() {
    let events = vec![
        event(1, TraceTaskEventKind::Exec, 5, 0),
        event(1, TraceTaskEventKind::Clone, 42, 10),
    ];
    let mut tr = TraceReader::new(vec![frame(1, X64_WRITE)], events, Vec::new(), Vec::new());
    let found = tr.read_task_trace_event(1, TraceTaskEventKind::Clone).unwrap();
    assert_eq!(found.tid, 42);
    assert_eq!(found.parent_tid, 10);
}

#[test]
fn a_trace_without_the_event_is_corrupt() {
    let events = vec![event(1, TraceTaskEventKind::Exec, 5, 0)];
    let mut tr = TraceReader::new(vec![frame(1, X64_WRITE)], events, Vec::new(), Vec::new());
    let err = tr.read_task_trace_event(1, TraceTaskEventKind::Clone).unwrap_err();
    assert_eq!(err, ReplayError::TraceTaskEventMissing { kind: TraceTaskEventKind::Clone });
}

#[test]
fn an_event_at_a_later_time_is_a_time_mismatch() {
    let events = vec![event(5, TraceTaskEventKind::Clone, 42, 10)];
    let mut tr = TraceReader::new(vec![frame(1, X64_WRITE)], events, Vec::new(), Vec::new());
    let err = tr.read_task_trace_event(1, TraceTaskEventKind::Clone).unwrap_err();
    assert_eq!(err, ReplayError::TraceTaskEventTimeMismatch { expected: 1, found: 5 });
}

#[test]
fn raw_records_belong_to_their_frame_only() {
    let recs = vec![RawDataRecord { time: 2, rec_tid: 10, addr: 0x1000, data: vec![1] }];
    let mut tr = TraceReader::new(vec![frame(1, X64_WRITE)], Vec::new(), recs, Vec::new());
    assert_eq!(tr.read_raw_data_for_frame(), None);
}

#[test]
fn a_record_naming_an_unknown_task_is_an_error() {
    let recs = vec![RawDataRecord { time: 1, rec_tid: 99, addr: 0x1000, data: vec![1] }];
    let tr = TraceReader::new(vec![frame(1, X64_WRITE)], Vec::new(), recs, Vec::new());
    let mut session = Session::new(tr);
    session.create_initial_task(100, 10, SupportedArch::X64);
    let err = session.set_data_from_trace().unwrap_err();
    assert_eq!(err, ReplayError::RecordForUnknownTask { rec_tid: 99 });
}

#[test]
fn records_land_in_the_named_tasks_space() {
    let recs = vec![
        RawDataRecord { time: 1, rec_tid: 10, addr: 0x1000, data: vec![1, 2] },
        RawDataRecord { time: 1, rec_tid: 10, addr: 0x2000, data: vec![3] },
    ];
    let tr = TraceReader::new(vec![frame(1, X64_WRITE)], Vec::new(), recs, Vec::new());
    let mut session = Session::new(tr);
    let t = session.create_initial_task(100, 10, SupportedArch::X64);
    session.apply_all_data_records_from_trace().unwrap();
    let vm = session.tasks[t].vm;
    assert_eq!(session.spaces[vm].writes.len(), 2);
    assert_eq!(session.spaces[vm].writes[0].addr, 0x1000);
    assert_eq!(session.spaces[vm].writes[0].data, vec![1, 2]);
    assert_eq!(session.spaces[vm].writes[1].addr, 0x2000);
    // everything for the frame was consumed
    assert_eq!(session.trace.raw_pos, 2);
}

#[test]
fn a_record_with_no_address_is_skipped_in_sync() {
    let recs = vec![RawDataRecord { time: 1, rec_tid: 10, addr: 0, data: vec![1] }];
    let tr = TraceReader::new(vec![frame(1, X64_WRITE)], Vec::new(), recs, Vec::new());
    let mut session = Session::new(tr);
    let t = session.create_initial_task(100, 10, SupportedArch::X64);
    assert_eq!(session.set_data_from_trace().unwrap(), true);
    let vm = session.tasks[t].vm;
    assert!(session.spaces[vm].writes.is_empty());
    assert_eq!(session.trace.raw_pos, 1);
}

#[test]
fn frames_advance_forward_only() {
    let mut tr = TraceReader::new(
        vec![frame(1, X64_WRITE), frame(2, X64_WRITE)],
        Vec::new(),
        Vec::new(),
        Vec::new(),
    );
    assert!(!tr.at_end());
    assert_eq!(tr.current_frame_time(), 1);
    tr.advance_frame();
    assert_eq!(tr.current_frame_time(), 2);
    tr.advance_frame();
    assert!(tr.at_end());
}
