use tlhelp32::records::{ProcessRecord, ThreadRecord, TH32CS_SNAPPROCESS};
use tlhelp32::snapshot::INVALID_HANDLE_VALUE;
use tlhelp32::{OsError, ProcessEntry, Snapshot, TagTl32, ThreadEntry};

fn wide(s: &str, width: usize) -> Vec<u16> {
    let mut v: Vec<u16> = s.encode_utf16().collect();
    v.resize(width, 0);
    v
}

fn process_record(pid: u32, name: &str) -> ProcessRecord {
    let mut r = ProcessEntry::init_raw(568);
    r.process_id = pid;
    r.cnt_threads = 3;
    r.parent_process_id = 4;
    r.pc_pri_class_base = 8;
    r.exe_file = wide(name, 260);
    r
}

fn thread_record(tid: u32) -> ThreadRecord {
    ThreadRecord { size: 28, thread_id: tid, owner_process_id: 99, base_pri: -2 }
}

#[test]
fn invalid_handle_gives_the_last_error() {
    let r = Snapshot::<ProcessEntry>::from_handle(INVALID_HANDLE_VALUE, None, 6);
    assert_eq!(r.err(), Some(OsError { code: 6 }));
    assert!(!Snapshot::<ProcessEntry>::is_valid_handle(INVALID_HANDLE_VALUE));
    assert!(Snapshot::<ProcessEntry>::is_valid_handle(0x40));
}

#[test]
fn drain_returns_every_record_then_stays_exhausted() {
    let mut s = Snapshot::<ProcessEntry>::from_handle(0x40, Some(process_record(1, "a.exe")), 0)
        .unwrap();
    assert_eq!(s.handle(), 0x40);
    assert!(s.wants_advance());
    assert_eq!(s.current().unwrap().process_id, 1);
    let e1 = s.step(Some(process_record(2, "b.exe")), ()).unwrap();
    assert_eq!(e1.process_id, 1);
    assert_eq!(e1.sz_exe_file, "a.exe".encode_utf16().collect::<Vec<u16>>());
    assert!(s.wants_advance());
    // The last real record comes out on the step whose advance reported the end.
    let e2 = s.step(None, ()).unwrap();
    assert_eq!(e2.process_id, 2);
    assert_eq!(e2.cnt_threads, 3);
    assert_eq!(e2.parent_process_id, 4);
    assert_eq!(e2.pc_pri_class_base, 8);
    assert!(!s.wants_advance());
    assert!(s.current().is_none());
    // The first empty step, and every one after it, hands out nothing.
    assert!(s.step(None, ()).is_none());
    assert!(s.step(Some(process_record(3, "c.exe")), ()).is_none());
    assert!(s.step(None, ()).is_none());
    assert!(!s.wants_advance());
    assert_eq!(s.close(), 0x40);
}

#[test]
fn empty_list_gives_an_exhausted_snapshot() {
    let mut s = Snapshot::<ThreadEntry>::from_handle(0x10, None, 0).unwrap();
    assert!(!s.wants_advance());
    assert!(s.step(None, ()).is_none());
    assert_eq!(s.close(), 0x10);
}

#[test]
fn foreign_handle_behaves_as_exhausted() {
    // A handle that is no snapshot makes the provider's first call fail.
    let mut s = Snapshot::<ProcessEntry>::from_handle(0xdead, None, 0).unwrap();
    for _ in 0..5 {
        assert!(!s.wants_advance());
        assert!(s.step(Some(process_record(1, "x")), ()).is_none());
    }
    assert_eq!(s.close(), 0xdead);
}

#[test]
fn thread_snapshot_counts_records() {
    let mut s = Snapshot::<ThreadEntry>::from_handle(0x20, Some(thread_record(10)), 0).unwrap();
    let mut seen = Vec::new();
    let mut next_tid = 11;
    while s.wants_advance() {
        let fetched = if next_tid < 15 { Some(thread_record(next_tid)) } else { None };
        next_tid += 1;
        let e = s.step(fetched, ()).unwrap();
        seen.push(e.thread_id);
        assert_eq!(e.owner_process_id, 99);
        assert_eq!(e.base_pri, -2);
    }
    assert_eq!(seen, vec![10, 11, 12, 13, 14]);
    assert!(s.step(None, ()).is_none());
}

#[test]
fn process_flags_and_fresh_record() {
    assert_eq!(ProcessEntry::flags(), TH32CS_SNAPPROCESS);
    assert_eq!(ProcessEntry::flags(), 0x2);
    let r = ProcessEntry::init_raw(556);
    assert_eq!(r.size, 556);
    assert_eq!(r.process_id, 0);
    assert_eq!(r.exe_file, vec![0u16; 260]);
}
