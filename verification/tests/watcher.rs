use process_viewer::errors::OsError;
use process_viewer::fs_watcher::{
    format_event_batch, format_event_line, mask_text, watch_step, FsEvent, WatchInput,
    WatchOutput, WatchPhase,
};

const IN_ACCESS: u32 = 0x1;
const IN_MODIFY: u32 = 0x2;
const IN_CREATE: u32 = 0x100;
const IN_ISDIR: u32 = 0x40000000;

#[test]
fn mask_single_flags() {
    assert_eq!(mask_text(IN_ACCESS), "IN_ACCESS");
    assert_eq!(mask_text(IN_CREATE), "IN_CREATE");
    assert_eq!(mask_text(0x8000), "IN_IGNORED");
}

#[test]
fn mask_combined_flags() {
    assert_eq!(mask_text(IN_ACCESS | IN_MODIFY), "IN_ACCESS|IN_MODIFY");
    assert_eq!(mask_text(IN_CREATE | IN_ISDIR), "IN_CREATE|IN_ISDIR");
}

#[test]
fn mask_without_known_bits() {
    assert_eq!(mask_text(0), "(unknown)");
    assert_eq!(mask_text(0x1000), "(unknown)");
}

#[test]
fn event_line_with_name() {
    let ev = FsEvent { mask: IN_CREATE, name: Some(String::from("notes.txt")) };
    assert_eq!(format_event_line(&ev), "Event: IN_CREATE for Some(\"notes.txt\")");
}

#[test]
fn event_line_without_name() {
    let ev = FsEvent { mask: IN_MODIFY, name: None };
    assert_eq!(format_event_line(&ev), "Event: IN_MODIFY for None");
}

#[test]
fn creation_in_watched_directory() {
    // a file "a.txt" is created under the watched path "target"
    let ev = FsEvent { mask: IN_CREATE, name: Some(String::from("a.txt")) };
    let line = format_event_line(&ev);
    assert!(line.contains("IN_CREATE"));
    assert!(line.contains("a.txt"));
}

#[test]
fn batch_has_one_line_per_record() {
    let batch = vec![
        FsEvent { mask: IN_CREATE, name: Some(String::from("a.txt")) },
        FsEvent { mask: IN_MODIFY, name: Some(String::from("a.txt")) },
        FsEvent { mask: 0, name: None },
    ];
    let lines = format_event_batch(&batch);
    assert_eq!(lines.len(), 3);
    assert_eq!(lines[0], "Event: IN_CREATE for Some(\"a.txt\")");
    assert_eq!(lines[1], "Event: IN_MODIFY for Some(\"a.txt\")");
    assert_eq!(lines[2], "Event: (unknown) for None");
}

#[test]
fn successful_setup_enters_loop() {
    let (phase, out) = watch_step(WatchPhase::SettingUp, WatchInput::SetupOk);
    assert_eq!(phase, WatchPhase::Watching);
    assert!(matches!(out, WatchOutput::AwaitEvents));
}

#[test]
fn failed_setup_aborts_before_loop() {
    let (phase, out) = watch_step(WatchPhase::SettingUp, WatchInput::SetupFailed);
    assert_eq!(phase, WatchPhase::Ended);
    match out {
        WatchOutput::Abort(e) => assert_eq!(e, OsError::ResourceUnavailable),
        _ => panic!("a failed setup must abort"),
    }
}

#[test]
fn batch_is_reported_and_watch_goes_on() {
    let batch = vec![FsEvent { mask: IN_CREATE, name: Some(String::from("a.txt")) }];
    let (phase, out) = watch_step(WatchPhase::Watching, WatchInput::Batch(batch));
    assert_eq!(phase, WatchPhase::Watching);
    match out {
        WatchOutput::Report(lines) => {
            assert_eq!(lines.len(), 1);
            assert_eq!(lines[0], "Event: IN_CREATE for Some(\"a.txt\")");
        },
        _ => panic!("a batch must be reported"),
    }
}

#[test]
fn failed_read_aborts() {
    let (phase, out) = watch_step(WatchPhase::Watching, WatchInput::ReadFailed);
    assert_eq!(phase, WatchPhase::Ended);
    match out {
        WatchOutput::Abort(e) => assert_eq!(e, OsError::ReadFailure),
        _ => panic!("a failed read must abort"),
    }
}

#[test]
fn cancellation_ends_cleanly() {
    let (phase, out) = watch_step(WatchPhase::Watching, WatchInput::Cancel);
    assert_eq!(phase, WatchPhase::Ended);
    assert!(matches!(out, WatchOutput::Done));
}
