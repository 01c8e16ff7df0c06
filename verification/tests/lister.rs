use process_viewer::decimal::{i32_to_dec, u64_to_dec};
use process_viewer::errors::OsError;
use process_viewer::proc_viewer::{format_proc_line, render_proc_lines, view_procs, ProcSummary};

#[test]
fn decimal_small_values() {
    assert_eq!(u64_to_dec(0), "0");
    assert_eq!(u64_to_dec(7), "7");
    assert_eq!(u64_to_dec(10), "10");
    assert_eq!(u64_to_dec(409600), "409600");
}

#[test]
fn decimal_largest_value() {
    assert_eq!(u64_to_dec(u64::MAX), "18446744073709551615");
}

#[test]
fn decimal_signed_values() {
    assert_eq!(i32_to_dec(0), "0");
    assert_eq!(i32_to_dec(1234), "1234");
    assert_eq!(i32_to_dec(-7), "-7");
    assert_eq!(i32_to_dec(i32::MIN), "-2147483648");
    assert_eq!(i32_to_dec(i32::MAX), "2147483647");
}

#[test]
fn one_process_line() {
    let p = ProcSummary { pid: 42, comm: String::from("bash"), vsize: 123456 };
    assert_eq!(format_proc_line(&p), "42: bash - 123456 bytes");
}

#[test]
fn lines_in_table_order() {
    let table = vec![
        ProcSummary { pid: 1, comm: String::from("init"), vsize: 0 },
        ProcSummary { pid: 4096, comm: String::from("kworker/0"), vsize: 77 },
        ProcSummary { pid: -3, comm: String::from("odd"), vsize: u64::MAX },
    ];
    let lines = render_proc_lines(&table);
    assert_eq!(lines.len(), 3);
    assert_eq!(lines[0], "1: init - 0 bytes");
    assert_eq!(lines[1], "4096: kworker/0 - 77 bytes");
    assert_eq!(lines[2], "-3: odd - 18446744073709551615 bytes");
}

#[test]
fn empty_table_gives_no_lines() {
    let lines = view_procs(Some(Vec::new())).unwrap();
    assert_eq!(lines.len(), 0);
}

#[test]
fn one_line_per_entry() {
    let table = vec![
        ProcSummary { pid: 10, comm: String::from("a"), vsize: 1 },
        ProcSummary { pid: 20, comm: String::from("b"), vsize: 2 },
    ];
    let lines = view_procs(Some(table)).unwrap();
    assert_eq!(lines.len(), 2);
    assert!(lines[0].contains("10"));
    assert!(lines[0].contains('a'));
    assert!(lines[1].contains("20"));
    assert!(lines[1].contains('b'));
}

#[test]
fn unreadable_table_is_resource_error() {
    let r = view_procs(None);
    match r {
        Ok(_) => panic!("an unreadable table must not yield lines"),
        Err(e) => {
            assert_eq!(e, OsError::ResourceUnavailable);
            assert_eq!(e.message(), "OS resource unavailable");
        },
    }
}

#[test]
fn error_messages() {
    assert_eq!(OsError::ResourceUnavailable.message(), "OS resource unavailable");
    assert_eq!(OsError::ReadFailure.message(), "read failure");
}
