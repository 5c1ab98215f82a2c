use flow_win32::architecture::Architecture;
use flow_win32::error::Error;
use flow_win32::lowstub::KernelStubInfo;
use flow_win32::processes::{ProcessDescriptor, ProcessList, WalkEnd};
use flow_win32::report::{Check, Report, MAX_SOUND_PID};
use flow_win32::symbols::{BuildIdentifier, SymbolSource};
use flow_win32::win::Windows;

fn check(name: &str, passed: bool) -> Check {
    Check { name: String::from(name), passed }
}

fn process(pid: u64, dtb: u64, section_base: u64, ethread: u64) -> ProcessDescriptor {
    ProcessDescriptor {
        address: 0xffff_f800_0010_4000,
        pid,
        dtb,
        section_base,
        ethread,
        teb: None,
        teb_wow64: None,
        peb_wow64: None,
    }
}

#[test]
fn new_report_has_no_checks_and_no_error() {
    let report = Report::new();
    assert!(report.checks.is_empty());
    assert_eq!(report.failures(), 0);
    assert!(!report.had_error());
}

#[test]
fn checks_are_recorded_in_order_with_their_word() {
    let mut report = Report::new();
    assert_eq!(report.bool_str("first", true), "ok");
    assert_eq!(report.bool_str("second", false), "error");
    assert_eq!(report.some_str("third", &Some(1u8)), "ok");
    assert_eq!(report.some_str::<u8>("fourth", &None), "error");
    assert_eq!(report.ok_str::<u8, Error>("fifth", &Ok(1)), "ok");
    assert_eq!(report.ok_str::<u8, Error>("sixth", &Err(Error::IoError)), "error");
    assert_eq!(
        report.checks,
        vec![
            check("first", true),
            check("second", false),
            check("third", true),
            check("fourth", false),
            check("fifth", true),
            check("sixth", false),
        ]
    );
    assert_eq!(report.failures(), 3);
    assert!(report.had_error());
}

#[test]
fn report_of_passed_checks_has_no_error() {
    let mut report = Report::new();
    report.bool_str("a", true);
    report.bool_str("b", true);
    assert_eq!(report.failures(), 0);
    assert!(!report.had_error());
    report.bool_str("c", false);
    assert_eq!(report.failures(), 1);
    assert!(report.had_error());
    report.bool_str("d", true);
    assert!(report.had_error());
}

#[test]
fn kernel_checks_look_at_root_base_anchor_and_symbols() {
    let stub = KernelStubInfo { arch: Architecture::X64, va: 0xffff_f800_0000_1000, dtb: 0x1000 };
    let symbols = SymbolSource::new(BuildIdentifier { timestamp: 1, image_size: 2 }, vec![]);
    let sound = Windows::new(stub, 0xffff_f800_0000_0000, 0xffff_f800_0000_4000, Some(symbols));
    let mut report = Report::new();
    report.kernel_checks(&sound);
    assert_eq!(
        report.checks,
        vec![
            check("dtb", true),
            check("base", true),
            check("eprocess_base", true),
            check("symbols", true),
        ]
    );
    assert!(!report.had_error());
    let zero = KernelStubInfo { arch: Architecture::X64, va: 0, dtb: 0 };
    let unsound = Windows::new(zero, 0, 0, None);
    report.kernel_checks(&unsound);
    assert_eq!(report.checks.len(), 8);
    assert_eq!(
        report.checks[4..],
        [
            check("dtb", false),
            check("base", false),
            check("eprocess_base", false),
            check("symbols", false),
        ]
    );
    assert_eq!(report.failures(), 4);
}

#[test]
fn process_checks_look_at_id_root_section_and_thread() {
    assert_eq!(MAX_SOUND_PID, 10000);
    let mut report = Report::new();
    report.process_checks(&process(9999, 0x1000, 0x40_0000, 0xffff_f800_0000_8000));
    assert_eq!(
        report.checks,
        vec![
            check("pid", true),
            check("dtb", true),
            check("section_base", true),
            check("ethread", true),
        ]
    );
    let mut report = Report::new();
    report.process_checks(&process(10000, 0, 0, 0));
    assert_eq!(
        report.checks,
        vec![
            check("pid", false),
            check("dtb", false),
            check("section_base", false),
            check("ethread", false),
        ]
    );
}

#[test]
fn list_checks_look_at_the_end_and_the_length() {
    let mut report = Report::new();
    let closed = ProcessList { processes: vec![process(4, 1, 1, 1)], end: WalkEnd::Closed };
    report.list_checks(&closed);
    assert_eq!(report.checks, vec![check("closed", true), check("processes", true)]);
    let mut report = Report::new();
    report.list_checks(&ProcessList { processes: vec![], end: WalkEnd::Torn });
    assert_eq!(report.checks, vec![check("closed", false), check("processes", false)]);
    let mut report = Report::new();
    report.list_checks(&ProcessList { processes: vec![process(4, 1, 1, 1)], end: WalkEnd::Bounded });
    assert_eq!(report.checks, vec![check("closed", false), check("processes", true)]);
}
