use usbip_registry::action::{
    ActionKind, BindType, Verdict, ALREADY_BOUND, DRIVER_MISSING, ERROR_MARKER, NOT_BOUND,
};
use usbip_registry::batch::{Batch, Step};
use usbip_registry::error::{classify_listing_failure, failure_error, EngineError};
use usbip_registry::parser::ConfigurationError;
use usbip_registry::text::{chars_of, contains, push_decimal};

fn run(kind: ActionKind, diagnostics: &[&str], total: usize) -> (Batch, Vec<Option<Verdict>>) {
    let mut batch = Batch::new(kind, total);
    let mut verdicts = Vec::new();
    for diagnostic in diagnostics {
        let (next, verdict) = batch.record(diagnostic);
        batch = next;
        verdicts.push(verdict);
    }
    (batch, verdicts)
}

#[test]
fn bind_already_bound_is_success() {
    assert_eq!(
        ActionKind::Bind.classify("error: already bound to usbip-host"),
        Verdict::Success
    );
    assert_eq!(
        ActionKind::Bind.classify("usbip: error: device on busid 1-1 is already bound to usbip-host\n"),
        Verdict::Success
    );
}

#[test]
fn unbind_not_bound_is_success() {
    assert_eq!(
        ActionKind::Unbind.classify("error: device is not bound to usbip-host"),
        Verdict::Success
    );
}

#[test]
fn bind_and_unbind_do_not_share_their_benign_message() {
    assert_eq!(
        ActionKind::Bind.classify("error: device is not bound to usbip-host"),
        Verdict::Failure
    );
    assert_eq!(
        ActionKind::Unbind.classify("error: already bound to usbip-host"),
        Verdict::Failure
    );
}

#[test]
fn bind_other_error_is_failure() {
    assert_eq!(
        ActionKind::Bind.classify("usbip: error: could not find device with busid 9-9"),
        Verdict::Failure
    );
    assert_eq!(ActionKind::Unbind.classify("error: "), Verdict::Failure);
}

#[test]
fn bind_without_error_marker_is_success() {
    assert_eq!(ActionKind::Bind.classify(""), Verdict::Success);
    assert_eq!(
        ActionKind::Bind.classify("usbip: info: bind device on busid 1-1: complete"),
        Verdict::Success
    );
    assert_eq!(ActionKind::Unbind.classify("error:"), Verdict::Success);
    assert_eq!(ActionKind::Unbind.classify("Error: no"), Verdict::Success);
}

#[test]
fn attach_driver_missing_whatever_else() {
    assert_eq!(
        ActionKind::Attach.classify("open vhci_driver"),
        Verdict::DriverMissing
    );
    assert_eq!(
        ActionKind::Attach.classify(
            "libusbip: error: udev_device_new_from_subsystem_sysname failed\nusbip: error: open vhci_driver (is vhci_hcd loaded?)\n"
        ),
        Verdict::DriverMissing
    );
    assert_eq!(
        ActionKind::Attach.classify("already bound to usbip-host open vhci_driver device is not bound"),
        Verdict::DriverMissing
    );
}

#[test]
fn attach_other_text_is_success() {
    assert_eq!(ActionKind::Attach.classify(""), Verdict::Success);
    assert_eq!(
        ActionKind::Attach.classify("usbip: error: tcp connect"),
        Verdict::Success
    );
    assert_eq!(ActionKind::Attach.classify("open vhci-driver"), Verdict::Success);
}

#[test]
fn detach_is_always_a_report() {
    assert_eq!(ActionKind::Detach.classify(""), Verdict::Report);
    assert_eq!(
        ActionKind::Detach.classify("usbip: info: Port 0 is now detached!\n"),
        Verdict::Report
    );
    assert_eq!(ActionKind::Detach.classify("error: open vhci_driver"), Verdict::Report);
}

#[test]
fn only_bind_and_attach_verdicts_fail() {
    assert!(Verdict::Failure.is_failure());
    assert!(Verdict::DriverMissing.is_failure());
    assert!(!Verdict::Success.is_failure());
    assert!(!Verdict::Report.is_failure());
}

#[test]
fn bind_type_words() {
    assert_eq!(BindType::Bind.command(), "bind");
    assert_eq!(BindType::Unbind.command(), "unbind");
    assert_eq!(BindType::Bind.kind(), ActionKind::Bind);
    assert_eq!(BindType::Unbind.kind(), ActionKind::Unbind);
}

#[test]
fn markers_are_those_of_usbip() {
    assert_eq!(ERROR_MARKER, "error: ");
    assert_eq!(ALREADY_BOUND, "already bound to usbip-host");
    assert_eq!(NOT_BOUND, "device is not bound to usbip-host");
    assert_eq!(DRIVER_MISSING, "open vhci_driver");
}

#[test]
fn empty_batch_finishes_at_once() {
    let batch = Batch::new(ActionKind::Bind, 0);
    assert_eq!(batch.next_step(), Step::Finish);
    assert!(batch.outcome().is_ok());
    let (batch, verdict) = batch.record("error: late");
    assert_eq!(verdict, None);
    assert_eq!(batch.attempted(), 0);
    assert!(batch.failure().is_none());
}

#[test]
fn bind_batch_goes_on_after_a_failure() {
    let mut batch = Batch::new(ActionKind::Bind, 3);
    assert_eq!(batch.next_step(), Step::Invoke(0));
    let (next, verdict) = batch.record("");
    batch = next;
    assert_eq!(verdict, Some(Verdict::Success));
    assert_eq!(batch.next_step(), Step::Invoke(1));
    let (next, verdict) = batch.record("error: first trouble");
    batch = next;
    assert_eq!(verdict, Some(Verdict::Failure));
    assert_eq!(batch.next_step(), Step::Invoke(2));
    let (next, verdict) = batch.record("error: second trouble");
    batch = next;
    assert_eq!(verdict, Some(Verdict::Failure));
    assert_eq!(batch.next_step(), Step::Finish);
    assert_eq!(batch.attempted(), 3);
    let failure = batch.failure().unwrap();
    assert_eq!(failure.index, 1);
    assert_eq!(failure.verdict, Verdict::Failure);
    assert_eq!(failure.diagnostic, "error: first trouble");
    match batch.outcome() {
        Err(EngineError::ActionFailure { diagnostic }) => {
            assert_eq!(diagnostic, "error: first trouble")
        }
        other => panic!("unexpected outcome {:?}", other),
    }
}

#[test]
fn bind_batch_of_benign_messages_ends_well() {
    let (batch, verdicts) = run(
        ActionKind::Bind,
        &["error: already bound to usbip-host", ""],
        2,
    );
    assert_eq!(verdicts, vec![Some(Verdict::Success), Some(Verdict::Success)]);
    assert_eq!(batch.next_step(), Step::Finish);
    assert!(batch.failure().is_none());
    assert!(batch.outcome().is_ok());
}

#[test]
fn attach_batch_ends_when_the_driver_is_missing() {
    let (batch, verdicts) = run(
        ActionKind::Attach,
        &["", "usbip: error: open vhci_driver", "never looked at"],
        4,
    );
    assert_eq!(
        verdicts,
        vec![Some(Verdict::Success), Some(Verdict::DriverMissing), None]
    );
    assert_eq!(batch.next_step(), Step::Finish);
    assert_eq!(batch.attempted(), 2);
    let failure = batch.failure().unwrap();
    assert_eq!(failure.index, 1);
    assert_eq!(failure.verdict, Verdict::DriverMissing);
    assert!(matches!(batch.outcome(), Err(EngineError::DriverMissing)));
}

#[test]
fn detach_batch_reports_every_handle() {
    let (batch, verdicts) = run(ActionKind::Detach, &["error: a", "b"], 2);
    assert_eq!(verdicts, vec![Some(Verdict::Report), Some(Verdict::Report)]);
    assert_eq!(batch.next_step(), Step::Finish);
    assert!(batch.outcome().is_ok());
}

#[test]
fn unfinished_batch_names_the_next_handle() {
    let (batch, _) = run(ActionKind::Unbind, &["", ""], 5);
    assert_eq!(batch.next_step(), Step::Invoke(2));
    assert_eq!(batch.attempted(), 2);
}

#[test]
fn failure_error_carries_the_diagnostic() {
    let (batch, _) = run(ActionKind::Unbind, &["error: nope"], 1);
    let error = failure_error(batch.failure().unwrap());
    assert_eq!(error.message(), "Unknown error message: error: nope");
}

#[test]
fn listing_failure_command_not_found() {
    let error = classify_listing_failure("sh: usbip: command not found", Some(3240));
    assert!(matches!(error, EngineError::ExternalToolMissing));
    assert_eq!(
        error.message(),
        "Cannot find the command `usbip`.\n  Please install the usbip package or add it to your PATH"
    );
}

#[test]
fn listing_failure_unreachable_names_the_port() {
    let error = classify_listing_failure("usbip: error: could not connect", Some(3240));
    match &error {
        EngineError::ExternalToolUnreachable { tcp_port, diagnostic } => {
            assert_eq!(*tcp_port, Some(3240));
            assert_eq!(diagnostic, "usbip: error: could not connect");
        }
        other => panic!("unexpected error {:?}", other),
    }
    assert_eq!(
        error.message(),
        "Is the usbip daemon/server running and is it runnig via port 3240?"
    );
}

#[test]
fn listing_failure_without_a_port_shows_the_diagnostic() {
    let error = classify_listing_failure("usbip: error: open vhci_driver", None);
    assert_eq!(error.message(), "usbip: error: open vhci_driver");
}

#[test]
fn messages_of_the_other_errors() {
    assert_eq!(
        EngineError::NoMatch { ports: false }.message(),
        "Found no matching USB IDs!"
    );
    assert_eq!(
        EngineError::NoMatch { ports: true }.message(),
        "Found no matching ports!"
    );
    assert_eq!(
        EngineError::DriverMissing.message(),
        "Please enable the `vhci-hcd` kernel module."
    );
    assert_eq!(
        EngineError::Configuration(ConfigurationError::WrongGroups).message(),
        "Provided invalid regular expression!\nMust have capture groups that contain `usbid` and `busid`!"
    );
    assert_eq!(
        EngineError::Configuration(ConfigurationError::InvalidPattern).message(),
        "Provided invalid regular expression!"
    );
}

#[test]
fn contains_finds_runs_of_characters() {
    assert!(contains("abc", ""));
    assert!(contains("", ""));
    assert!(!contains("", "a"));
    assert!(contains("abc", "abc"));
    assert!(contains("abc", "bc"));
    assert!(contains("aab", "ab"));
    assert!(!contains("abc", "ac"));
    assert!(!contains("ab", "abc"));
    assert!(contains("größe: 1", "ße"));
    assert!(!contains("grösse", "ß"));
}

#[test]
fn chars_of_keeps_every_character() {
    assert_eq!(chars_of("a-ß"), vec!['a', '-', 'ß']);
    assert_eq!(chars_of(""), Vec::<char>::new());
}

#[test]
fn push_decimal_writes_the_numeral() {
    let mut out = String::from("port ");
    push_decimal(&mut out, 0);
    assert_eq!(out, "port 0");
    let mut out = String::new();
    push_decimal(&mut out, 3240);
    assert_eq!(out, "3240");
    let mut out = String::new();
    push_decimal(&mut out, 10);
    push_decimal(&mut out, 4294967295);
    assert_eq!(out, "104294967295");
}
