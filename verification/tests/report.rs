use unitgen::options::ValidationError;
use unitgen::report::{exit_code, refusal_exit_code, UnitKind, WriteOutcome};

#[test]
fn lines_for_written_files() {
    assert_eq!(
        WriteOutcome::Written.message(UnitKind::Service, "/etc/systemd/system/foo.service"),
        "Wrote service file /etc/systemd/system/foo.service"
    );
    assert_eq!(
        WriteOutcome::Written.message(UnitKind::Timer, "/etc/systemd/system/foo.timer"),
        "Wrote timer file /etc/systemd/system/foo.timer"
    );
}

#[test]
fn lines_for_files_that_could_not_be_created() {
    assert_eq!(
        WriteOutcome::CreateFailed.message(UnitKind::Service, "out/foo.service"),
        "Error creating sevice file out/foo.service"
    );
    assert_eq!(
        WriteOutcome::CreateFailed.message(UnitKind::Timer, "out/foo.timer"),
        "Error creating timer file out/foo.timer"
    );
}

#[test]
fn lines_for_files_that_could_not_be_written() {
    assert_eq!(
        WriteOutcome::WriteFailed.message(UnitKind::Service, "out/foo.service"),
        "Error writing service file out/foo.service"
    );
    assert_eq!(
        WriteOutcome::WriteFailed.message(UnitKind::Timer, "out/foo.timer"),
        "Error writing timer file out/foo.timer"
    );
}

#[test]
fn lines_for_refused_records() {
    assert_eq!(
        ValidationError::ExecutableNotFound.message("/no/such/file"),
        "Executable /no/such/file does not exist"
    );
    assert_eq!(
        ValidationError::MissingCalendarSpec.message("/bin/true"),
        "Timer flag was specified but no OnCalendar"
    );
}

#[test]
fn exit_status_is_zero_when_everything_was_written() {
    assert_eq!(exit_code(&vec![]), 0);
    assert_eq!(exit_code(&vec![WriteOutcome::Written]), 0);
    assert_eq!(exit_code(&vec![WriteOutcome::Written, WriteOutcome::Written]), 0);
}

#[test]
fn exit_status_is_one_when_a_file_failed() {
    assert_eq!(exit_code(&vec![WriteOutcome::CreateFailed]), 1);
    assert_eq!(exit_code(&vec![WriteOutcome::WriteFailed, WriteOutcome::Written]), 1);
    assert_eq!(exit_code(&vec![WriteOutcome::Written, WriteOutcome::CreateFailed]), 1);
    assert_eq!(exit_code(&vec![WriteOutcome::Written, WriteOutcome::WriteFailed]), 1);
}

#[test]
fn exit_status_of_a_refused_record() {
    assert_eq!(refusal_exit_code(), 1);
}

#[test]
fn timer_without_calendar_ends_the_run_with_a_diagnostic() {
    let mut service = unitgen::options::Service::new("foo", "/bin/true");
    service.timer_enabled = true;
    let error = service.generate(true).unwrap_err();
    assert_eq!(error, ValidationError::MissingCalendarSpec);
    assert_eq!(error.message(&service.exec_start), "Timer flag was specified but no OnCalendar");
    assert_ne!(refusal_exit_code(), 0);
}

#[test]
fn missing_executable_ends_the_run_with_a_diagnostic() {
    let service = unitgen::options::Service::new("foo", "/no/such/dir/anywhere/run");
    let error = service.generate(false).unwrap_err();
    assert_eq!(error, ValidationError::ExecutableNotFound);
    assert_eq!(
        error.message(&service.exec_start),
        "Executable /no/such/dir/anywhere/run does not exist"
    );
    assert_ne!(refusal_exit_code(), 0);
}
