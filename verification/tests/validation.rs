use unitgen::artifacts::Artifact;
use unitgen::options::{Service, ValidationError};

fn timer_service() -> Service {
    let mut service = Service::new("foo", "/bin/true");
    service.timer_enabled = true;
    service.on_calendar = Some("daily".to_string());
    service
}

fn names(files: &[Artifact]) -> Vec<&str> {
    files.iter().map(|file| file.file_name.as_str()).collect()
}

#[test]
fn defaults_of_a_new_record() {
    let service = Service::new("foo", "/bin/true");
    assert_eq!(service.name, "foo");
    assert_eq!(service.exec_start, "/bin/true");
    assert_eq!(service.service_type, unitgen::kinds::ServiceType::Simple);
    assert_eq!(service.wanted_by, "multi-user.target");
    assert_eq!(service.output_dir, "/etc/systemd/system/");
    assert!(!service.timer_enabled && !service.persistent && !service.skip_exec_check);
    assert!(service.description.is_none() && service.on_failure.is_none());
    assert!(service.before.is_empty() && service.after.is_empty());
    assert!(service.conflicts.is_empty() && service.requires.is_empty());
    assert!(service.exec_reload.is_none() && service.exec_stop.is_none());
    assert!(service.restart.is_none() && service.restart_sec.is_none());
    assert!(service.user.is_none() && service.group.is_none());
    assert!(service.on_calendar.is_none() && service.accuracy_sec.is_none());
    assert!(service.on_unit_active_sec.is_none() && service.on_unit_inactive_sec.is_none());
}

#[test]
fn existing_executable_passes() {
    let service = Service::new("foo", "/bin/true");
    assert_eq!(service.validate(true), Ok(()));
    assert_eq!(service.check_exec_start(true), Ok(()));
}

#[test]
fn missing_executable_is_refused() {
    let service = Service::new("foo", "/no/such/file");
    assert_eq!(service.validate(false), Err(ValidationError::ExecutableNotFound));
    assert_eq!(service.check_exec_start(false), Err(ValidationError::ExecutableNotFound));
    assert_eq!(service.generate(false).unwrap_err(), ValidationError::ExecutableNotFound);
}

#[test]
fn missing_executable_is_accepted_when_the_check_is_skipped() {
    let mut service = Service::new("foo", "/no/such/file");
    service.skip_exec_check = true;
    assert_eq!(service.validate(false), Ok(()));
    assert_eq!(service.check_exec_start(false), Ok(()));
    let files = service.generate(false).unwrap();
    assert_eq!(names(&files), vec!["foo.service"]);
    assert!(files[0].content.contains("\nExecStart=/no/such/file\n"));
}

#[test]
fn timer_without_calendar_is_refused() {
    let mut service = Service::new("foo", "/bin/true");
    service.timer_enabled = true;
    assert_eq!(service.check_timer(), Err(ValidationError::MissingCalendarSpec));
    assert_eq!(service.validate(true), Err(ValidationError::MissingCalendarSpec));
    assert_eq!(service.generate(true).unwrap_err(), ValidationError::MissingCalendarSpec);
    service.skip_exec_check = true;
    assert_eq!(service.validate(false), Err(ValidationError::MissingCalendarSpec));
}

#[test]
fn other_timer_directives_do_not_replace_the_calendar() {
    let mut service = Service::new("foo", "/bin/true");
    service.timer_enabled = true;
    service.on_unit_active_sec = Some("1h".to_string());
    service.on_unit_inactive_sec = Some("1h".to_string());
    assert_eq!(service.validate(true), Err(ValidationError::MissingCalendarSpec));
}

#[test]
fn executable_is_checked_before_the_timer() {
    let mut service = Service::new("foo", "/no/such/file");
    service.timer_enabled = true;
    assert_eq!(service.validate(false), Err(ValidationError::ExecutableNotFound));
    assert_eq!(service.check_timer(), Err(ValidationError::MissingCalendarSpec));
}

#[test]
fn timer_options_are_not_checked_without_a_timer() {
    let mut service = Service::new("foo", "/bin/true");
    service.persistent = true;
    service.on_unit_active_sec = Some("1h".to_string());
    assert_eq!(service.check_timer(), Ok(()));
    assert_eq!(service.validate(true), Ok(()));
}

#[test]
fn no_timer_file_without_a_timer() {
    let mut service = Service::new("foo", "/bin/true");
    service.on_calendar = Some("daily".to_string());
    service.persistent = true;
    let files = service.artifacts(&service.unresolved_paths());
    assert_eq!(names(&files), vec!["foo.service"]);
    assert_eq!(
        files[0].content,
        "[Unit]\n\n[Service]\nType=simple\nExecStart=/bin/true\n\n[Install]\nWantedBy=multi-user.target\n"
    );
    let mut service = service;
    service.skip_exec_check = true;
    assert_eq!(names(&service.generate(false).unwrap()), vec!["foo.service"]);
}

#[test]
fn timer_file_follows_the_service_file() {
    let service = timer_service();
    let files = service.artifacts(&service.unresolved_paths());
    assert_eq!(names(&files), vec!["foo.service", "foo.timer"]);
    assert_eq!(files[0].content, service.render_service(&service.unresolved_paths()));
    assert_eq!(
        files[1].content,
        "[Unit]\n\n[Timer]\nOnCalendar=daily\nPersistent=false\n\n[Install]\nWantedBy=timers.target\n"
    );
    assert_eq!(files[1].content, service.timer());
}

#[test]
fn generate_checks_then_renders() {
    let mut service = timer_service();
    service.exec_start = "/no/such/dir/anywhere/run".to_string();
    assert!(service.generate(false).is_err());
    let files = service.generate(true).unwrap();
    assert_eq!(names(&files), vec!["foo.service", "foo.timer"]);
    assert_eq!(files[0].content, service.render_service(&service.unresolved_paths()));
    assert_eq!(files[1].content, service.timer());
}

#[test]
fn artifacts_carry_their_kind() {
    let service = timer_service();
    let files = service.artifacts(&service.unresolved_paths());
    assert_eq!(files[0].kind, unitgen::report::UnitKind::Service);
    assert_eq!(files[1].kind, unitgen::report::UnitKind::Timer);
}

#[test]
fn file_names_derive_from_the_name() {
    let service = Service::new("backup-job", "/bin/true");
    assert_eq!(service.service_file_name(), "backup-job.service");
    assert_eq!(service.timer_file_name(), "backup-job.timer");
}

#[test]
fn well_formed_records_have_a_name_and_a_calendar_for_their_timer() {
    assert!(Service::new("foo", "/bin/true").is_well_formed());
    assert!(!Service::new("", "/bin/true").is_well_formed());
    assert!(timer_service().is_well_formed());
    let mut service = timer_service();
    service.on_calendar = None;
    assert!(!service.is_well_formed());
}

#[test]
fn records_compare_by_their_fields() {
    let service = timer_service();
    assert_eq!(service.clone(), service);
    let mut other = service.clone();
    other.persistent = true;
    assert_ne!(other, service);
}
