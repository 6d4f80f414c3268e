use unitgen::options::Service;
use unitgen::resolve::{canonicalize, resolved_or_given};

#[test]
fn unresolvable_path_is_returned_unchanged() {
    assert_eq!(canonicalize("/no/such/dir/anywhere/file"), "/no/such/dir/anywhere/file");
    assert_eq!(canonicalize("no-such-relative-file-anywhere"), "no-such-relative-file-anywhere");
    assert_eq!(canonicalize(""), "");
}

#[test]
fn existing_path_is_made_canonical() {
    assert_eq!(canonicalize("/"), "/");
    assert_eq!(canonicalize("/./"), "/");
    assert_eq!(canonicalize("/.."), "/");
}

#[test]
fn relative_path_is_made_absolute() {
    let resolved = canonicalize(".");
    assert!(resolved.starts_with('/'));
    assert_ne!(resolved, ".");
}

#[test]
fn resolved_form_wins_over_the_given_path() {
    assert_eq!(resolved_or_given("bin/run", Some("/opt/bin/run".to_string())), "/opt/bin/run");
    assert_eq!(resolved_or_given("bin/run", None), "bin/run");
    assert_eq!(resolved_or_given("", Some(String::new())), "");
}

#[test]
fn resolve_paths_keeps_absent_commands_absent() {
    let mut service = Service::new("foo", "/no/such/dir/anywhere/start");
    service.exec_stop = Some("/no/such/dir/anywhere/stop".to_string());
    let paths = service.resolve_paths();
    assert_eq!(paths.exec_start, "/no/such/dir/anywhere/start");
    assert_eq!(paths.exec_reload, None);
    assert_eq!(paths.exec_stop, Some("/no/such/dir/anywhere/stop".to_string()));
}

#[test]
fn unresolved_paths_copy_the_record() {
    let mut service = Service::new("foo", "bin/start");
    service.exec_reload = Some("bin/reload".to_string());
    let paths = service.unresolved_paths();
    assert_eq!(paths.exec_start, "bin/start");
    assert_eq!(paths.exec_reload, Some("bin/reload".to_string()));
    assert_eq!(paths.exec_stop, None);
}

#[test]
fn shown_path_is_the_given_one_or_not_empty() {
    for path in ["", ".", "/", "/./", "/no/such/dir/anywhere/file", "relative/none"] {
        let shown = canonicalize(path);
        assert!(shown == path || !shown.is_empty());
    }
}

#[test]
fn resolved_paths_are_the_given_ones_or_not_empty() {
    let mut service = Service::new("foo", ".");
    service.exec_reload = Some("/".to_string());
    service.exec_stop = Some("/no/such/dir/anywhere/stop".to_string());
    let paths = service.resolve_paths();
    assert!(!paths.exec_start.is_empty());
    assert_eq!(paths.exec_reload, Some("/".to_string()));
    assert_eq!(paths.exec_stop, Some("/no/such/dir/anywhere/stop".to_string()));
    let text = service.service();
    assert!(!text.contains("ExecStart=\n"));
}
