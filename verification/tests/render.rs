use unitgen::kinds::{RestartPolicy, ServiceType};
use unitgen::options::Service;
use unitgen::resolve::ResolvedPaths;

fn paths(exec_start: &str) -> ResolvedPaths {
    ResolvedPaths { exec_start: exec_start.to_string(), exec_reload: None, exec_stop: None }
}

fn lines_with_prefix<'a>(text: &'a str, prefix: &str) -> Vec<&'a str> {
    text.lines().filter(|line| line.starts_with(prefix)).collect()
}

#[test]
fn minimal_service() {
    let service = Service::new("foo", "/bin/true");
    let text = service.render_service(&service.unresolved_paths());
    assert_eq!(
        text,
        "[Unit]\n\n[Service]\nType=simple\nExecStart=/bin/true\n\n[Install]\nWantedBy=multi-user.target\n"
    );
}

#[test]
fn service_sections_come_in_fixed_order() {
    let mut service = Service::new("foo", "/bin/true");
    service.description = Some("A service".to_string());
    service.user = Some("svc".to_string());
    let text = service.render_service(&paths("/bin/true"));
    assert!(text.starts_with("[Unit]\n"));
    let headers: Vec<&str> =
        text.lines().filter(|line| line.starts_with('[') && line.ends_with(']')).collect();
    assert_eq!(headers, vec!["[Unit]", "[Service]", "[Install]"]);
}

#[test]
fn after_entries_keep_their_order() {
    let mut service = Service::new("foo", "/bin/true");
    service.after = vec!["a.service".to_string(), "b.service".to_string()];
    let text = service.render_service(&paths("/bin/true"));
    assert_eq!(lines_with_prefix(&text, "After="), vec!["After=a.service", "After=b.service"]);
    let first = text.find("After=a.service\n").unwrap();
    let second = text.find("After=b.service\n").unwrap();
    assert!(first < second);
}

#[test]
fn list_fields_give_one_line_per_entry() {
    let mut service = Service::new("foo", "/bin/true");
    service.before = vec!["x.target".to_string(), "y.target".to_string()];
    service.after = vec!["a.service".to_string()];
    service.conflicts = vec!["c1.service".to_string(), "c2.service".to_string()];
    service.requires = vec!["r.service".to_string()];
    let text = service.render_service(&paths("/bin/true"));
    assert_eq!(
        text,
        "[Unit]\nBefore=x.target\nBefore=y.target\nAfter=a.service\nConflicts=c1.service\n\
         Conflicts=c2.service\nRequires=r.service\n\n[Service]\nType=simple\n\
         ExecStart=/bin/true\n\n[Install]\nWantedBy=multi-user.target\n"
    );
}

#[test]
fn optional_fields_each_give_one_line() {
    let mut service = Service::new("foo", "/bin/true");
    service.description = Some("My daemon".to_string());
    service.restart = Some(RestartPolicy::OnFailure);
    service.restart_sec = Some(5);
    service.user = Some("svc".to_string());
    let text = service.render_service(&paths("/bin/true"));
    assert_eq!(
        text,
        "[Unit]\nDescription=My daemon\n\n[Service]\nType=simple\nExecStart=/bin/true\n\
         Restart=on-failure\nRestartSec=5\nUser=svc\n\n[Install]\nWantedBy=multi-user.target\n"
    );
    assert_eq!(lines_with_prefix(&text, "Description=").len(), 1);
    assert_eq!(lines_with_prefix(&text, "Restart=").len(), 1);
    assert_eq!(lines_with_prefix(&text, "RestartSec=").len(), 1);
    assert_eq!(lines_with_prefix(&text, "User=").len(), 1);
    let service_section = text.find("[Service]\n").unwrap();
    let restart = text.find("Restart=on-failure\n").unwrap();
    let restart_sec = text.find("RestartSec=5\n").unwrap();
    let user = text.find("User=svc\n").unwrap();
    let install = text.find("[Install]\n").unwrap();
    assert!(service_section < restart && restart < restart_sec);
    assert!(restart_sec < user && user < install);
}

#[test]
fn every_option_of_the_service_unit() {
    let mut service = Service::new("web", "/usr/bin/web");
    service.description = Some("Web server".to_string());
    service.before = vec!["b.target".to_string()];
    service.after = vec!["network.target".to_string()];
    service.conflicts = vec!["other.service".to_string()];
    service.requires = vec!["db.service".to_string()];
    service.on_failure = Some("alert.service".to_string());
    service.service_type = ServiceType::Notify;
    service.restart = Some(RestartPolicy::Always);
    service.restart_sec = Some(120);
    service.user = Some("www".to_string());
    service.group = Some("www-data".to_string());
    service.wanted_by = "graphical.target".to_string();
    let resolved = ResolvedPaths {
        exec_start: "/usr/bin/web".to_string(),
        exec_reload: Some("/usr/bin/web-reload".to_string()),
        exec_stop: Some("/usr/bin/web-stop".to_string()),
    };
    let text = service.render_service(&resolved);
    assert_eq!(
        text,
        "[Unit]\nDescription=Web server\nBefore=b.target\nAfter=network.target\n\
         Conflicts=other.service\nRequires=db.service\nOnFailure=alert.service\n\n\
         [Service]\nType=notify\nExecStart=/usr/bin/web\nExecReload=/usr/bin/web-reload\n\
         ExecStop=/usr/bin/web-stop\nRestart=always\nRestartSec=120\nUser=www\n\
         Group=www-data\n\n[Install]\nWantedBy=graphical.target\n"
    );
}

#[test]
fn on_failure_comes_from_its_own_option() {
    let mut service = Service::new("foo", "/bin/true");
    service.description = Some("described".to_string());
    let text = service.render_service(&paths("/bin/true"));
    assert!(lines_with_prefix(&text, "OnFailure=").is_empty());

    let mut service = Service::new("foo", "/bin/true");
    service.on_failure = Some("rescue.service".to_string());
    let text = service.render_service(&paths("/bin/true"));
    assert_eq!(lines_with_prefix(&text, "OnFailure="), vec!["OnFailure=rescue.service"]);
    assert!(lines_with_prefix(&text, "Description=").is_empty());
}

#[test]
fn command_paths_are_shown_as_resolved() {
    let mut service = Service::new("foo", "bin/run");
    service.exec_reload = Some("bin/reload".to_string());
    let resolved = ResolvedPaths {
        exec_start: "/opt/app/bin/run".to_string(),
        exec_reload: Some("/opt/app/bin/reload".to_string()),
        exec_stop: None,
    };
    let text = service.render_service(&resolved);
    assert_eq!(lines_with_prefix(&text, "ExecStart="), vec!["ExecStart=/opt/app/bin/run"]);
    assert_eq!(lines_with_prefix(&text, "ExecReload="), vec!["ExecReload=/opt/app/bin/reload"]);
    assert!(lines_with_prefix(&text, "ExecStop=").is_empty());
}

#[test]
fn values_are_written_verbatim() {
    let mut service = Service::new("foo", "/bin/true");
    service.description = Some("a \"quoted\" = value; with \\ and % and  spaces ".to_string());
    service.user = Some("üser".to_string());
    let text = service.render_service(&paths("/bin/my prog"));
    assert!(text.contains("Description=a \"quoted\" = value; with \\ and % and  spaces \n"));
    assert!(text.contains("User=üser\n"));
    assert!(text.contains("ExecStart=/bin/my prog\n"));
}

#[test]
fn empty_values_still_give_a_line() {
    let mut service = Service::new("foo", "/bin/true");
    service.description = Some(String::new());
    service.after = vec![String::new()];
    service.wanted_by = String::new();
    let text = service.render_service(&paths("/bin/true"));
    assert_eq!(
        text,
        "[Unit]\nDescription=\nAfter=\n\n[Service]\nType=simple\nExecStart=/bin/true\n\n\
         [Install]\nWantedBy=\n"
    );
}

#[test]
fn restart_sec_is_written_in_decimal() {
    let mut service = Service::new("foo", "/bin/true");
    service.restart_sec = Some(0);
    assert!(service.render_service(&paths("/bin/true")).contains("\nRestartSec=0\n"));
    service.restart_sec = Some(3600);
    assert!(service.render_service(&paths("/bin/true")).contains("\nRestartSec=3600\n"));
}

#[test]
fn rendering_twice_gives_the_same_text() {
    let mut service = Service::new("foo", "/bin/true");
    service.description = Some("twice".to_string());
    service.after = vec!["a.service".to_string(), "b.service".to_string()];
    service.timer_enabled = true;
    service.on_calendar = Some("daily".to_string());
    let resolved = paths("/bin/true");
    assert_eq!(service.render_service(&resolved), service.render_service(&resolved));
    assert_eq!(service.timer(), service.timer());
}

#[test]
fn service_falls_back_to_the_paths_as_given() {
    let mut service = Service::new("foo", "/no/such/dir/anywhere/start");
    service.exec_reload = Some("/no/such/dir/anywhere/reload".to_string());
    service.exec_stop = Some("no-such-relative-file-anywhere".to_string());
    let text = service.service();
    assert_eq!(
        text,
        "[Unit]\n\n[Service]\nType=simple\nExecStart=/no/such/dir/anywhere/start\n\
         ExecReload=/no/such/dir/anywhere/reload\nExecStop=no-such-relative-file-anywhere\n\n\
         [Install]\nWantedBy=multi-user.target\n"
    );
    assert_eq!(text, service.render_service(&service.unresolved_paths()));
}

#[test]
fn service_resolves_existing_paths() {
    let service = Service::new("foo", "/./");
    let text = service.service();
    assert_eq!(lines_with_prefix(&text, "ExecStart="), vec!["ExecStart=/"]);
}

#[test]
fn minimal_timer() {
    let service = Service::new("foo", "/bin/true");
    assert_eq!(
        service.timer(),
        "[Unit]\n\n[Timer]\nPersistent=false\n\n[Install]\nWantedBy=timers.target\n"
    );
}

#[test]
fn every_option_of_the_timer_unit() {
    let mut service = Service::new("foo", "/bin/true");
    service.timer_enabled = true;
    service.persistent = true;
    service.on_calendar = Some("*-*-* 04:00:00".to_string());
    service.on_unit_active_sec = Some("1h".to_string());
    service.on_unit_inactive_sec = Some("30min".to_string());
    service.accuracy_sec = Some("1s".to_string());
    service.wanted_by = "graphical.target".to_string();
    assert_eq!(
        service.timer(),
        "[Unit]\n\n[Timer]\nOnCalendar=*-*-* 04:00:00\nOnUnitActiveSec=1h\n\
         OnUnitInactiveSec=30min\nPersistent=true\n\n[Install]\nWantedBy=timers.target\n"
    );
}

#[test]
fn accuracy_sec_shows_in_no_unit() {
    let mut service = Service::new("foo", "/bin/true");
    service.timer_enabled = true;
    service.on_calendar = Some("daily".to_string());
    let without = (service.render_service(&paths("/bin/true")), service.timer());
    service.accuracy_sec = Some("5s".to_string());
    let with = (service.render_service(&paths("/bin/true")), service.timer());
    assert_eq!(without, with);
}

#[test]
fn values_with_line_feeds_are_written_as_they_are() {
    let mut service = Service::new("foo", "/bin/true");
    service.description = Some("first\n[Extra]".to_string());
    let text = service.render_service(&paths("/bin/true"));
    assert!(text.starts_with("[Unit]\nDescription=first\n[Extra]\n\n[Service]\n"));
    let headers: Vec<&str> =
        text.lines().filter(|line| line.starts_with('[') && line.ends_with(']')).collect();
    assert_eq!(headers, vec!["[Unit]", "[Extra]", "[Service]", "[Install]"]);
}

#[test]
fn timer_sections_come_in_fixed_order() {
    let mut service = Service::new("foo", "/bin/true");
    service.timer_enabled = true;
    service.on_calendar = Some("weekly".to_string());
    let text = service.timer();
    assert!(text.starts_with("[Unit]\n"));
    let headers: Vec<&str> =
        text.lines().filter(|line| line.starts_with('[') && line.ends_with(']')).collect();
    assert_eq!(headers, vec!["[Unit]", "[Timer]", "[Install]"]);
}

#[test]
fn text_reads_back_as_its_lines() {
    let mut service = Service::new("foo", "/bin/true");
    service.description = Some("reads back".to_string());
    service.requires = vec!["a.service".to_string(), "b.service".to_string()];
    service.group = Some("staff".to_string());
    let text = service.render_service(&paths("/bin/true"));
    let lines: Vec<&str> = text.split_terminator('\n').collect();
    assert_eq!(
        lines,
        vec![
            "[Unit]",
            "Description=reads back",
            "Requires=a.service",
            "Requires=b.service",
            "",
            "[Service]",
            "Type=simple",
            "ExecStart=/bin/true",
            "Group=staff",
            "",
            "[Install]",
            "WantedBy=multi-user.target",
        ]
    );
}

#[test]
fn every_service_type_is_written_by_its_tag() {
    let types = [
        (ServiceType::Simple, "Type=simple"),
        (ServiceType::Forking, "Type=forking"),
        (ServiceType::Oneshot, "Type=oneshot"),
        (ServiceType::Dbus, "Type=dbus"),
        (ServiceType::Notify, "Type=notify"),
        (ServiceType::Idle, "Type=idle"),
    ];
    for (service_type, line) in types {
        let mut service = Service::new("foo", "/bin/true");
        service.service_type = service_type;
        let text = service.render_service(&paths("/bin/true"));
        assert_eq!(lines_with_prefix(&text, "Type="), vec![line]);
    }
}

#[test]
fn every_restart_policy_is_written_by_its_tag() {
    let policies = [
        (RestartPolicy::No, "Restart=no"),
        (RestartPolicy::Always, "Restart=always"),
        (RestartPolicy::OnSuccess, "Restart=on-success"),
        (RestartPolicy::OnFailure, "Restart=on-failure"),
        (RestartPolicy::OnAbnormal, "Restart=on-abnormal"),
        (RestartPolicy::OnAbort, "Restart=on-abort"),
        (RestartPolicy::OnWatchdog, "Restart=on-watchdog"),
    ];
    for (policy, line) in policies {
        let mut service = Service::new("foo", "/bin/true");
        service.restart = Some(policy);
        let text = service.render_service(&paths("/bin/true"));
        assert_eq!(lines_with_prefix(&text, "Restart="), vec![line]);
    }
}
