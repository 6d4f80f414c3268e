use unitgen::kinds::{RestartPolicy, ServiceType};

#[test]
fn service_type_tags() {
    assert_eq!(ServiceType::Simple.as_str(), "simple");
    assert_eq!(ServiceType::Forking.as_str(), "forking");
    assert_eq!(ServiceType::Oneshot.as_str(), "oneshot");
    assert_eq!(ServiceType::Dbus.as_str(), "dbus");
    assert_eq!(ServiceType::Notify.as_str(), "notify");
    assert_eq!(ServiceType::Idle.as_str(), "idle");
}

#[test]
fn restart_policy_tags() {
    assert_eq!(RestartPolicy::No.as_str(), "no");
    assert_eq!(RestartPolicy::Always.as_str(), "always");
    assert_eq!(RestartPolicy::OnSuccess.as_str(), "on-success");
    assert_eq!(RestartPolicy::OnFailure.as_str(), "on-failure");
    assert_eq!(RestartPolicy::OnAbnormal.as_str(), "on-abnormal");
    assert_eq!(RestartPolicy::OnAbort.as_str(), "on-abort");
    assert_eq!(RestartPolicy::OnWatchdog.as_str(), "on-watchdog");
}

#[test]
fn owned_tags_equal_borrowed_tags() {
    let types = [
        ServiceType::Simple,
        ServiceType::Forking,
        ServiceType::Oneshot,
        ServiceType::Dbus,
        ServiceType::Notify,
        ServiceType::Idle,
    ];
    for service_type in types {
        assert_eq!(service_type.to_string(), service_type.as_str());
    }
    let policies = [
        RestartPolicy::No,
        RestartPolicy::Always,
        RestartPolicy::OnSuccess,
        RestartPolicy::OnFailure,
        RestartPolicy::OnAbnormal,
        RestartPolicy::OnAbort,
        RestartPolicy::OnWatchdog,
    ];
    for policy in policies {
        assert_eq!(policy.to_string(), policy.as_str());
    }
}

#[test]
fn tags_are_distinct() {
    let tags = [
        ServiceType::Simple.as_str(),
        ServiceType::Forking.as_str(),
        ServiceType::Oneshot.as_str(),
        ServiceType::Dbus.as_str(),
        ServiceType::Notify.as_str(),
        ServiceType::Idle.as_str(),
    ];
    for (i, a) in tags.iter().enumerate() {
        for b in &tags[i + 1..] {
            assert_ne!(a, b);
        }
    }
}
