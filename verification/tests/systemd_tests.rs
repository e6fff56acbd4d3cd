use ctl_dash::systemd::{
    extract_unit_name, normalize_unit_name, unit_can_toggle, unit_is_enabled, unit_is_running,
    ServiceScope, SystemdService,
};

fn sample_service() -> SystemdService {
    SystemdService {
        name: "test.service".to_string(),
        description: "Test Service".to_string(),
        load_state: "loaded".to_string(),
        active_state: "active".to_string(),
        sub_state: "running".to_string(),
        unit_path: "/lib/systemd/system/test.service".to_string(),
        unit_file_state: "enabled".to_string(),
    }
}

#[test]
fn test_systemd_service_creation() {
    let service = SystemdService {
        name: "test.service".to_string(),
        description: "Test Service".to_string(),
        load_state: "loaded".to_string(),
        active_state: "active".to_string(),
        sub_state: "running".to_string(),
        unit_path: "/lib/systemd/system/test.service".to_string(),
        unit_file_state: "enabled".to_string(),
    };

    assert_eq!(service.name, "test.service");
    assert_eq!(service.description, "Test Service");
    assert_eq!(service.load_state, "loaded");
    assert_eq!(service.active_state, "active");
    assert_eq!(service.sub_state, "running");
    assert_eq!(service.unit_path, "/lib/systemd/system/test.service");
    assert_eq!(service.unit_file_state, "enabled");
}

#[test]
fn test_systemd_service_clone() {
    let service = SystemdService {
        name: "test.service".to_string(),
        description: "Test Service".to_string(),
        load_state: "loaded".to_string(),
        active_state: "active".to_string(),
        sub_state: "running".to_string(),
        unit_path: "/lib/systemd/system/test.service".to_string(),
        unit_file_state: "enabled".to_string(),
    };

    let cloned = service.clone();
    assert_eq!(service.name, cloned.name);
    assert_eq!(service.description, cloned.description);
}

#[test]
fn test_service_scope_equality() {
    assert_eq!(ServiceScope::System, ServiceScope::System);
    assert_eq!(ServiceScope::User, ServiceScope::User);
    assert_ne!(ServiceScope::System, ServiceScope::User);
}

#[test]
fn test_service_scope_copy() {
    let scope1 = ServiceScope::System;
    let scope2 = scope1;
    assert_eq!(scope1, scope2);
}

#[test]
fn test_service_name_extraction() {
    let unit_path = "/lib/systemd/system/test.service";
    let name = extract_unit_name(unit_path);

    assert_eq!(name, "test.service");
    assert!(name.ends_with(".service"));
}

#[test]
fn test_service_name_with_suffix() {
    let service_name = "myservice";
    let name = normalize_unit_name(service_name);

    assert_eq!(name, "myservice.service");
}

#[test]
fn test_service_name_already_with_suffix() {
    let service_name = "myservice.service";
    let name = normalize_unit_name(service_name);

    assert_eq!(name, "myservice.service");
}

#[test]
fn test_extract_name_without_separator() {
    assert_eq!(extract_unit_name("bare.service"), "bare.service");
}

#[test]
fn test_extract_name_trailing_separator() {
    assert_eq!(extract_unit_name("/etc/systemd/system/"), "");
}

#[test]
fn test_extract_name_empty() {
    assert_eq!(extract_unit_name(""), "");
}

#[test]
fn test_normalize_empty_name() {
    assert_eq!(normalize_unit_name(""), ".service");
}

#[test]
fn test_unit_state_rules() {
    let mut service = sample_service();
    assert!(unit_is_enabled(&service));
    assert!(unit_can_toggle(&service));
    assert!(unit_is_running(&service));

    service.unit_file_state = "disabled".to_string();
    assert!(!unit_is_enabled(&service));
    assert!(unit_can_toggle(&service));

    service.unit_file_state = "static".to_string();
    assert!(!unit_is_enabled(&service));
    assert!(!unit_can_toggle(&service));

    service.sub_state = "dead".to_string();
    assert!(!unit_is_running(&service));
}
