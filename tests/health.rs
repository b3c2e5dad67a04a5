use vmcli::health::{
    classify_port, classify_sg_port_22, combine_status_checks, describe_ec2_status_checks,
    eic_send_key_skip_reason, is_access_denied_error, one_line_value, permission_allows_tcp_port,
    permission_has_any_source, permission_has_world_source, summarize_health, tri_bool_to_str,
    EicProbeResult, HealthLevel, InstanceStatusEntry, IpPermission, IpRange, Ipv6Range,
    ProbeOutcome, SecurityGroup, SgPort22Status, UserIdGroupPair,
};

fn sg_with_permissions(permissions: Vec<IpPermission>) -> SecurityGroup {
    SecurityGroup {
        group_id: "sg-test".to_string(),
        ip_permissions: Some(permissions),
    }
}

fn tcp22_permission_with_ipv4(cidr: &str) -> IpPermission {
    IpPermission {
        ip_protocol: Some("tcp".to_string()),
        from_port: Some(22),
        to_port: Some(22),
        ip_ranges: Some(vec![IpRange {
            cidr_ip: Some(cidr.to_string()),
        }]),
        ipv6_ranges: None,
        user_id_group_pairs: None,
        prefix_list_ids: None,
    }
}

fn eic_probe_stub(sg_port22: SgPort22Status, send_result: ProbeOutcome) -> EicProbeResult {
    EicProbeResult {
        os_user: "ubuntu".to_string(),
        public_ip_present: true,
        instance_running: true,
        az_present: true,
        sg_port22,
        send_ssh_public_key: send_result,
        send_ssh_public_key_reason: None,
    }
}

#[test]
fn classify_sg_port_22_open_world() {
    let sg = sg_with_permissions(vec![tcp22_permission_with_ipv4("0.0.0.0/0")]);
    assert_eq!(classify_sg_port_22(&[sg]), SgPort22Status::OpenWorld);
}

#[test]
fn classify_sg_port_22_restricted() {
    let sg = sg_with_permissions(vec![tcp22_permission_with_ipv4("10.0.0.0/8")]);
    assert_eq!(classify_sg_port_22(&[sg]), SgPort22Status::Restricted);
}

#[test]
fn classify_sg_port_22_closed() {
    let sg = sg_with_permissions(vec![IpPermission {
        ip_protocol: Some("tcp".to_string()),
        from_port: Some(80),
        to_port: Some(80),
        ip_ranges: Some(vec![IpRange {
            cidr_ip: Some("0.0.0.0/0".to_string()),
        }]),
        ipv6_ranges: None,
        user_id_group_pairs: None,
        prefix_list_ids: None,
    }]);
    assert_eq!(classify_sg_port_22(&[sg]), SgPort22Status::Closed);
}

#[test]
fn eic_skip_reason_precedence_and_ready_state() {
    assert_eq!(
        eic_send_key_skip_reason(false, true, true, true),
        Some("instance-not-running")
    );
    assert_eq!(
        eic_send_key_skip_reason(true, false, true, true),
        Some("no-public-ip")
    );
    assert_eq!(
        eic_send_key_skip_reason(true, true, false, true),
        Some("availability-zone-missing")
    );
    assert_eq!(
        eic_send_key_skip_reason(true, true, true, false),
        Some("ssh-public-key-not-found")
    );
    assert_eq!(eic_send_key_skip_reason(true, true, true, true), None);
}

#[test]
fn summarize_health_ok_when_control_plane_probe_succeeds() {
    let eic = eic_probe_stub(SgPort22Status::OpenWorld, ProbeOutcome::Success);
    let summary = summarize_health("running", Some(true), &eic);
    assert_eq!(summary.level, HealthLevel::Healthy);
    assert_eq!(summary.ssh_local_problem_likely, Some(true));
}

#[test]
fn summarize_health_degraded_when_ssh_port_closed() {
    let eic = eic_probe_stub(SgPort22Status::Closed, ProbeOutcome::Failed);
    let summary = summarize_health("running", Some(true), &eic);
    assert_eq!(summary.level, HealthLevel::Degraded);
    assert_eq!(summary.notes, "security-group-port-22-closed");
    assert_eq!(summary.ssh_local_problem_likely, Some(false));
}

#[test]
fn summarize_health_unreachable_when_instance_not_running() {
    let eic = eic_probe_stub(SgPort22Status::Restricted, ProbeOutcome::Skipped);
    let summary = summarize_health("stopped", None, &eic);
    assert_eq!(summary.level, HealthLevel::Unreachable);
    assert_eq!(summary.notes, "instance-not-running");
}

#[test]
fn summarize_health_unknown_when_checks_unknown_and_no_probe_success() {
    let eic = eic_probe_stub(SgPort22Status::Restricted, ProbeOutcome::Skipped);
    let summary = summarize_health("running", None, &eic);
    assert_eq!(summary.level, HealthLevel::Unknown);
    assert_eq!(summary.ssh_local_problem_likely, None);
}

#[test]
fn stopped_instance_is_unreachable_whatever_the_posture() {
    for posture in [
        SgPort22Status::OpenWorld,
        SgPort22Status::Restricted,
        SgPort22Status::Closed,
        SgPort22Status::Unknown,
    ] {
        let eic = eic_probe_stub(posture, ProbeOutcome::Skipped);
        let summary = summarize_health("stopped", None, &eic);
        assert_eq!(summary.level, HealthLevel::Unreachable);
        assert_eq!(summary.ssh_local_problem_likely, Some(false));
        assert_eq!(summary.notes, "instance-not-running");
    }
}

#[test]
fn failing_checks_degrade_before_the_probe_counts() {
    let eic = eic_probe_stub(SgPort22Status::OpenWorld, ProbeOutcome::Success);
    let summary = summarize_health("running", Some(false), &eic);
    assert_eq!(summary.level, HealthLevel::Degraded);
    assert_eq!(summary.notes, "ec2-status-checks-not-passing");
}

#[test]
fn unknown_checks_with_probe_success_degrade() {
    let eic = eic_probe_stub(SgPort22Status::Restricted, ProbeOutcome::Success);
    let summary = summarize_health("running", None, &eic);
    assert_eq!(summary.level, HealthLevel::Degraded);
    assert_eq!(summary.ssh_local_problem_likely, None);
    assert_eq!(summary.notes, "ec2-status-checks-unknown");
}

#[test]
fn passing_checks_without_probe_fall_back() {
    let eic = eic_probe_stub(SgPort22Status::OpenWorld, ProbeOutcome::Failed);
    let summary = summarize_health("running", Some(true), &eic);
    assert_eq!(summary.level, HealthLevel::Degraded);
    assert_eq!(summary.ssh_local_problem_likely, Some(false));
    assert_eq!(summary.notes, "instance-running-but-remote-probe-not-confirmed");
}

#[test]
fn no_groups_is_unknown_and_groups_without_rules_are_closed() {
    assert_eq!(classify_sg_port_22(&[]), SgPort22Status::Unknown);
    let empty = sg_with_permissions(vec![]);
    assert_eq!(classify_sg_port_22(&[empty]), SgPort22Status::Closed);
    let none = SecurityGroup {
        group_id: "sg-none".to_string(),
        ip_permissions: None,
    };
    assert_eq!(classify_sg_port_22(&[none]), SgPort22Status::Closed);
}

#[test]
fn rule_order_does_not_change_the_posture() {
    let restricted = sg_with_permissions(vec![tcp22_permission_with_ipv4("10.0.0.0/8")]);
    let world = sg_with_permissions(vec![tcp22_permission_with_ipv4("0.0.0.0/0")]);
    assert_eq!(
        classify_sg_port_22(&[restricted.clone(), world.clone()]),
        SgPort22Status::OpenWorld
    );
    assert_eq!(
        classify_sg_port_22(&[world, restricted]),
        SgPort22Status::OpenWorld
    );
    let mixed_a = sg_with_permissions(vec![
        tcp22_permission_with_ipv4("10.0.0.0/8"),
        tcp22_permission_with_ipv4("0.0.0.0/0"),
    ]);
    let mixed_b = sg_with_permissions(vec![
        tcp22_permission_with_ipv4("0.0.0.0/0"),
        tcp22_permission_with_ipv4("10.0.0.0/8"),
    ]);
    assert_eq!(classify_sg_port_22(&[mixed_a]), SgPort22Status::OpenWorld);
    assert_eq!(classify_sg_port_22(&[mixed_b]), SgPort22Status::OpenWorld);
}

#[test]
fn ipv6_wildcard_and_all_protocols_count_as_open() {
    let p = IpPermission {
        ip_protocol: Some("-1".to_string()),
        from_port: None,
        to_port: None,
        ip_ranges: None,
        ipv6_ranges: Some(vec![Ipv6Range {
            cidr_ipv6: Some("::/0".to_string()),
        }]),
        user_id_group_pairs: None,
        prefix_list_ids: None,
    };
    assert!(permission_allows_tcp_port(&p, 22));
    assert!(permission_has_world_source(&p));
    assert_eq!(
        classify_sg_port_22(&[sg_with_permissions(vec![p])]),
        SgPort22Status::OpenWorld
    );
}

#[test]
fn protocol_case_and_port_ranges() {
    let mut p = tcp22_permission_with_ipv4("10.0.0.0/8");
    p.ip_protocol = Some("TCP".to_string());
    p.from_port = Some(20);
    p.to_port = Some(30);
    assert!(permission_allows_tcp_port(&p, 22));
    assert!(!permission_allows_tcp_port(&p, 31));
    p.ip_protocol = Some("udp".to_string());
    assert!(!permission_allows_tcp_port(&p, 22));
    let sg = sg_with_permissions(vec![tcp22_permission_with_ipv4("0.0.0.0/0")]);
    assert_eq!(classify_port(&[sg.clone()], 22), SgPort22Status::OpenWorld);
    assert_eq!(classify_port(&[sg], 443), SgPort22Status::Closed);
}

#[test]
fn group_sources_restrict() {
    let p = IpPermission {
        ip_protocol: Some("tcp".to_string()),
        from_port: Some(22),
        to_port: Some(22),
        ip_ranges: None,
        ipv6_ranges: None,
        user_id_group_pairs: Some(vec![UserIdGroupPair {
            group_id: Some("sg-peer".to_string()),
        }]),
        prefix_list_ids: None,
    };
    assert!(permission_has_any_source(&p));
    assert!(!permission_has_world_source(&p));
    assert_eq!(
        classify_sg_port_22(&[sg_with_permissions(vec![p])]),
        SgPort22Status::Restricted
    );
}

#[test]
fn access_denied_is_recognised_in_any_case() {
    assert!(is_access_denied_error("An error occurred (AccessDenied) when calling"));
    assert!(is_access_denied_error("UnauthorizedOperation: You are NOT AUTHORIZED"));
    assert!(is_access_denied_error("Access Denied"));
    assert!(!is_access_denied_error("ThrottlingException: Rate exceeded"));
}

#[test]
fn status_checks_combine() {
    assert_eq!(combine_status_checks("ok", "ok"), Some(true));
    assert_eq!(combine_status_checks("ok", "unknown"), None);
    assert_eq!(combine_status_checks("impaired", "ok"), Some(false));
    assert_eq!(combine_status_checks("unknown", "impaired"), None);
}

#[test]
fn status_checks_from_listing() {
    let entries = vec![
        InstanceStatusEntry {
            instance_id: "i-other".to_string(),
            system_status: Some("impaired".to_string()),
            instance_status: Some("impaired".to_string()),
        },
        InstanceStatusEntry {
            instance_id: "i-1".to_string(),
            system_status: Some(" ok ".to_string()),
            instance_status: Some("  ".to_string()),
        },
    ];
    let c = describe_ec2_status_checks(&entries, "i-1", "running");
    assert_eq!(c.system_status, "ok");
    assert_eq!(c.instance_status, "unknown");
    assert_eq!(c.checks_pass, None);
    let stopped = describe_ec2_status_checks(&entries, "i-2", "stopped");
    assert_eq!(stopped.system_status, "not-applicable");
    assert_eq!(stopped.checks_pass, None);
    let pending = describe_ec2_status_checks(&entries, "i-2", "pending");
    assert_eq!(pending.instance_status, "unknown");
}

#[test]
fn reporting_names() {
    assert_eq!(tri_bool_to_str(Some(true)), "true");
    assert_eq!(tri_bool_to_str(None), "unknown");
    assert_eq!(ProbeOutcome::Skipped.as_str(), "skipped");
    assert_eq!(SgPort22Status::OpenWorld.as_str(), "open-world");
    assert_eq!(HealthLevel::Healthy.as_str(), "ok");
    assert_eq!(one_line_value("a\nb"), "a\\nb");
}
