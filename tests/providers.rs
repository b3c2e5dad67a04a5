use vmcli::config::{DropletEffectiveConfig, GceEffectiveConfig, LightsailEffectiveConfig};
use vmcli::providers::{droplet_create_args, gce_create_args, lightsail_create_args, GceCreateError};
use vmcli::locator::Tag;
use vmcli::providers::{
    droplet_list_cluster_instances, gce_list_cluster_instances, instance_basic_health, launch_blocked,
    lightsail_list_cluster_instances, name_le, poll_step, reached_state, sort_rows, DropletListing, DropletNetwork,
    GceAccessConfig, GceListing, GceNetworkInterface, LightsailListing, ListingRow, PollDecision, POLL_ATTEMPTS,
};
use vmcli::teardown::{is_affirmative, local_keypair_action, LocalKeyAction};
use vmcli::text::{contains, eq_ignore_ascii_case};

fn cluster_tag(cluster: &str) -> Vec<Tag> {
    vec![Tag { key: "Cluster".to_string(), value: cluster.to_string() }]
}

#[test]
fn lightsail_listing_keeps_cluster_members_in_name_order() {
    let items = vec![
        LightsailListing { name: Some("web-2".to_string()), state: None, public_ip: None, tags: cluster_tag("dev") },
        LightsailListing {
            name: Some("db-1".to_string()),
            state: Some("running".to_string()),
            public_ip: Some("1.1.1.1".to_string()),
            tags: cluster_tag("dev"),
        },
        LightsailListing { name: Some("other".to_string()), state: None, public_ip: None, tags: cluster_tag("prod") },
        LightsailListing { name: None, state: None, public_ip: None, tags: cluster_tag("dev") },
    ];
    let listed = lightsail_list_cluster_instances(&items, "dev");
    let names: Vec<&str> = listed.iter().map(|i| i.name.as_str()).collect();
    assert_eq!(names, vec!["db-1", "web-2"]);
    assert_eq!(listed[1].state, "unknown");
}

#[test]
fn gce_listing_defaults_and_order() {
    let items = vec![
        GceListing {
            name: Some("b".to_string()),
            id: None,
            status: None,
            zone: Some("projects/p/zones/us-central1-a".to_string()),
            interfaces: vec![GceNetworkInterface { access_configs: vec![GceAccessConfig { nat_ip: Some("9.9.9.9".to_string()) }] }],
        },
        GceListing { name: Some("a".to_string()), id: Some("42".to_string()), status: Some("RUNNING".to_string()), zone: None, interfaces: vec![] },
    ];
    let listed = gce_list_cluster_instances(&items);
    assert_eq!(listed[0].name, "a");
    assert_eq!(listed[0].instance_id, "42");
    assert_eq!(listed[1].instance_id, "b");
    assert_eq!(listed[1].state, "UNKNOWN");
    assert_eq!(listed[1].zone.as_deref(), Some("us-central1-a"));
    assert_eq!(listed[1].public_ip.as_deref(), Some("9.9.9.9"));
}

#[test]
fn droplet_listing_needs_id_and_name() {
    let items = vec![
        DropletListing { id: Some(7), name: Some("z".to_string()), status: Some("active".to_string()), networks: vec![], region: None },
        DropletListing { id: None, name: Some("y".to_string()), status: None, networks: vec![], region: None },
        DropletListing {
            id: Some(3),
            name: Some("a".to_string()),
            status: None,
            networks: vec![DropletNetwork { net_type: Some("public".to_string()), ip_address: Some("2.2.2.2".to_string()) }],
            region: Some("sfo3".to_string()),
        },
    ];
    let listed = droplet_list_cluster_instances(&items);
    assert_eq!(listed.len(), 2);
    assert_eq!(listed[0].id, 3);
    assert_eq!(listed[0].state, "unknown");
    assert_eq!(listed[1].name, "z");
}

#[test]
fn rows_sort_by_name() {
    let rows = vec![
        ListingRow { name: "us-west-2".to_string(), line: "w".to_string() },
        ListingRow { name: "eu-west-1".to_string(), line: "e".to_string() },
        ListingRow { name: "us-east-1".to_string(), line: "u".to_string() },
    ];
    let sorted: Vec<String> = sort_rows(rows).into_iter().map(|r| r.line).collect();
    assert_eq!(sorted, vec!["e", "u", "w"]);
    assert!(name_le("ab", "abc"));
    assert!(!name_le("b", "abc"));
    assert!(name_le("same", "same"));
}

#[test]
fn basic_health_levels() {
    assert_eq!(instance_basic_health("Running", "running", true), ("ok", "instance-running"));
    assert_eq!(instance_basic_health("RUNNING", "RUNNING", false), ("degraded", "running-without-public-ip"));
    assert_eq!(instance_basic_health("off", "active", true), ("unreachable", "instance-not-running"));
}

#[test]
fn bounded_waits() {
    assert_eq!(poll_step(1, POLL_ATTEMPTS, true), PollDecision::Reached);
    assert_eq!(poll_step(1, POLL_ATTEMPTS, false), PollDecision::Retry);
    assert_eq!(poll_step(POLL_ATTEMPTS, POLL_ATTEMPTS, false), PollDecision::Timeout);
    assert!(reached_state(Some("ACTIVE"), "active"));
    assert!(!reached_state(None, "active"));
}

#[test]
fn launch_guards() {
    assert!(launch_blocked(Some("running"), None));
    assert!(!launch_blocked(None, None));
    assert!(!launch_blocked(Some("terminated"), Some("TERMINATED")));
    assert!(launch_blocked(Some("RUNNING"), Some("TERMINATED")));
}

#[test]
fn confirmations_and_local_keys() {
    assert!(is_affirmative(" Yes\n"));
    assert!(is_affirmative("y"));
    assert!(!is_affirmative("no"));
    assert!(!is_affirmative(""));
    assert_eq!(local_keypair_action(true, true), LocalKeyAction::Keep);
    assert_eq!(local_keypair_action(true, false), LocalKeyAction::DerivePublic);
    assert_eq!(local_keypair_action(false, true), LocalKeyAction::Generate { remove_stale_public: true });
    assert!(contains("abcdef", "cde"));
    assert!(!contains("abc", "abcd"));
    assert!(eq_ignore_ascii_case("ReBoot", "reboot"));
}

#[test]
fn create_commands_of_other_providers() {
    let l = LightsailEffectiveConfig {
        cluster_name: "dev".to_string(),
        region: "ap-northeast-1".to_string(),
        ssh_public_key_path: "/k.pub".to_string(),
        availability_zone: "ap-northeast-1a".to_string(),
        default_bundle_id: "nano_3_0".to_string(),
        blueprint_id: "ubuntu_24_04".to_string(),
        key_pair_name: Some("kp".to_string()),
        ssh_config_path: "/s".to_string(),
    };
    let args = lightsail_create_args(&l, "web-1", None);
    assert_eq!(args[9], "nano_3_0");
    assert_eq!(args[11], "key=Cluster,value=dev");
    assert_eq!(&args[13..], &["--key-pair-name".to_string(), "kp".to_string()]);
    assert_eq!(lightsail_create_args(&l, "web-1", Some("nano_2_0".to_string()))[9], "nano_2_0");
    let g = GceEffectiveConfig {
        cluster_name: "Dev".to_string(),
        project: "p".to_string(),
        zone: "z".to_string(),
        ssh_public_key_path: "/k.pub".to_string(),
        default_machine_type: "e2-micro".to_string(),
        image_family: "f".to_string(),
        image_project: "ip".to_string(),
        ssh_user: "ubuntu".to_string(),
        ssh_config_path: "/s".to_string(),
    };
    let args = gce_create_args(&g, "web-1", None, "ssh-ed25519 AAA\n").unwrap();
    assert_eq!(args[7], "e2-micro");
    assert_eq!(args[13], "cluster=dev,managed_by=vmcli");
    assert_eq!(args[15], "ssh-keys=ubuntu:ssh-ed25519 AAA");
    assert_eq!(gce_create_args(&g, "web-1", None, "  \n").unwrap_err(), GceCreateError::EmptyPublicKey);
    let d = DropletEffectiveConfig {
        cluster_name: "dev".to_string(),
        region: "sfo3".to_string(),
        ssh_public_key_path: "/k.pub".to_string(),
        default_size: "s-1vcpu-1gb".to_string(),
        image: "ubuntu-24-04-x64".to_string(),
        ssh_key_fingerprint: None,
        ssh_config_path: "/s".to_string(),
    };
    let args = droplet_create_args(&d, "web-1", Some("s-2vcpu-2gb".to_string()), "aa:bb");
    assert_eq!(args[7], "s-2vcpu-2gb");
    assert_eq!(args[11], "cluster-dev");
    assert_eq!(args[13], "aa:bb");
}
