use vmcli::config::{
    load_aws_config, load_droplet_config, load_gce_config, load_lightsail_config, merge_aws_section,
    normalize_aws_section, normalize_optional, resolve_instance_type, AwsConfigSection, ClusterConfig,
    ConfigError, GlobalConfig,
};
use vmcli::naming::{
    append_filters, default_ec2_config_contents, default_ssh_private_key_path, default_ssh_public_key_path,
    derive_private_key_path, droplet_cluster_tag, ec2_cluster_config_path, expand_home_path,
    gce_cluster_label_value, resource_name, sanitize_cloud_identifier, tag_filters, zone_name_from_path,
};
use vmcli::providers::{
    droplet_public_ipv4, ensure_droplet_ssh_key_fingerprint, gce_public_ip, lightsail_find_instance,
    lightsail_has_cluster_tag, DropletNetwork, DropletSshKey, FingerprintStep, GceAccessConfig,
    GceNetworkInterface, LightsailInstanceInfo,
};
use vmcli::locator::Tag;
use vmcli::status::{ssh_config_contents, InstanceEntry};
use vmcli::text::decimal;

#[test]
fn expand_home_path_supports_tilde() {
    let home = "/home/tester";
    assert_eq!(expand_home_path("~", home), home);
    assert_eq!(expand_home_path("~/.ssh/vmcli.pub", home), "/home/tester/.ssh/vmcli.pub");
    assert_eq!(expand_home_path("/tmp/vmcli.pub", home), "/tmp/vmcli.pub");
}

#[test]
fn default_config_contents_keeps_tilde_public_key_path() {
    let contents = default_ec2_config_contents(
        "dev-cluster",
        "ap-northeast-1",
        "~/.ssh/vmcli.pub",
        "t3.micro",
    );
    assert!(contents.contains("ssh_public_key_path = \"~/.ssh/vmcli.pub\""));
}

#[test]
fn default_ssh_public_key_path_uses_config_dir() {
    let path = default_ssh_public_key_path("/tmp/vmcli-alt-config");
    assert_eq!(path, "/tmp/vmcli-alt-config/vmcli.pub");
}

#[test]
fn ec2_config_file_layout() {
    let contents = default_ec2_config_contents("dev", "eu-west-1", "~/k.pub", "t3.small");
    assert_eq!(
        contents,
        "cluster_name = \"dev\"\n\n[ec2]\nregion = \"eu-west-1\"\nssh_public_key_path = \"~/k.pub\"\ndefault_instance_type = \"t3.small\"\nami_id = \"\"\n"
    );
}

#[test]
fn identity_names() {
    assert_eq!(resource_name("dev", "vpc"), "dev-vpc");
    assert_eq!(
        tag_filters("dev-vpc", "dev"),
        vec!["Name=tag:Name,Values=dev-vpc", "Name=tag:Cluster,Values=dev"]
    );
    let mut args = vec!["ec2".to_string()];
    append_filters(&mut args, &["a".to_string(), "b".to_string()]);
    assert_eq!(args, vec!["ec2", "--filters", "a", "--filters", "b"]);
}

#[test]
fn cloud_identifiers() {
    assert_eq!(sanitize_cloud_identifier("Dev_Cluster"), "dev-cluster");
    assert_eq!(sanitize_cloud_identifier("--a..b--"), "a-b");
    assert_eq!(sanitize_cloud_identifier("9lives"), "c9lives");
    assert_eq!(sanitize_cloud_identifier("__"), "cluster");
    assert_eq!(gce_cluster_label_value("Prod 1"), "prod-1");
    assert_eq!(droplet_cluster_tag("Prod"), "cluster-prod");
}

#[test]
fn paths() {
    assert_eq!(zone_name_from_path("projects/p/zones/us-central1-a"), "us-central1-a");
    assert_eq!(zone_name_from_path("plain"), "plain");
    assert_eq!(derive_private_key_path(" ~/.ssh/id.pub "), "~/.ssh/id");
    assert_eq!(derive_private_key_path("/k"), "/k");
    assert_eq!(default_ssh_private_key_path("/cfg/"), "/cfg/vmcli");
    assert_eq!(ec2_cluster_config_path("/cfg", "dev"), "/cfg/ec2/dev/config.toml");
    assert_eq!(decimal(443), "443");
    assert_eq!(decimal(0), "0");
}

fn aws(region: Option<&str>, key: Option<&str>) -> AwsConfigSection {
    AwsConfigSection {
        region: region.map(|s| s.to_string()),
        ssh_public_key_path: key.map(|s| s.to_string()),
        default_instance_type: None,
        ami_id: None,
    }
}

fn global(ec2: Option<AwsConfigSection>) -> GlobalConfig {
    GlobalConfig { ec2, lightsail: None, gce: None, droplet: None }
}

fn cluster(name: Option<&str>, ec2: Option<AwsConfigSection>) -> ClusterConfig {
    ClusterConfig { cluster_name: name.map(|s| s.to_string()), ec2, lightsail: None, gce: None, droplet: None }
}

#[test]
fn settings_are_trimmed_and_layered() {
    assert_eq!(normalize_optional(Some("  x ".to_string())), Some("x".to_string()));
    assert_eq!(normalize_optional(Some("   ".to_string())), None);
    let mut section = Some(aws(Some(" eu-west-1 "), Some("")));
    normalize_aws_section(&mut section);
    let s = section.unwrap();
    assert_eq!(s.region.as_deref(), Some("eu-west-1"));
    assert_eq!(s.ssh_public_key_path, None);
    let merged = merge_aws_section(Some(aws(Some("us-east-1"), Some("/k"))), Some(aws(Some("eu-west-1"), None)));
    assert_eq!(merged.region.as_deref(), Some("eu-west-1"));
    assert_eq!(merged.ssh_public_key_path.as_deref(), Some("/k"));
}

#[test]
fn effective_ec2_configuration() {
    let c = load_aws_config("/cfg", "dev", &global(Some(aws(Some("us-east-1"), Some("/k")))), &cluster(Some("dev"), None))
        .unwrap();
    assert_eq!(c.region, "us-east-1");
    assert_eq!(c.default_instance_type, "t3.micro");
    assert_eq!(c.ssh_config_path, "/cfg/ec2/dev/ssh_config");
    assert_eq!(resolve_instance_type(&c, None), "t3.micro");
    assert_eq!(resolve_instance_type(&c, Some("m5.large".to_string())), "m5.large");
    assert_eq!(
        load_aws_config("/cfg", "dev", &global(None), &cluster(Some("prod"), None)).unwrap_err(),
        ConfigError::ClusterNameMismatch
    );
    assert_eq!(
        load_aws_config("/cfg", "dev", &global(Some(aws(None, Some("/k")))), &cluster(None, None)).unwrap_err(),
        ConfigError::MissingRegion
    );
    assert_eq!(
        load_aws_config("/cfg", "dev", &global(Some(aws(Some("r"), None))), &cluster(None, None)).unwrap_err(),
        ConfigError::MissingSshPublicKeyPath
    );
}

#[test]
fn effective_other_provider_configurations() {
    let l = load_lightsail_config("/cfg", "dev", &global(None), &cluster(None, None)).unwrap();
    assert_eq!(l.region, "ap-northeast-1");
    assert_eq!(l.availability_zone, "ap-northeast-1a");
    assert_eq!(l.ssh_public_key_path, "/cfg/vmcli.pub");
    let d = load_droplet_config("/cfg", "dev", &global(None), &cluster(None, None)).unwrap();
    assert_eq!(d.region, "sfo3");
    assert_eq!(d.image, "ubuntu-24-04-x64");
    assert_eq!(
        load_gce_config("/cfg", "dev", &global(None), &cluster(None, None), None).unwrap_err(),
        ConfigError::MissingProject
    );
    let g = load_gce_config("/cfg", "dev", &global(None), &cluster(None, None), Some("proj".to_string())).unwrap();
    assert_eq!(g.project, "proj");
    assert_eq!(g.zone, "asia-northeast1-a");
}

#[test]
fn other_provider_lookups() {
    let listing = vec![
        LightsailInstanceInfo { name: "a".to_string(), state: "running".to_string(), public_ip: None },
        LightsailInstanceInfo { name: "b".to_string(), state: "stopped".to_string(), public_ip: None },
    ];
    assert_eq!(lightsail_find_instance(listing.clone(), "b").unwrap().state, "stopped");
    assert!(lightsail_find_instance(listing, "c").is_none());
    let t = vec![Tag { key: "Cluster".to_string(), value: "dev".to_string() }];
    assert!(lightsail_has_cluster_tag(&t, "dev"));
    assert!(!lightsail_has_cluster_tag(&t, "prod"));
    let nets = vec![
        DropletNetwork { net_type: Some("private".to_string()), ip_address: Some("10.0.0.2".to_string()) },
        DropletNetwork { net_type: Some("public".to_string()), ip_address: Some("1.2.3.4".to_string()) },
    ];
    assert_eq!(droplet_public_ipv4(&nets), Some("1.2.3.4".to_string()));
    let ifaces = vec![
        GceNetworkInterface { access_configs: vec![] },
        GceNetworkInterface { access_configs: vec![GceAccessConfig { nat_ip: Some("5.6.7.8".to_string()) }] },
    ];
    assert_eq!(gce_public_ip(&ifaces), Some("5.6.7.8".to_string()));
    let keys = vec![DropletSshKey { name: Some("vmcli-dev-key".to_string()), fingerprint: Some("aa:bb".to_string()) }];
    match ensure_droplet_ssh_key_fingerprint(&None, "Dev", "/k.pub", &keys) {
        FingerprintStep::Known(f) => assert_eq!(f, "aa:bb"),
        FingerprintStep::Import(_) => panic!("expected the registered key"),
    }
    match ensure_droplet_ssh_key_fingerprint(&None, "prod", "/k.pub", &keys) {
        FingerprintStep::Import(a) => assert_eq!(a[3], "vmcli-prod-key"),
        FingerprintStep::Known(_) => panic!("expected an import"),
    }
}

#[test]
fn ssh_config_lists_named_hosts_with_addresses() {
    let entries = vec![
        InstanceEntry {
            name: Some("web-1".to_string()),
            instance_id: "i-1".to_string(),
            state: "running".to_string(),
            public_ip: Some("1.2.3.4".to_string()),
        },
        InstanceEntry { name: None, instance_id: "i-2".to_string(), state: "running".to_string(), public_ip: None },
    ];
    assert_eq!(entries[1].display_name(), "N/A");
    let text = ssh_config_contents(&entries, Some("vpc-1"), None, "/k");
    assert_eq!(
        text,
        "# vpc-id: vpc-1\n# sg-id: N/A\n\nHost web-1\n  HostName 1.2.3.4\n  User ubuntu\n  IdentitiesOnly yes\n  IdentityFile /k\n"
    );
}
