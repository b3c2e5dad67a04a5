use vmcli::config::AwsEffectiveConfig;
use vmcli::locator::{
    find_instance_by_cluster_and_name, find_instance_by_name, find_internet_gateway, find_vpc, tag_value,
    Instance, InstanceState, InternetGateway, InternetGatewayAttachment, LocateError, LookupError,
    RouteTable, RouteTableAssociation, Tag, TaggedResource,
};
use vmcli::probe::{eic_probe_reply, run_eic_probe, ProbeStep};
use vmcli::provider::{aws_error_text, AwsCli, CommandOutput};
use vmcli::reconcile::{
    association_after_associate, authorize_sg_ingress, authorize_sg_ingress_args, default_route_after_create,
    default_route_after_replace, ensure_default_route, ensure_internet_gateway, ensure_key_pair,
    ensure_no_duplicate_instance, ensure_route_table_association, ensure_vpc, key_pair_exists,
    resolve_ami_id, resolved_ami_id, AssociationStep, EnsureStep, ImageStep, ReconcileError, RouteStep,
};
use vmcli::health::{ProbeOutcome, SgPort22Status};
use vmcli::teardown::{delete_subnet, plan_prune, PruneKind};

fn tags(name: &str, cluster: &str) -> Option<Vec<Tag>> {
    Some(vec![
        Tag { key: "Name".to_string(), value: name.to_string() },
        Tag { key: "Cluster".to_string(), value: cluster.to_string() },
    ])
}

fn config(cluster: &str) -> AwsEffectiveConfig {
    AwsEffectiveConfig {
        cluster_name: cluster.to_string(),
        region: "ap-northeast-1".to_string(),
        ssh_public_key_path: "~/.ssh/vmcli.pub".to_string(),
        default_instance_type: "t3.micro".to_string(),
        ami_id: None,
        ssh_config_path: "/tmp/ssh_config".to_string(),
    }
}

fn reply(success: bool, stdout: &str, stderr: &str) -> CommandOutput {
    CommandOutput { success, stdout: stdout.to_string(), stderr: stderr.to_string() }
}

fn instance(id: &str, name: &str, cluster: &str, state: &str) -> Instance {
    Instance {
        instance_id: id.to_string(),
        state: InstanceState { name: state.to_string() },
        placement: None,
        vpc_id: None,
        subnet_id: None,
        public_ip: None,
        private_ip: None,
        security_groups: None,
        tags: tags(name, cluster),
    }
}

#[test]
fn find_returns_none_without_tagged_resources() {
    let listing = vec![TaggedResource { id: "vpc-x".to_string(), tags: tags("other-vpc", "other") }];
    assert_eq!(find_vpc(&listing, "dev"), Ok(None));
    assert_eq!(find_vpc(&vec![], "dev"), Ok(None));
}

#[test]
fn find_refuses_two_identically_tagged_resources() {
    let listing = vec![
        TaggedResource { id: "vpc-1".to_string(), tags: tags("dev-vpc", "dev") },
        TaggedResource { id: "vpc-2".to_string(), tags: tags("dev-vpc", "dev") },
    ];
    assert_eq!(find_vpc(&listing, "dev"), Err(LocateError::AmbiguousResource));
}

#[test]
fn find_picks_the_one_tagged_resource() {
    let listing = vec![
        TaggedResource { id: "vpc-0".to_string(), tags: tags("dev-vpc", "prod") },
        TaggedResource { id: "vpc-1".to_string(), tags: tags("dev-vpc", "dev") },
    ];
    assert_eq!(find_vpc(&listing, "dev"), Ok(Some("vpc-1".to_string())));
}

#[test]
fn ensure_twice_returns_the_same_id() {
    let cfg = config("dev");
    let mut listing: Vec<TaggedResource> = Vec::new();
    let first = ensure_vpc(&cfg, &listing).unwrap();
    let create = match first {
        EnsureStep::Create(args) => args,
        EnsureStep::Existing(_) => panic!("expected a create"),
    };
    assert_eq!(create[0], "ec2");
    assert_eq!(create[1], "create-vpc");
    assert_eq!(create[3], "10.0.0.0/16");
    assert_eq!(
        create[5],
        "ResourceType=vpc,Tags=[{Key=Name,Value=dev-vpc},{Key=Cluster,Value=dev}]"
    );
    listing.push(TaggedResource { id: "vpc-new".to_string(), tags: tags("dev-vpc", "dev") });
    match ensure_vpc(&cfg, &listing).unwrap() {
        EnsureStep::Existing(id) => assert_eq!(id, "vpc-new"),
        EnsureStep::Create(_) => panic!("expected the created network"),
    }
    match ensure_vpc(&cfg, &listing).unwrap() {
        EnsureStep::Existing(id) => assert_eq!(id, "vpc-new"),
        EnsureStep::Create(_) => panic!("expected the created network"),
    }
}

#[test]
fn gateway_attaches_only_when_not_attached() {
    let cfg = config("dev");
    let attached = InternetGateway {
        internet_gateway_id: "igw-1".to_string(),
        attachments: Some(vec![InternetGatewayAttachment { vpc_id: Some("vpc-1".to_string()) }]),
        tags: tags("dev-igw", "dev"),
    };
    let plan = ensure_internet_gateway(&cfg, vec![attached], "vpc-1").unwrap();
    assert!(!plan.attach);
    let loose = InternetGateway {
        internet_gateway_id: "igw-1".to_string(),
        attachments: Some(vec![InternetGatewayAttachment { vpc_id: Some("vpc-9".to_string()) }]),
        tags: tags("dev-igw", "dev"),
    };
    let plan = ensure_internet_gateway(&cfg, vec![loose], "vpc-1").unwrap();
    assert!(plan.attach);
    let plan = ensure_internet_gateway(&cfg, vec![], "vpc-1").unwrap();
    assert!(plan.attach);
    assert!(matches!(plan.step, EnsureStep::Create(_)));
    let found = find_internet_gateway(
        vec![InternetGateway { internet_gateway_id: "igw-2".to_string(), attachments: None, tags: tags("dev-igw", "dev") }],
        "dev",
    )
    .unwrap()
    .unwrap();
    assert_eq!(found.internet_gateway_id, "igw-2");
}

#[test]
fn second_create_route_falls_back_to_replace() {
    let create = ensure_default_route("rtb-1", "igw-1");
    assert_eq!(create[1], "create-route");
    assert_eq!(create[5], "0.0.0.0/0");
    let first = default_route_after_create("rtb-1", "igw-1", &reply(true, "", "")).unwrap();
    assert!(matches!(first, RouteStep::Converged));
    let conflict = reply(false, "", "An error occurred (RouteAlreadyExists) when calling the CreateRoute operation");
    match default_route_after_create("rtb-1", "igw-1", &conflict).unwrap() {
        RouteStep::Replace(args) => {
            assert_eq!(
                args,
                vec![
                    "ec2", "replace-route", "--route-table-id", "rtb-1", "--destination-cidr-block",
                    "0.0.0.0/0", "--gateway-id", "igw-1"
                ]
            );
        }
        RouteStep::Converged => panic!("expected a replace"),
    }
    assert_eq!(default_route_after_replace(&reply(true, "", "")), Ok(()));
    let err = default_route_after_create("rtb-1", "igw-1", &reply(false, "", " boom \n")).unwrap_err();
    assert_eq!(err, "failed to create route: boom");
    let err = default_route_after_replace(&reply(false, "", "nope")).unwrap_err();
    assert_eq!(err, "failed to replace route: nope");
}

#[test]
fn association_converges() {
    let other = RouteTable {
        route_table_id: "rtb-main".to_string(),
        associations: Some(vec![RouteTableAssociation {
            subnet_id: Some("subnet-1".to_string()),
            association_id: Some("rtbassoc-9".to_string()),
            main: Some(false),
        }]),
        tags: None,
    };
    match ensure_route_table_association("rtb-1", "subnet-1", &vec![other]) {
        AssociationStep::Replace(args) => {
            assert_eq!(args[1], "replace-route-table-association");
            assert_eq!(args[3], "rtbassoc-9");
            assert_eq!(args[5], "rtb-1");
        }
        _ => panic!("expected a replace"),
    }
    let own = RouteTable { route_table_id: "rtb-1".to_string(), associations: None, tags: None };
    assert!(matches!(ensure_route_table_association("rtb-1", "subnet-1", &vec![own]), AssociationStep::Associated));
    match ensure_route_table_association("rtb-1", "subnet-1", &vec![]) {
        AssociationStep::Associate(args) => assert_eq!(args[1], "associate-route-table"),
        _ => panic!("expected an associate"),
    }
    assert_eq!(association_after_associate(&reply(false, "", "Resource.AlreadyAssociated")), Ok(()));
    assert!(association_after_associate(&reply(false, "", "other")).is_err());
}

#[test]
fn ingress_duplicates_are_success() {
    let args = authorize_sg_ingress_args("sg-1", 9090);
    assert_eq!(args[7], "9090");
    assert_eq!(args[9], "0.0.0.0/0");
    assert_eq!(authorize_sg_ingress(&reply(false, "", "InvalidPermission.Duplicate")), Ok(()));
    assert_eq!(
        authorize_sg_ingress(&reply(false, "", "denied")),
        Err("failed to authorize security group ingress: denied".to_string())
    );
}

#[test]
fn key_pair_probe_and_import() {
    assert_eq!(key_pair_exists(&reply(true, "{}", "")), Ok(true));
    assert_eq!(key_pair_exists(&reply(false, "", "InvalidKeyPair.NotFound")), Ok(false));
    assert!(key_pair_exists(&reply(false, "", "throttled")).is_err());
    let plan = ensure_key_pair(&config("dev"), false, "/home/u/.ssh/vmcli.pub");
    assert_eq!(plan.key_name, "dev-key");
    let import = plan.import.unwrap();
    assert_eq!(import[5], "fileb:///home/u/.ssh/vmcli.pub");
    assert!(ensure_key_pair(&config("dev"), true, "/x").import.is_none());
}

#[test]
fn image_resolution() {
    let mut cfg = config("dev");
    assert!(matches!(resolve_ami_id(&cfg), ImageStep::Lookup(_)));
    cfg.ami_id = Some("ami-123".to_string());
    match resolve_ami_id(&cfg) {
        ImageStep::Pinned(id) => assert_eq!(id, "ami-123"),
        ImageStep::Lookup(_) => panic!("expected the pinned image"),
    }
    assert_eq!(resolved_ami_id("  "), Err(ReconcileError::EmptyImageId));
    assert_eq!(resolved_ami_id("ami-9"), Ok("ami-9".to_string()));
}

#[test]
fn duplicate_instances_block_launch() {
    let instances = vec![instance("i-1", "web-1", "dev", "running")];
    assert_eq!(ensure_no_duplicate_instance("dev", "web-1", &instances), Err(ReconcileError::DuplicateInstance));
    assert_eq!(ensure_no_duplicate_instance("dev", "web-2", &instances), Ok(()));
    let gone = vec![instance("i-1", "web-1", "dev", "terminated")];
    assert_eq!(ensure_no_duplicate_instance("dev", "web-1", &gone), Ok(()));
}

#[test]
fn instance_lookup_by_name() {
    let instances = vec![instance("i-1", "web-1", "dev", "running"), instance("i-2", "web-1", "prod", "stopped")];
    assert_eq!(find_instance_by_name(instances.clone(), "web-1").unwrap_err(), LookupError::AmbiguousResource);
    let found = find_instance_by_cluster_and_name(instances.clone(), "prod", "web-1").unwrap();
    assert_eq!(found.instance_id, "i-2");
    assert_eq!(find_instance_by_name(instances, "web-3").unwrap_err(), LookupError::NoInstance);
    assert_eq!(tag_value(&tags("a", "b"), "Cluster"), Some("b".to_string()));
}

#[test]
fn prune_refuses_live_instances_and_orders_steps() {
    let live = vec![instance("i-1", "web-1", "dev", "running")];
    assert_eq!(plan_prune("vpc-1", &live, &None, &None, &None, &None).unwrap_err(), ReconcileError::InstancesRemain);
    let rt = RouteTable {
        route_table_id: "rtb-1".to_string(),
        associations: Some(vec![
            RouteTableAssociation { subnet_id: None, association_id: Some("main-assoc".to_string()), main: Some(true) },
            RouteTableAssociation {
                subnet_id: Some("subnet-1".to_string()),
                association_id: Some("rtbassoc-1".to_string()),
                main: Some(false),
            },
        ]),
        tags: None,
    };
    let igw = InternetGateway {
        internet_gateway_id: "igw-1".to_string(),
        attachments: Some(vec![InternetGatewayAttachment { vpc_id: Some("vpc-1".to_string()) }]),
        tags: None,
    };
    let steps = plan_prune(
        "vpc-1",
        &vec![],
        &Some(rt),
        &Some("subnet-1".to_string()),
        &Some(igw),
        &Some("sg-1".to_string()),
    )
    .unwrap();
    let kinds: Vec<PruneKind> = steps.iter().map(|s| s.kind).collect();
    assert_eq!(
        kinds,
        vec![
            PruneKind::Disassociate,
            PruneKind::DeleteRouteTable,
            PruneKind::DeleteSubnet,
            PruneKind::DetachGateway,
            PruneKind::DeleteGateway,
            PruneKind::DeleteSecurityGroup,
            PruneKind::DeleteVpc,
        ]
    );
    assert_eq!(steps[0].args[3], "rtbassoc-1");
    assert_eq!(steps[6].args, vec!["ec2", "delete-vpc", "--vpc-id", "vpc-1"]);
}

#[test]
fn teardown_tolerates_what_is_gone() {
    assert_eq!(delete_subnet(&reply(false, "", "InvalidSubnetID.NotFound")), Ok(()));
    assert_eq!(
        delete_subnet(&reply(false, "", "DependencyViolation")),
        Err("failed to delete subnet: DependencyViolation".to_string())
    );
}

#[test]
fn cli_reply_reading() {
    let aws = AwsCli::new("eu-west-1".to_string());
    let args = vec!["ec2".to_string(), "describe-vpcs".to_string()];
    assert_eq!(aws.command_args(&args), vec!["ec2", "describe-vpcs", "--region", "eu-west-1"]);
    assert_eq!(aws.run(&args, &reply(true, "  vpc-1\n", "")), Ok("vpc-1".to_string()));
    assert_eq!(
        aws.run(&args, &reply(false, "out", " bad ")),
        Err("aws ec2 describe-vpcs failed: bad\nout".to_string())
    );
    assert_eq!(aws_error_text(&reply(false, "", "")), "unknown aws cli error");
    assert_eq!(aws_error_text(&reply(false, "o", "e")), "e | o");
}

#[test]
fn probe_skips_and_sends() {
    let mut inst = instance("i-1", "web-1", "dev", "stopped");
    match run_eic_probe(&inst, SgPort22Status::OpenWorld, "ubuntu", "/k.pub", true) {
        ProbeStep::Done(p) => {
            assert_eq!(p.send_ssh_public_key, ProbeOutcome::Skipped);
            assert_eq!(p.send_ssh_public_key_reason.as_deref(), Some("instance-not-running"));
        }
        ProbeStep::Send(..) => panic!("expected a skip"),
    }
    inst.state.name = "running".to_string();
    inst.public_ip = Some("1.2.3.4".to_string());
    inst.placement = Some(vmcli::locator::InstancePlacement { availability_zone: Some("ap-northeast-1a".to_string()) });
    let (result, args) = match run_eic_probe(&inst, SgPort22Status::OpenWorld, "ubuntu", "/k.pub", true) {
        ProbeStep::Send(p, a) => (p, a),
        ProbeStep::Done(_) => panic!("expected a send"),
    };
    assert_eq!(args[7], "ap-northeast-1a");
    assert_eq!(args[9], "file:///k.pub");
    let ok = eic_probe_reply(result.clone(), &reply(true, "{\"Success\": true}", ""), Some(true)).unwrap();
    assert_eq!(ok.send_ssh_public_key, ProbeOutcome::Success);
    let failed = eic_probe_reply(result.clone(), &reply(false, "", "Throttled"), None).unwrap();
    assert_eq!(failed.send_ssh_public_key, ProbeOutcome::Failed);
    assert_eq!(failed.send_ssh_public_key_reason.as_deref(), Some("Throttled"));
    assert!(eic_probe_reply(result, &reply(false, "", "AccessDeniedException"), None).is_err());
}
