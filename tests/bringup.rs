use vmcli::bringup::{bring_up_step, start, BringUp, BringUpAction, BringUpEvent, Phase};
use vmcli::config::AwsEffectiveConfig;
use vmcli::locator::{Tag, TaggedResource};
use vmcli::provider::CommandOutput;

fn config() -> AwsEffectiveConfig {
    AwsEffectiveConfig {
        cluster_name: "dev".to_string(),
        region: "us-east-1".to_string(),
        ssh_public_key_path: "/k.pub".to_string(),
        default_instance_type: "t3.micro".to_string(),
        ami_id: None,
        ssh_config_path: "/tmp/ssh_config".to_string(),
    }
}

fn reply(success: bool, stderr: &str) -> CommandOutput {
    CommandOutput { success, stdout: String::new(), stderr: stderr.to_string() }
}

fn step(state: BringUp, event: BringUpEvent) -> (BringUp, BringUpAction) {
    bring_up_step(&config(), state, event)
}

fn command(action: &BringUpAction) -> Vec<String> {
    match action {
        BringUpAction::Run(a) | BringUpAction::Try(a) | BringUpAction::ListSubnetTables(a) => a.clone(),
        other => panic!("expected a command, got {:?}", other),
    }
}

#[test]
fn fresh_cluster_is_built_in_order() {
    let (s, a) = start();
    assert!(matches!(a, BringUpAction::ListVpcs));
    let (s, a) = step(s, BringUpEvent::Vpcs(vec![]));
    assert_eq!(command(&a)[1], "create-vpc");
    let (s, a) = step(s, BringUpEvent::Ran("vpc-1".to_string()));
    assert!(matches!(a, BringUpAction::ListSubnets));
    let (s, a) = step(s, BringUpEvent::Subnets(vec![]));
    assert_eq!(command(&a)[3], "vpc-1");
    let (s, a) = step(s, BringUpEvent::Ran("subnet-1".to_string()));
    assert_eq!(command(&a)[1], "modify-subnet-attribute");
    let (s, a) = step(s, BringUpEvent::Ran(String::new()));
    assert!(matches!(a, BringUpAction::ListGateways));
    let (s, a) = step(s, BringUpEvent::Gateways(vec![]));
    assert_eq!(command(&a)[1], "create-internet-gateway");
    let (s, a) = step(s, BringUpEvent::Ran("igw-1".to_string()));
    assert_eq!(command(&a), vec!["ec2", "attach-internet-gateway", "--internet-gateway-id", "igw-1", "--vpc-id", "vpc-1"]);
    let (s, a) = step(s, BringUpEvent::Ran(String::new()));
    assert!(matches!(a, BringUpAction::ListRouteTables));
    let (s, a) = step(s, BringUpEvent::RouteTables(vec![]));
    assert_eq!(command(&a)[1], "create-route-table");
    let (s, a) = step(s, BringUpEvent::Ran("rtb-1".to_string()));
    assert_eq!(command(&a)[1], "create-route");
    let (s, a) = step(s, BringUpEvent::Replied(reply(false, "RouteAlreadyExists")));
    assert_eq!(command(&a)[1], "replace-route");
    let (s, a) = step(s, BringUpEvent::Replied(reply(true, "")));
    assert_eq!(command(&a)[1], "describe-route-tables");
    let (s, a) = step(s, BringUpEvent::SubnetTables(vec![]));
    assert_eq!(command(&a)[1], "associate-route-table");
    let (s, a) = step(s, BringUpEvent::Replied(reply(false, "Resource.AlreadyAssociated")));
    assert!(matches!(a, BringUpAction::ListSecurityGroups));
    let (mut s, mut a) = step(s, BringUpEvent::SecurityGroups(vec![]));
    assert_eq!(command(&a)[1], "create-security-group");
    let r = step(s, BringUpEvent::Ran("sg-1".to_string()));
    s = r.0;
    a = r.1;
    let mut ports = Vec::new();
    while let BringUpAction::Try(args) = &a {
        ports.push(args[7].clone());
        let r = step(s, BringUpEvent::Replied(reply(false, "InvalidPermission.Duplicate")));
        s = r.0;
        a = r.1;
    }
    assert_eq!(ports, vec!["22", "80", "443", "9090", "9091", "9092"]);
    assert!(matches!(a, BringUpAction::Converged));
    assert_eq!(s.phase, Phase::Converged);
    assert_eq!(s.subnet_id, "subnet-1");
    assert_eq!(s.sg_id, "sg-1");
}

#[test]
fn existing_network_is_adopted_and_ambiguity_stops() {
    let tags = Some(vec![
        Tag { key: "Name".to_string(), value: "dev-vpc".to_string() },
        Tag { key: "Cluster".to_string(), value: "dev".to_string() },
    ]);
    let (s, _) = start();
    let (s, a) = step(s, BringUpEvent::Vpcs(vec![TaggedResource { id: "vpc-9".to_string(), tags: tags.clone() }]));
    assert!(matches!(a, BringUpAction::ListSubnets));
    assert_eq!(s.vpc_id, "vpc-9");
    let (s, _) = start();
    let twice = vec![
        TaggedResource { id: "vpc-1".to_string(), tags: tags.clone() },
        TaggedResource { id: "vpc-2".to_string(), tags },
    ];
    let (s, a) = step(s, BringUpEvent::Vpcs(twice));
    assert!(matches!(a, BringUpAction::Fail(_)));
    assert_eq!(s.phase, Phase::Failed);
}
