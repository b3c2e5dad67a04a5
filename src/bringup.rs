//! The network bring-up of a cluster as a sequence of decisions: each step
//! takes what the provider answered and says what to ask or issue next, in
//! the fixed order network, subnet, gateway, route table, default route,
//! subnet association, firewall group and its ingress rules.
use vstd::prelude::*;
use crate::config::AwsEffectiveConfig;
use crate::locator::{located, located_id, InternetGateway, RouteTable, TaggedResource};
use crate::naming::{resource_name_of, texts};
use crate::provider::CommandOutput;
use crate::reconcile::{
    after_associate, after_authorize, after_create_route, after_replace_route, association_after_associate,
    association_lookup_args, association_lookup_command, attach_igw_command, attach_internet_gateway_args,
    authorize_command, authorize_sg_ingress, authorize_sg_ingress_args, default_route_after_create,
    default_route_after_replace, enable_public_ip_args, ensure_default_route, ensure_internet_gateway,
    ensure_route_table, ensure_route_table_association, ensure_security_group, ensure_subnet, ensure_vpc,
    ingress_ports, public_ip_command, route_command, AssociationStep, EnsureStep, RouteStep, associate_command,
    association_state, attached_to, create_igw_command, create_route_table_command, create_sg_command,
    replace_association_command,
};

verus! {

/// Where the bring-up stands.
#[derive(Debug, Clone, Copy, PartialEq, Eq, Structural)]
pub enum Phase {
    ListingVpcs,
    CreatingVpc,
    ListingSubnets,
    CreatingSubnet,
    EnablingPublicIp,
    ListingGateways,
    CreatingGateway,
    Attaching,
    ListingRouteTables,
    CreatingRouteTable,
    CreatingRoute,
    ReplacingRoute,
    ListingAssociations,
    ReplacingAssociation,
    Associating,
    ListingSecurityGroups,
    CreatingSecurityGroup,
    Authorizing,
    Converged,
    Failed,
}

/// The position of a phase in the fixed order.
pub open spec fn rank(p: Phase) -> int {
    match p {
        Phase::ListingVpcs => 0,
        Phase::CreatingVpc => 1,
        Phase::ListingSubnets => 2,
        Phase::CreatingSubnet => 3,
        Phase::EnablingPublicIp => 4,
        Phase::ListingGateways => 5,
        Phase::CreatingGateway => 6,
        Phase::Attaching => 7,
        Phase::ListingRouteTables => 8,
        Phase::CreatingRouteTable => 9,
        Phase::CreatingRoute => 10,
        Phase::ReplacingRoute => 11,
        Phase::ListingAssociations => 12,
        Phase::ReplacingAssociation => 13,
        Phase::Associating => 14,
        Phase::ListingSecurityGroups => 15,
        Phase::CreatingSecurityGroup => 16,
        Phase::Authorizing => 17,
        Phase::Converged => 18,
        Phase::Failed => 19,
    }
}

/// The state of a bring-up: its phase and the identifiers settled so far.
#[derive(Debug)]
pub struct BringUp {
    pub phase: Phase,
    pub vpc_id: String,
    pub subnet_id: String,
    pub igw_id: String,
    pub route_table_id: String,
    pub sg_id: String,
    pub port: usize,
}

/// What the provider answered to the last action.
#[derive(Debug)]
pub enum BringUpEvent {
    Vpcs(Vec<TaggedResource>),
    Subnets(Vec<TaggedResource>),
    Gateways(Vec<InternetGateway>),
    RouteTables(Vec<RouteTable>),
    SubnetTables(Vec<RouteTable>),
    SecurityGroups(Vec<TaggedResource>),
    /// The trimmed output of a command that had to succeed.
    Ran(String),
    /// The reply to a command whose failure may be an expected conflict.
    Replied(CommandOutput),
}

/// Why the bring-up stopped.
#[derive(Debug)]
pub enum BringUpFailure {
    /// Several resources of one kind carry the cluster's identity.
    Ambiguous(String),
    /// The provider refused a step.
    Provider(String),
    /// The answer does not fit the question.
    UnexpectedEvent,
}

/// What to do next.
#[derive(Debug)]
pub enum BringUpAction {
    ListVpcs,
    ListSubnets,
    ListGateways,
    ListRouteTables,
    /// List the route tables associated with the subnet, with this command.
    ListSubnetTables(Vec<String>),
    ListSecurityGroups,
    /// Issue a command that must succeed; its trimmed output comes back.
    Run(Vec<String>),
    /// Issue a command whose reply comes back as it is.
    Try(Vec<String>),
    /// The network stands.
    Converged,
    Fail(BringUpFailure),
}

/// The state before anything is known.
pub fn start() -> (r: (BringUp, BringUpAction))
    ensures
        r.0.phase == Phase::ListingVpcs,
        r.1 is ListVpcs,
{
    (
        BringUp {
            phase: Phase::ListingVpcs,
            vpc_id: String::new(),
            subnet_id: String::new(),
            igw_id: String::new(),
            route_table_id: String::new(),
            sg_id: String::new(),
            port: 0,
        },
        BringUpAction::ListVpcs,
    )
}

/// The action issues `cmd` as a command that must succeed.
pub open spec fn runs(a: BringUpAction, cmd: Seq<Seq<char>>) -> bool {
    match a {
        BringUpAction::Run(v) => texts(v@) == cmd,
        _ => false,
    }
}

/// The action issues `cmd` as a command whose reply comes back.
pub open spec fn tries(a: BringUpAction, cmd: Seq<Seq<char>>) -> bool {
    match a {
        BringUpAction::Try(v) => texts(v@) == cmd,
        _ => false,
    }
}

fn fail(s: BringUp, f: BringUpFailure) -> (r: (BringUp, BringUpAction))
    ensures
        r.0.port == s.port,
        r.0.phase == Phase::Failed,
        r.1 is Fail,
{
    let mut s = s;
    s.phase = Phase::Failed;
    (s, BringUpAction::Fail(f))
}

fn after_vpc(s: BringUp, vpc_id: String) -> (r: (BringUp, BringUpAction))
    ensures
        r.0.port == s.port,
        r.0.phase == Phase::ListingSubnets,
        r.0.vpc_id@ == vpc_id@,
        r.1 is ListSubnets,
{
    let mut s = s;
    s.vpc_id = vpc_id;
    s.phase = Phase::ListingSubnets;
    (s, BringUpAction::ListSubnets)
}

fn after_subnet(s: BringUp, subnet_id: String) -> (r: (BringUp, BringUpAction))
    ensures
        r.0.port == s.port,
        r.0.phase == Phase::EnablingPublicIp,
        r.0.subnet_id@ == subnet_id@,
        r.0.vpc_id == s.vpc_id,
        runs(r.1, public_ip_command(subnet_id@)),
{
    let mut s = s;
    let args = enable_public_ip_args(subnet_id.as_str());
    s.subnet_id = subnet_id;
    s.phase = Phase::EnablingPublicIp;
    (s, BringUpAction::Run(args))
}

fn to_attach(s: BringUp, igw_id: String) -> (r: (BringUp, BringUpAction))
    ensures
        r.0.port == s.port,
        r.0.phase == Phase::Attaching,
        r.0.igw_id@ == igw_id@,
        r.0.vpc_id == s.vpc_id,
        r.0.subnet_id == s.subnet_id,
        runs(r.1, attach_igw_command(igw_id@, s.vpc_id@)),
{
    let mut s = s;
    let args = attach_internet_gateway_args(igw_id.as_str(), s.vpc_id.as_str());
    s.igw_id = igw_id;
    s.phase = Phase::Attaching;
    (s, BringUpAction::Run(args))
}

fn to_route(s: BringUp, route_table_id: String) -> (r: (BringUp, BringUpAction))
    ensures
        r.0.port == s.port,
        r.0.phase == Phase::CreatingRoute,
        r.0.route_table_id@ == route_table_id@,
        r.0.vpc_id == s.vpc_id,
        r.0.subnet_id == s.subnet_id,
        r.0.igw_id == s.igw_id,
        tries(r.1, route_command("create-route"@, route_table_id@, s.igw_id@)),
{
    let mut s = s;
    let args = ensure_default_route(route_table_id.as_str(), s.igw_id.as_str());
    s.route_table_id = route_table_id;
    s.phase = Phase::CreatingRoute;
    (s, BringUpAction::Try(args))
}

fn to_associations(s: BringUp) -> (r: (BringUp, BringUpAction))
    ensures
        r.0.port == s.port,
        r.0.phase == Phase::ListingAssociations,
        r.0.vpc_id == s.vpc_id,
        r.0.subnet_id == s.subnet_id,
        r.0.route_table_id == s.route_table_id,
        match r.1 {
            BringUpAction::ListSubnetTables(a) => texts(a@) == association_lookup_command(s.subnet_id@),
            _ => false,
        },
{
    let mut s = s;
    let args = association_lookup_args(s.subnet_id.as_str());
    s.phase = Phase::ListingAssociations;
    (s, BringUpAction::ListSubnetTables(args))
}

fn to_groups(s: BringUp) -> (r: (BringUp, BringUpAction))
    ensures
        r.0.port == s.port,
        r.0.phase == Phase::ListingSecurityGroups,
        r.0.vpc_id == s.vpc_id,
        r.0.subnet_id == s.subnet_id,
        r.1 is ListSecurityGroups,
{
    let mut s = s;
    s.phase = Phase::ListingSecurityGroups;
    (s, BringUpAction::ListSecurityGroups)
}

/// The ports that the firewall group opens, in order.
pub open spec fn ports() -> Seq<u16> {
    seq![22u16, 80u16, 443u16, 9090u16, 9091u16, 9092u16]
}

fn authorize(s: BringUp, port_index: usize) -> (r: (BringUp, BringUpAction))
    requires
        port_index < 6,
    ensures
        r.0.phase == Phase::Authorizing,
        r.0.port == port_index,
        r.0.subnet_id == s.subnet_id,
        r.0.sg_id == s.sg_id,
        tries(r.1, authorize_command(s.sg_id@, ports()[port_index as int])),
{
    let mut s = s;
    let all = ingress_ports();
    let args = authorize_sg_ingress_args(s.sg_id.as_str(), all[port_index]);
    s.port = port_index;
    s.phase = Phase::Authorizing;
    (s, BringUpAction::Try(args))
}

fn after_group(s: BringUp, sg_id: String) -> (r: (BringUp, BringUpAction))
    ensures
        r.0.phase == Phase::Authorizing,
        r.0.port == 0,
        r.0.sg_id@ == sg_id@,
        r.0.subnet_id == s.subnet_id,
        tries(r.1, authorize_command(sg_id@, 22u16)),
{
    let mut s = s;
    s.sg_id = sg_id;
    authorize(s, 0)
}

/// One step of the bring-up of `config`'s cluster: from the state and what
/// the provider answered, the next state and action. Phases only move
/// forward in the fixed order, but for the ingress rules, which go port by
/// port.
pub fn bring_up_step(config: &AwsEffectiveConfig, s: BringUp, event: BringUpEvent) -> (r: (BringUp, BringUpAction))
    requires
        s.port < 6,
    ensures
        r.0.port < 6,
        rank(r.0.phase) > rank(s.phase) || (r.0.phase == Phase::Authorizing && s.phase == Phase::Authorizing
            && r.0.port == s.port + 1) || (r.0.phase == Phase::Failed && s.phase == Phase::Failed),
        r.0.phase == Phase::Failed <==> r.1 is Fail,
        r.0.phase == Phase::Converged <==> r.1 is Converged,
        ({
            let name = config.cluster_name@;
            match (s.phase, event) {
                (Phase::ListingVpcs, BringUpEvent::Vpcs(l)) => match located_id(
                    l@,
                    resource_name_of(name, "vpc"@),
                    name,
                ) {
                    Ok(Some(id)) => r.0.vpc_id@ == id && r.1 is ListSubnets,
                    Ok(None) => r.0.phase == Phase::CreatingVpc && runs(r.1, crate::reconcile::create_vpc_command(name)),
                    Err(_) => r.1 is Fail,
                },
                (Phase::ListingSubnets, BringUpEvent::Subnets(l)) => match located_id(
                    l@,
                    resource_name_of(name, "subnet"@),
                    name,
                ) {
                    Ok(Some(id)) => r.0.subnet_id@ == id && runs(r.1, public_ip_command(id)),
                    Ok(None) => r.0.phase == Phase::CreatingSubnet && runs(
                        r.1,
                        crate::reconcile::create_subnet_command(name, s.vpc_id@),
                    ),
                    Err(_) => r.1 is Fail,
                },
                (Phase::CreatingVpc, BringUpEvent::Ran(id)) => r.0.vpc_id@ == id@ && r.1 is ListSubnets,
                (Phase::CreatingSubnet, BringUpEvent::Ran(id)) => r.0.subnet_id@ == id@ && runs(r.1, public_ip_command(id@)),
                (Phase::EnablingPublicIp, BringUpEvent::Ran(_)) => r.1 is ListGateways,
                (Phase::ListingGateways, BringUpEvent::Gateways(l)) => match located(
                    l@,
                    resource_name_of(name, "igw"@),
                    name,
                ) {
                    Ok(Some(i)) => r.0.igw_id@ == l@[i].internet_gateway_id@ && if attached_to(l@[i], s.vpc_id@) {
                        r.1 is ListRouteTables
                    } else {
                        runs(r.1, attach_igw_command(l@[i].internet_gateway_id@, s.vpc_id@))
                    },
                    Ok(None) => r.0.phase == Phase::CreatingGateway && runs(r.1, create_igw_command(name)),
                    Err(_) => r.1 is Fail,
                },
                (Phase::CreatingGateway, BringUpEvent::Ran(id)) => r.0.igw_id@ == id@ && runs(
                    r.1,
                    attach_igw_command(id@, s.vpc_id@),
                ),
                (Phase::Attaching, BringUpEvent::Ran(_)) => r.1 is ListRouteTables,
                (Phase::ListingRouteTables, BringUpEvent::RouteTables(l)) => match located_id(
                    l@,
                    resource_name_of(name, "rt"@),
                    name,
                ) {
                    Ok(Some(id)) => r.0.route_table_id@ == id && tries(r.1, route_command("create-route"@, id, s.igw_id@)),
                    Ok(None) => r.0.phase == Phase::CreatingRouteTable && runs(r.1, create_route_table_command(name, s.vpc_id@)),
                    Err(_) => r.1 is Fail,
                },
                (Phase::CreatingRouteTable, BringUpEvent::Ran(id)) => r.0.route_table_id@ == id@ && tries(
                    r.1,
                    route_command("create-route"@, id@, s.igw_id@),
                ),
                (Phase::ListingAssociations, BringUpEvent::SubnetTables(t)) => match association_state(
                    t@,
                    s.route_table_id@,
                    s.subnet_id@,
                ) {
                    None => r.1 is ListSecurityGroups,
                    Some(Some(id)) => runs(r.1, replace_association_command(id, s.route_table_id@)),
                    Some(None) => tries(r.1, associate_command(s.route_table_id@, s.subnet_id@)),
                },
                (Phase::ReplacingAssociation, BringUpEvent::Ran(_)) => r.1 is ListSecurityGroups,
                (Phase::ListingSecurityGroups, BringUpEvent::SecurityGroups(l)) => match located_id(
                    l@,
                    resource_name_of(name, "sg"@),
                    name,
                ) {
                    Ok(Some(id)) => r.0.sg_id@ == id && tries(r.1, authorize_command(id, 22u16)),
                    Ok(None) => r.0.phase == Phase::CreatingSecurityGroup && runs(r.1, create_sg_command(name, s.vpc_id@)),
                    Err(_) => r.1 is Fail,
                },
                (Phase::CreatingSecurityGroup, BringUpEvent::Ran(id)) => r.0.sg_id@ == id@ && tries(
                    r.1,
                    authorize_command(id@, 22u16),
                ),
                (Phase::CreatingRoute, BringUpEvent::Replied(out)) => match after_create_route(
                    s.route_table_id@,
                    s.igw_id@,
                    out,
                ) {
                    Ok(None) => r.0.phase == Phase::ListingAssociations,
                    Ok(Some(cmd)) => r.0.phase == Phase::ReplacingRoute && tries(r.1, cmd),
                    Err(_) => r.1 is Fail,
                },
                (Phase::ReplacingRoute, BringUpEvent::Replied(out)) => (after_replace_route(out) is Ok
                    <==> r.0.phase == Phase::ListingAssociations),
                (Phase::Associating, BringUpEvent::Replied(out)) => (after_associate(out) is Ok <==> r.0.phase
                    == Phase::ListingSecurityGroups),
                (Phase::Authorizing, BringUpEvent::Replied(out)) => match after_authorize(out) {
                    Ok(()) => if s.port + 1 < 6 {
                        r.0.phase == Phase::Authorizing && tries(
                            r.1,
                            authorize_command(s.sg_id@, ports()[s.port + 1]),
                        )
                    } else {
                        r.1 is Converged
                    },
                    Err(_) => r.1 is Fail,
                },
                _ => true,
            }
        }),
{
    match (s.phase, event) {
        (Phase::ListingVpcs, BringUpEvent::Vpcs(l)) => match ensure_vpc(config, &l) {
            Ok(EnsureStep::Existing(id)) => after_vpc(s, id),
            Ok(EnsureStep::Create(args)) => {
                let mut s = s;
                s.phase = Phase::CreatingVpc;
                (s, BringUpAction::Run(args))
            },
            Err(_) => fail(s, BringUpFailure::Ambiguous(String::from_str("VPCs"))),
        },
        (Phase::CreatingVpc, BringUpEvent::Ran(id)) => after_vpc(s, id),
        (Phase::ListingSubnets, BringUpEvent::Subnets(l)) => {
            let vpc_id = s.vpc_id.clone();
            match ensure_subnet(config, &l, vpc_id.as_str()) {
                Ok(EnsureStep::Existing(id)) => after_subnet(s, id),
                Ok(EnsureStep::Create(args)) => {
                    let mut s = s;
                    s.phase = Phase::CreatingSubnet;
                    (s, BringUpAction::Run(args))
                },
                Err(_) => fail(s, BringUpFailure::Ambiguous(String::from_str("subnets"))),
            }
        },
        (Phase::CreatingSubnet, BringUpEvent::Ran(id)) => after_subnet(s, id),
        (Phase::EnablingPublicIp, BringUpEvent::Ran(_)) => {
            let mut s = s;
            s.phase = Phase::ListingGateways;
            (s, BringUpAction::ListGateways)
        },
        (Phase::ListingGateways, BringUpEvent::Gateways(l)) => {
            let vpc_id = s.vpc_id.clone();
            match ensure_internet_gateway(config, l, vpc_id.as_str()) {
                Ok(plan) => match plan.step {
                    EnsureStep::Existing(id) => {
                        if plan.attach {
                            to_attach(s, id)
                        } else {
                            let mut s = s;
                            s.igw_id = id;
                            s.phase = Phase::ListingRouteTables;
                            (s, BringUpAction::ListRouteTables)
                        }
                    },
                    EnsureStep::Create(args) => {
                        let mut s = s;
                        s.phase = Phase::CreatingGateway;
                        (s, BringUpAction::Run(args))
                    },
                },
                Err(_) => fail(s, BringUpFailure::Ambiguous(String::from_str("internet gateways"))),
            }
        },
        (Phase::CreatingGateway, BringUpEvent::Ran(id)) => to_attach(s, id),
        (Phase::Attaching, BringUpEvent::Ran(_)) => {
            let mut s = s;
            s.phase = Phase::ListingRouteTables;
            (s, BringUpAction::ListRouteTables)
        },
        (Phase::ListingRouteTables, BringUpEvent::RouteTables(l)) => {
            let vpc_id = s.vpc_id.clone();
            match ensure_route_table(config, l, vpc_id.as_str()) {
                Ok(EnsureStep::Existing(id)) => to_route(s, id),
                Ok(EnsureStep::Create(args)) => {
                    let mut s = s;
                    s.phase = Phase::CreatingRouteTable;
                    (s, BringUpAction::Run(args))
                },
                Err(_) => fail(s, BringUpFailure::Ambiguous(String::from_str("route tables"))),
            }
        },
        (Phase::CreatingRouteTable, BringUpEvent::Ran(id)) => to_route(s, id),
        (Phase::CreatingRoute, BringUpEvent::Replied(out)) => {
            let rt = s.route_table_id.clone();
            let igw = s.igw_id.clone();
            match default_route_after_create(rt.as_str(), igw.as_str(), &out) {
                Ok(RouteStep::Converged) => to_associations(s),
                Ok(RouteStep::Replace(args)) => {
                    let mut s = s;
                    s.phase = Phase::ReplacingRoute;
                    (s, BringUpAction::Try(args))
                },
                Err(m) => fail(s, BringUpFailure::Provider(m)),
            }
        },
        (Phase::ReplacingRoute, BringUpEvent::Replied(out)) => match default_route_after_replace(&out) {
            Ok(()) => to_associations(s),
            Err(m) => fail(s, BringUpFailure::Provider(m)),
        },
        (Phase::ListingAssociations, BringUpEvent::SubnetTables(tables)) => {
            let rt = s.route_table_id.clone();
            let subnet = s.subnet_id.clone();
            match ensure_route_table_association(rt.as_str(), subnet.as_str(), &tables) {
                AssociationStep::Associated => to_groups(s),
                AssociationStep::Replace(args) => {
                    let mut s = s;
                    s.phase = Phase::ReplacingAssociation;
                    (s, BringUpAction::Run(args))
                },
                AssociationStep::Associate(args) => {
                    let mut s = s;
                    s.phase = Phase::Associating;
                    (s, BringUpAction::Try(args))
                },
            }
        },
        (Phase::ReplacingAssociation, BringUpEvent::Ran(_)) => to_groups(s),
        (Phase::Associating, BringUpEvent::Replied(out)) => match association_after_associate(&out) {
            Ok(()) => to_groups(s),
            Err(m) => fail(s, BringUpFailure::Provider(m)),
        },
        (Phase::ListingSecurityGroups, BringUpEvent::SecurityGroups(l)) => {
            let vpc_id = s.vpc_id.clone();
            match ensure_security_group(config, &l, vpc_id.as_str()) {
                Ok(EnsureStep::Existing(id)) => after_group(s, id),
                Ok(EnsureStep::Create(args)) => {
                    let mut s = s;
                    s.phase = Phase::CreatingSecurityGroup;
                    (s, BringUpAction::Run(args))
                },
                Err(_) => fail(s, BringUpFailure::Ambiguous(String::from_str("security groups"))),
            }
        },
        (Phase::CreatingSecurityGroup, BringUpEvent::Ran(id)) => after_group(s, id),
        (Phase::Authorizing, BringUpEvent::Replied(out)) => match authorize_sg_ingress(&out) {
            Ok(()) => {
                if s.port + 1 < 6 {
                    let next = s.port + 1;
                    authorize(s, next)
                } else {
                    let mut s = s;
                    s.phase = Phase::Converged;
                    (s, BringUpAction::Converged)
                }
            },
            Err(m) => fail(s, BringUpFailure::Provider(m)),
        },
        _ => fail(s, BringUpFailure::UnexpectedEvent),
    }
}

} // verus!
