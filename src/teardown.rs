//! The teardown engine: the reverse-order deletion of a cluster's network,
//! refused while compute remains, tolerant of what is already gone.
use vstd::prelude::*;
use crate::locator::{non_terminated, Instance, InternetGateway, RouteTable, RouteTableAssociation, is_non_terminated};
use crate::naming::{aws_args, texts};
use crate::provider::CommandOutput;
use crate::reconcile::{attached_to, gateway_attached, unit_result, ReconcileError};
use crate::text::{contains, lower_of, seq_contains, str_eq, to_lowercase, trim, trim_of};

verus! {

/// The kinds of teardown step.
#[derive(Debug, Clone, Copy, PartialEq, Eq, Structural)]
pub enum PruneKind {
    Disassociate,
    DeleteRouteTable,
    DeleteSubnet,
    DetachGateway,
    DeleteGateway,
    DeleteSecurityGroup,
    DeleteVpc,
    DeleteKeyPair,
}

/// One teardown command, with the kind that says how its reply is read.
#[derive(Debug)]
pub struct PruneStep {
    pub kind: PruneKind,
    pub args: Vec<String>,
}

/// The provider reports that the target of a step is gone already.
pub open spec fn already_gone(kind: PruneKind, stderr: Seq<char>) -> bool {
    match kind {
        PruneKind::Disassociate => seq_contains(stderr, "InvalidAssociationID.NotFound"@),
        PruneKind::DeleteRouteTable => seq_contains(stderr, "InvalidRouteTableID.NotFound"@),
        PruneKind::DeleteSubnet => seq_contains(stderr, "InvalidSubnetID.NotFound"@),
        PruneKind::DetachGateway => seq_contains(stderr, "Gateway.NotAttached"@) || seq_contains(
            stderr,
            "InvalidInternetGatewayID.NotFound"@,
        ) || seq_contains(stderr, "InvalidVpcID.NotFound"@),
        PruneKind::DeleteGateway => seq_contains(stderr, "InvalidInternetGatewayID.NotFound"@),
        PruneKind::DeleteSecurityGroup => seq_contains(stderr, "InvalidGroup.NotFound"@),
        PruneKind::DeleteVpc => seq_contains(stderr, "InvalidVpcID.NotFound"@),
        PruneKind::DeleteKeyPair => seq_contains(stderr, "InvalidKeyPair.NotFound"@),
    }
}

/// What a failed step reports.
pub open spec fn step_failure(kind: PruneKind) -> Seq<char> {
    match kind {
        PruneKind::Disassociate => "failed to disassociate route table: "@,
        PruneKind::DeleteRouteTable => "failed to delete route table: "@,
        PruneKind::DeleteSubnet => "failed to delete subnet: "@,
        PruneKind::DetachGateway => "failed to detach internet gateway: "@,
        PruneKind::DeleteGateway => "failed to delete internet gateway: "@,
        PruneKind::DeleteSecurityGroup => "failed to delete security group: "@,
        PruneKind::DeleteVpc => "failed to delete vpc: "@,
        PruneKind::DeleteKeyPair => "failed to delete key pair: "@,
    }
}

/// How the reply to a teardown step is read: success, or a target already
/// gone, both count as done.
pub open spec fn step_outcome(kind: PruneKind, out: CommandOutput) -> Result<(), Seq<char>> {
    if out.success || already_gone(kind, out.stderr@) {
        Ok(())
    } else {
        Err(step_failure(kind) + trim_of(out.stderr@))
    }
}

fn gone(kind: PruneKind, stderr: &str) -> (r: bool)
    ensures
        r == already_gone(kind, stderr@),
{
    match kind {
        PruneKind::Disassociate => contains(stderr, "InvalidAssociationID.NotFound"),
        PruneKind::DeleteRouteTable => contains(stderr, "InvalidRouteTableID.NotFound"),
        PruneKind::DeleteSubnet => contains(stderr, "InvalidSubnetID.NotFound"),
        PruneKind::DetachGateway => contains(stderr, "Gateway.NotAttached") || contains(
            stderr,
            "InvalidInternetGatewayID.NotFound",
        ) || contains(stderr, "InvalidVpcID.NotFound"),
        PruneKind::DeleteGateway => contains(stderr, "InvalidInternetGatewayID.NotFound"),
        PruneKind::DeleteSecurityGroup => contains(stderr, "InvalidGroup.NotFound"),
        PruneKind::DeleteVpc => contains(stderr, "InvalidVpcID.NotFound"),
        PruneKind::DeleteKeyPair => contains(stderr, "InvalidKeyPair.NotFound"),
    }
}

fn failure_prefix(kind: PruneKind) -> (r: &'static str)
    ensures
        r@ == step_failure(kind),
{
    match kind {
        PruneKind::Disassociate => "failed to disassociate route table: ",
        PruneKind::DeleteRouteTable => "failed to delete route table: ",
        PruneKind::DeleteSubnet => "failed to delete subnet: ",
        PruneKind::DetachGateway => "failed to detach internet gateway: ",
        PruneKind::DeleteGateway => "failed to delete internet gateway: ",
        PruneKind::DeleteSecurityGroup => "failed to delete security group: ",
        PruneKind::DeleteVpc => "failed to delete vpc: ",
        PruneKind::DeleteKeyPair => "failed to delete key pair: ",
    }
}

/// Reads the reply to a teardown step.
pub fn prune_step_outcome(kind: PruneKind, output: &CommandOutput) -> (r: Result<(), String>)
    ensures
        unit_result(r) == step_outcome(kind, *output),
{
    if output.success || gone(kind, output.stderr.as_str()) {
        Ok(())
    } else {
        let mut s = String::from_str(failure_prefix(kind));
        s.append(trim(output.stderr.as_str()));
        Err(s)
    }
}

pub fn delete_route_table(output: &CommandOutput) -> (r: Result<(), String>)
    ensures
        unit_result(r) == step_outcome(PruneKind::DeleteRouteTable, *output),
{
    prune_step_outcome(PruneKind::DeleteRouteTable, output)
}

pub fn delete_subnet(output: &CommandOutput) -> (r: Result<(), String>)
    ensures
        unit_result(r) == step_outcome(PruneKind::DeleteSubnet, *output),
{
    prune_step_outcome(PruneKind::DeleteSubnet, output)
}

pub fn delete_internet_gateway(output: &CommandOutput) -> (r: Result<(), String>)
    ensures
        unit_result(r) == step_outcome(PruneKind::DeleteGateway, *output),
{
    prune_step_outcome(PruneKind::DeleteGateway, output)
}

pub fn delete_security_group(output: &CommandOutput) -> (r: Result<(), String>)
    ensures
        unit_result(r) == step_outcome(PruneKind::DeleteSecurityGroup, *output),
{
    prune_step_outcome(PruneKind::DeleteSecurityGroup, output)
}

pub fn delete_vpc(output: &CommandOutput) -> (r: Result<(), String>)
    ensures
        unit_result(r) == step_outcome(PruneKind::DeleteVpc, *output),
{
    prune_step_outcome(PruneKind::DeleteVpc, output)
}

/// The view of a list of steps.
pub open spec fn steps_view(v: Seq<PruneStep>) -> Seq<(PruneKind, Seq<Seq<char>>)> {
    v.map_values(|s: PruneStep| (s.kind, texts(s.args@)))
}

/// The disassociations of a route table: one per association that is not the
/// main one and has an id, in order.
pub open spec fn disassociations(assocs: Seq<RouteTableAssociation>) -> Seq<(PruneKind, Seq<Seq<char>>)>
    decreases assocs.len(),
{
    if assocs.len() == 0 {
        Seq::empty()
    } else {
        let prev = disassociations(assocs.drop_last());
        let a = assocs.last();
        if a.main == Some(true) || a.association_id is None {
            prev
        } else {
            prev.push(
                (
                    PruneKind::Disassociate,
                    seq!["ec2"@, "disassociate-route-table"@, "--association-id"@, a.association_id->Some_0@],
                ),
            )
        }
    }
}

/// The disassociations of a route table's explicit associations.
pub open spec fn table_disassociations(t: RouteTable) -> Seq<(PruneKind, Seq<Seq<char>>)> {
    match t.associations {
        Some(a) => disassociations(a@),
        None => Seq::empty(),
    }
}

fn step(kind: PruneKind, args: Vec<String>) -> (r: PruneStep)
    ensures
        r.kind == kind,
        texts(r.args@) == texts(args@),
{
    PruneStep { kind, args }
}

fn push_step(steps: &mut Vec<PruneStep>, kind: PruneKind, args: Vec<String>)
    ensures
        steps_view(final(steps)@) == steps_view(old(steps)@).push((kind, texts(args@))),
{
    let ghost prev = steps@;
    let s = step(kind, args);
    steps.push(s);
    assert(steps_view(steps@) =~= steps_view(prev).push((kind, texts(args@))));
}

/// Disassociates a route table from its subnets, the main association aside.
pub fn disassociate_route_table(route_table: &RouteTable, steps: &mut Vec<PruneStep>)
    ensures
        steps_view(final(steps)@) == steps_view(old(steps)@) + table_disassociations(*route_table),
{
    let ghost start = steps_view(steps@);
    match &route_table.associations {
        Some(assocs) => {
            let mut i: usize = 0;
            while i < assocs.len()
                invariant
                    route_table.associations == Some(*assocs),
                    i <= assocs@.len(),
                    steps_view(steps@) == start + disassociations(assocs@.subrange(0, i as int)),
                decreases assocs@.len() - i,
            {
                assert(assocs@.subrange(0, i + 1).drop_last() =~= assocs@.subrange(0, i as int));
                assert(assocs@.subrange(0, i + 1).last() == assocs@[i as int]);
                let a = &assocs[i];
                let main = match a.main {
                    Some(m) => m,
                    None => false,
                };
                if !main {
                    match &a.association_id {
                        Some(id) => {
                            let v = aws_args(&["ec2", "disassociate-route-table", "--association-id", id.as_str()]);
                            assert(texts(v@) =~= seq!["ec2"@, "disassociate-route-table"@, "--association-id"@, id@]);
                            push_step(steps, PruneKind::Disassociate, v);
                        },
                        None => {},
                    }
                }
                assert(steps_view(steps@) =~= start + disassociations(assocs@.subrange(0, i + 1)));
                i = i + 1;
            }
            assert(assocs@.subrange(0, assocs@.len() as int) =~= assocs@);
        },
        None => {
            assert(steps_view(steps@) =~= start + table_disassociations(*route_table));
        },
    }
}

/// The detach step of a gateway, where it is attached to network `vpc_id`.
pub open spec fn detach_steps(igw: InternetGateway, vpc_id: Seq<char>) -> Seq<(PruneKind, Seq<Seq<char>>)> {
    if attached_to(igw, vpc_id) {
        seq![
            (
                PruneKind::DetachGateway,
                seq!["ec2"@, "detach-internet-gateway"@, "--internet-gateway-id"@, igw.internet_gateway_id@, "--vpc-id"@, vpc_id],
            ),
        ]
    } else {
        Seq::empty()
    }
}

/// Detaches a gateway from network `vpc_id`, where it is attached there.
pub fn detach_internet_gateway(igw: &InternetGateway, vpc_id: &str, steps: &mut Vec<PruneStep>)
    ensures
        steps_view(final(steps)@) == steps_view(old(steps)@) + detach_steps(*igw, vpc_id@),
{
    if gateway_attached(igw, vpc_id) {
        let v = aws_args(
            &["ec2", "detach-internet-gateway", "--internet-gateway-id", igw.internet_gateway_id.as_str(), "--vpc-id", vpc_id],
        );
        push_step(steps, PruneKind::DetachGateway, v);
        assert(texts(v@) =~= detach_steps(*igw, vpc_id@)[0].1);
    }
    assert(steps_view(steps@) =~= steps_view(old(steps)@) + detach_steps(*igw, vpc_id@));
}

/// The route table's part of a teardown: its disassociations, then its deletion.
pub open spec fn route_table_steps(route_table: Option<RouteTable>) -> Seq<(PruneKind, Seq<Seq<char>>)> {
    match route_table {
        Some(t) => table_disassociations(t).push(
            (PruneKind::DeleteRouteTable, seq!["ec2"@, "delete-route-table"@, "--route-table-id"@, t.route_table_id@]),
        ),
        None => Seq::empty(),
    }
}

/// The subnet's part of a teardown.
pub open spec fn subnet_steps(subnet_id: Option<String>) -> Seq<(PruneKind, Seq<Seq<char>>)> {
    match subnet_id {
        Some(s) => seq![(PruneKind::DeleteSubnet, seq!["ec2"@, "delete-subnet"@, "--subnet-id"@, s@])],
        None => Seq::empty(),
    }
}

/// The gateway's part of a teardown: detached where attached, then deleted.
pub open spec fn gateway_steps(igw: Option<InternetGateway>, vpc_id: Seq<char>) -> Seq<(PruneKind, Seq<Seq<char>>)> {
    match igw {
        Some(g) => detach_steps(g, vpc_id).push(
            (
                PruneKind::DeleteGateway,
                seq!["ec2"@, "delete-internet-gateway"@, "--internet-gateway-id"@, g.internet_gateway_id@],
            ),
        ),
        None => Seq::empty(),
    }
}

/// The firewall group's part of a teardown.
pub open spec fn security_group_steps(sg_id: Option<String>) -> Seq<(PruneKind, Seq<Seq<char>>)> {
    match sg_id {
        Some(s) => seq![(PruneKind::DeleteSecurityGroup, seq!["ec2"@, "delete-security-group"@, "--group-id"@, s@])],
        None => Seq::empty(),
    }
}

/// The teardown of a cluster's network `vpc_id`, in reverse order of
/// creation: the route table (after its disassociations), the subnet, the
/// gateway (detached first where attached), the firewall group, the network.
pub open spec fn prune_steps(
    vpc_id: Seq<char>,
    route_table: Option<RouteTable>,
    subnet_id: Option<String>,
    igw: Option<InternetGateway>,
    sg_id: Option<String>,
) -> Seq<(PruneKind, Seq<Seq<char>>)> {
    route_table_steps(route_table) + subnet_steps(subnet_id) + gateway_steps(igw, vpc_id)
        + security_group_steps(sg_id) + seq![(PruneKind::DeleteVpc, seq!["ec2"@, "delete-vpc"@, "--vpc-id"@, vpc_id])]
}

/// Some instance still exists.
pub open spec fn compute_remains(instances: Seq<Instance>) -> bool {
    exists|i: int| 0 <= i < instances.len() && non_terminated((#[trigger] instances[i]).state.name@)
}

/// Plans the teardown of network `vpc_id` from what the locator found in
/// it; refused while any instance in it still exists.
pub fn plan_prune(
    vpc_id: &str,
    instances: &Vec<Instance>,
    route_table: &Option<RouteTable>,
    subnet_id: &Option<String>,
    igw: &Option<InternetGateway>,
    sg_id: &Option<String>,
) -> (r: Result<Vec<PruneStep>, ReconcileError>)
    ensures
        match r {
            Ok(steps) => !compute_remains(instances@) && steps_view(steps@) == prune_steps(
                vpc_id@,
                *route_table,
                *subnet_id,
                *igw,
                *sg_id,
            ),
            Err(e) => compute_remains(instances@) && e == ReconcileError::InstancesRemain,
        },
{
    let mut i: usize = 0;
    while i < instances.len()
        invariant
            i <= instances@.len(),
            forall|k: int| 0 <= k < i ==> !non_terminated((#[trigger] instances@[k]).state.name@),
        decreases instances@.len() - i,
    {
        if is_non_terminated(instances[i].state.name.as_str()) {
            return Err(ReconcileError::InstancesRemain);
        }
        i = i + 1;
    }
    let mut steps: Vec<PruneStep> = Vec::new();
    let ghost s0 = steps_view(steps@);
    assert(s0 =~= Seq::<(PruneKind, Seq<Seq<char>>)>::empty());
    match route_table {
        Some(t) => {
            disassociate_route_table(t, &mut steps);
            let v = aws_args(&["ec2", "delete-route-table", "--route-table-id", t.route_table_id.as_str()]);
            assert(texts(v@) =~= seq!["ec2"@, "delete-route-table"@, "--route-table-id"@, t.route_table_id@]);
            push_step(&mut steps, PruneKind::DeleteRouteTable, v);
        },
        None => {},
    }
    let ghost s1 = steps_view(steps@);
    match subnet_id {
        Some(s) => {
            let v = aws_args(&["ec2", "delete-subnet", "--subnet-id", s.as_str()]);
            assert(texts(v@) =~= seq!["ec2"@, "delete-subnet"@, "--subnet-id"@, s@]);
            push_step(&mut steps, PruneKind::DeleteSubnet, v);
        },
        None => {},
    }
    let ghost s2 = steps_view(steps@);
    match igw {
        Some(g) => {
            detach_internet_gateway(g, vpc_id, &mut steps);
            let v = aws_args(&["ec2", "delete-internet-gateway", "--internet-gateway-id", g.internet_gateway_id.as_str()]);
            assert(texts(v@) =~= seq!["ec2"@, "delete-internet-gateway"@, "--internet-gateway-id"@, g.internet_gateway_id@]);
            push_step(&mut steps, PruneKind::DeleteGateway, v);
        },
        None => {},
    }
    let ghost s3 = steps_view(steps@);
    match sg_id {
        Some(s) => {
            let v = aws_args(&["ec2", "delete-security-group", "--group-id", s.as_str()]);
            assert(texts(v@) =~= seq!["ec2"@, "delete-security-group"@, "--group-id"@, s@]);
            push_step(&mut steps, PruneKind::DeleteSecurityGroup, v);
        },
        None => {},
    }
    let v = aws_args(&["ec2", "delete-vpc", "--vpc-id", vpc_id]);
    assert(texts(v@) =~= seq!["ec2"@, "delete-vpc"@, "--vpc-id"@, vpc_id@]);
    push_step(&mut steps, PruneKind::DeleteVpc, v);
    assert(s1 =~= s0 + route_table_steps(*route_table));
    assert(s2 =~= s1 + subnet_steps(*subnet_id));
    assert(s3 =~= s2 + gateway_steps(*igw, vpc_id@));
    assert(steps_view(steps@) =~= prune_steps(vpc_id@, *route_table, *subnet_id, *igw, *sg_id));
    Ok(steps)
}

/// An answer to a confirmation prompt that agrees: `y` or `yes`, trimmed,
/// in any case.
pub open spec fn affirmative(answer: Seq<char>) -> bool {
    lower_of(trim_of(answer)) == "y"@ || lower_of(trim_of(answer)) == "yes"@
}

/// Whether an answer to a confirmation prompt agrees.
pub fn is_affirmative(answer: &str) -> (r: bool)
    ensures
        r == affirmative(answer@),
{
    let lower = to_lowercase(trim(answer));
    str_eq(lower.as_str(), "y") || str_eq(lower.as_str(), "yes")
}

/// What the tool's own local key pair needs.
#[derive(Debug, Clone, Copy, PartialEq, Eq, Structural)]
pub enum LocalKeyAction {
    /// Both halves are there.
    Keep,
    /// Only the private half is there: derive the public half from it.
    DerivePublic,
    /// Generate a new pair, after removing a public half left alone.
    Generate { remove_stale_public: bool },
}

/// What the local key pair needs, given which halves exist.
pub fn local_keypair_action(private_exists: bool, public_exists: bool) -> (r: LocalKeyAction)
    ensures
        r == if private_exists && public_exists {
            LocalKeyAction::Keep
        } else if private_exists {
            LocalKeyAction::DerivePublic
        } else {
            LocalKeyAction::Generate { remove_stale_public: public_exists }
        },
{
    if private_exists && public_exists {
        LocalKeyAction::Keep
    } else if private_exists {
        LocalKeyAction::DerivePublic
    } else {
        LocalKeyAction::Generate { remove_stale_public: public_exists }
    }
}

/// A teardown step whose target the provider reports gone counts as done,
/// whatever else the reply says.
pub proof fn gone_targets_are_done(kind: PruneKind, out: CommandOutput)
    requires
        already_gone(kind, out.stderr@),
    ensures
        step_outcome(kind, out) == Ok::<(), Seq<char>>(()),
{
}

} // verus!
