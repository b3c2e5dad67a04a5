//! The resource reconciler: for each kind, adopt the cluster's resource or
//! create it, then converge attachments, routes, associations and ingress.
//! Every function here decides; the caller issues the commands it returns and
//! hands back the provider's replies.
use vstd::prelude::*;
use crate::config::AwsEffectiveConfig;
use crate::locator::{
    find_internet_gateway, find_route_table, find_security_group, find_subnet, find_vpc,
    found_view, has_identity, located, located_id, Tagged, InternetGateway, LocateError, RouteTable, RouteTableAssociation,
    TaggedResource,
};
use crate::naming::{aws_args, resource_name, resource_name_of, tag_spec, tag_spec_of, texts};
use crate::provider::CommandOutput;
use crate::text::{contains, decimal, decimal_of, seq_contains, str_eq, trim, trim_of};

verus! {

/// The next step of an `ensure`: adopt the resource found, or issue the
/// create command (whose trimmed output is the new identifier).
#[derive(Debug)]
pub enum EnsureStep {
    Existing(String),
    Create(Vec<String>),
}

/// The step is the one that a lookup result `found` calls for, with `create`
/// as the create command.
pub open spec fn ensure_step_for(
    r: Result<EnsureStep, LocateError>,
    found: Result<Option<Seq<char>>, LocateError>,
    create: Seq<Seq<char>>,
) -> bool {
    match found {
        Ok(Some(id)) => match r {
            Ok(EnsureStep::Existing(x)) => x@ == id,
            _ => false,
        },
        Ok(None) => match r {
            Ok(EnsureStep::Create(a)) => texts(a@) == create,
            _ => false,
        },
        Err(e) => r == Err::<EnsureStep, LocateError>(e),
    }
}

fn ensure_step(found: Result<Option<String>, LocateError>, create: Vec<String>) -> (r: Result<EnsureStep, LocateError>)
    ensures
        ensure_step_for(r, found_view(found), texts(create@)),
{
    match found {
        Ok(Some(id)) => Ok(EnsureStep::Existing(id)),
        Ok(None) => Ok(EnsureStep::Create(create)),
        Err(e) => Err(e),
    }
}

/// The command that creates the cluster's virtual network.
pub open spec fn create_vpc_command(cluster: Seq<char>) -> Seq<Seq<char>> {
    seq![
        "ec2"@,
        "create-vpc"@,
        "--cidr-block"@,
        "10.0.0.0/16"@,
        "--tag-specifications"@,
        tag_spec_of("vpc"@, resource_name_of(cluster, "vpc"@), cluster),
        "--query"@,
        "Vpc.VpcId"@,
        "--output"@,
        "text"@,
    ]
}

pub fn create_vpc_args(cluster: &str) -> (r: Vec<String>)
    ensures
        texts(r@) == create_vpc_command(cluster@),
{
    let name = resource_name(cluster, "vpc");
    let tag = tag_spec("vpc", name.as_str(), cluster);
    let v = aws_args(
        &[
            "ec2",
            "create-vpc",
            "--cidr-block",
            "10.0.0.0/16",
            "--tag-specifications",
            tag.as_str(),
            "--query",
            "Vpc.VpcId",
            "--output",
            "text",
        ],
    );
    assert(texts(v@) =~= create_vpc_command(cluster@));
    v
}

/// Adopts the cluster's network, or creates it.
pub fn ensure_vpc(config: &AwsEffectiveConfig, listing: &Vec<TaggedResource>) -> (r: Result<EnsureStep, LocateError>)
    ensures
        ensure_step_for(
            r,
            located_id(listing@, resource_name_of(config.cluster_name@, "vpc"@), config.cluster_name@),
            create_vpc_command(config.cluster_name@),
        ),
{
    let found = find_vpc(listing, config.cluster_name.as_str());
    let create = create_vpc_args(config.cluster_name.as_str());
    ensure_step(found, create)
}

/// The command that creates the cluster's subnet in network `vpc_id`.
pub open spec fn create_subnet_command(cluster: Seq<char>, vpc_id: Seq<char>) -> Seq<Seq<char>> {
    seq![
        "ec2"@,
        "create-subnet"@,
        "--vpc-id"@,
        vpc_id,
        "--cidr-block"@,
        "10.0.1.0/24"@,
        "--tag-specifications"@,
        tag_spec_of("subnet"@, resource_name_of(cluster, "subnet"@), cluster),
        "--query"@,
        "Subnet.SubnetId"@,
        "--output"@,
        "text"@,
    ]
}

pub fn create_subnet_args(cluster: &str, vpc_id: &str) -> (r: Vec<String>)
    ensures
        texts(r@) == create_subnet_command(cluster@, vpc_id@),
{
    let name = resource_name(cluster, "subnet");
    let tag = tag_spec("subnet", name.as_str(), cluster);
    let v = aws_args(
        &[
            "ec2",
            "create-subnet",
            "--vpc-id",
            vpc_id,
            "--cidr-block",
            "10.0.1.0/24",
            "--tag-specifications",
            tag.as_str(),
            "--query",
            "Subnet.SubnetId",
            "--output",
            "text",
        ],
    );
    assert(texts(v@) =~= create_subnet_command(cluster@, vpc_id@));
    v
}

/// Adopts the cluster's subnet, or creates it in network `vpc_id`. Public
/// addressing is then enabled on it in every case.
pub fn ensure_subnet(config: &AwsEffectiveConfig, listing: &Vec<TaggedResource>, vpc_id: &str) -> (r: Result<
    EnsureStep,
    LocateError,
>)
    ensures
        ensure_step_for(
            r,
            located_id(listing@, resource_name_of(config.cluster_name@, "subnet"@), config.cluster_name@),
            create_subnet_command(config.cluster_name@, vpc_id@),
        ),
{
    let found = find_subnet(listing, config.cluster_name.as_str());
    let create = create_subnet_args(config.cluster_name.as_str(), vpc_id);
    ensure_step(found, create)
}

/// The command that turns on public addressing in a subnet.
pub open spec fn public_ip_command(subnet_id: Seq<char>) -> Seq<Seq<char>> {
    seq!["ec2"@, "modify-subnet-attribute"@, "--subnet-id"@, subnet_id, "--map-public-ip-on-launch"@]
}

pub fn enable_public_ip_args(subnet_id: &str) -> (r: Vec<String>)
    ensures
        texts(r@) == public_ip_command(subnet_id@),
{
    let v = aws_args(&["ec2", "modify-subnet-attribute", "--subnet-id", subnet_id, "--map-public-ip-on-launch"]);
    assert(texts(v@) =~= public_ip_command(subnet_id@));
    v
}

/// The gateway is attached to network `vpc_id`.
pub open spec fn attached_to(igw: InternetGateway, vpc_id: Seq<char>) -> bool {
    match igw.attachments {
        Some(a) => exists|i: int|
            0 <= i < a@.len() && crate::health::is_text(#[trigger] a@[i].vpc_id, vpc_id),
        None => false,
    }
}

/// Whether the gateway is attached to network `vpc_id`.
pub fn gateway_attached(igw: &InternetGateway, vpc_id: &str) -> (r: bool)
    ensures
        r == attached_to(*igw, vpc_id@),
{
    match &igw.attachments {
        Some(a) => {
            let mut i: usize = 0;
            while i < a.len()
                invariant
                    igw.attachments == Some(*a),
                    i <= a@.len(),
                    forall|k: int| 0 <= k < i ==> !crate::health::is_text(#[trigger] a@[k].vpc_id, vpc_id@),
                decreases a@.len() - i,
            {
                match &a[i].vpc_id {
                    Some(v) => {
                        if str_eq(v.as_str(), vpc_id) {
                            return true;
                        }
                    },
                    None => {},
                }
                i = i + 1;
            }
            false
        },
        None => false,
    }
}

/// The command that creates the cluster's internet gateway.
pub open spec fn create_igw_command(cluster: Seq<char>) -> Seq<Seq<char>> {
    seq![
        "ec2"@,
        "create-internet-gateway"@,
        "--tag-specifications"@,
        tag_spec_of("internet-gateway"@, resource_name_of(cluster, "igw"@), cluster),
        "--query"@,
        "InternetGateway.InternetGatewayId"@,
        "--output"@,
        "text"@,
    ]
}

pub fn create_internet_gateway_args(cluster: &str) -> (r: Vec<String>)
    ensures
        texts(r@) == create_igw_command(cluster@),
{
    let name = resource_name(cluster, "igw");
    let tag = tag_spec("internet-gateway", name.as_str(), cluster);
    let v = aws_args(
        &[
            "ec2",
            "create-internet-gateway",
            "--tag-specifications",
            tag.as_str(),
            "--query",
            "InternetGateway.InternetGatewayId",
            "--output",
            "text",
        ],
    );
    assert(texts(v@) =~= create_igw_command(cluster@));
    v
}

/// The command that attaches a gateway to a network.
pub open spec fn attach_igw_command(igw_id: Seq<char>, vpc_id: Seq<char>) -> Seq<Seq<char>> {
    seq!["ec2"@, "attach-internet-gateway"@, "--internet-gateway-id"@, igw_id, "--vpc-id"@, vpc_id]
}

pub fn attach_internet_gateway_args(igw_id: &str, vpc_id: &str) -> (r: Vec<String>)
    ensures
        texts(r@) == attach_igw_command(igw_id@, vpc_id@),
{
    let v = aws_args(&["ec2", "attach-internet-gateway", "--internet-gateway-id", igw_id, "--vpc-id", vpc_id]);
    assert(texts(v@) =~= attach_igw_command(igw_id@, vpc_id@));
    v
}

/// What converging the gateway takes: adopting or creating it, and whether it
/// must then be attached to the network.
#[derive(Debug)]
pub struct GatewayPlan {
    pub step: EnsureStep,
    pub attach: bool,
}

/// Adopts the cluster's internet gateway or creates it, and attaches it to
/// network `vpc_id` only where it is not attached there already.
pub fn ensure_internet_gateway(config: &AwsEffectiveConfig, listing: Vec<InternetGateway>, vpc_id: &str) -> (r: Result<
    GatewayPlan,
    LocateError,
>)
    ensures
        match located(listing@, resource_name_of(config.cluster_name@, "igw"@), config.cluster_name@) {
            Ok(Some(i)) => match r {
                Ok(p) => (match p.step {
                    EnsureStep::Existing(x) => x@ == listing@[i].internet_gateway_id@,
                    _ => false,
                }) && p.attach == !attached_to(listing@[i], vpc_id@),
                Err(_) => false,
            },
            Ok(None) => match r {
                Ok(p) => (match p.step {
                    EnsureStep::Create(a) => texts(a@) == create_igw_command(config.cluster_name@),
                    _ => false,
                }) && p.attach,
                Err(_) => false,
            },
            Err(e) => match r {
                Ok(_) => false,
                Err(e2) => e2 == e,
            },
        },
{
    match find_internet_gateway(listing, config.cluster_name.as_str()) {
        Ok(Some(igw)) => {
            let attach = !gateway_attached(&igw, vpc_id);
            Ok(GatewayPlan { step: EnsureStep::Existing(igw.internet_gateway_id), attach })
        },
        Ok(None) => Ok(
            GatewayPlan {
                step: EnsureStep::Create(create_internet_gateway_args(config.cluster_name.as_str())),
                attach: true,
            },
        ),
        Err(e) => Err(e),
    }
}

/// The command that creates the cluster's route table in network `vpc_id`.
pub open spec fn create_route_table_command(cluster: Seq<char>, vpc_id: Seq<char>) -> Seq<Seq<char>> {
    seq![
        "ec2"@,
        "create-route-table"@,
        "--vpc-id"@,
        vpc_id,
        "--tag-specifications"@,
        tag_spec_of("route-table"@, resource_name_of(cluster, "rt"@), cluster),
        "--query"@,
        "RouteTable.RouteTableId"@,
        "--output"@,
        "text"@,
    ]
}

pub fn create_route_table_args(cluster: &str, vpc_id: &str) -> (r: Vec<String>)
    ensures
        texts(r@) == create_route_table_command(cluster@, vpc_id@),
{
    let name = resource_name(cluster, "rt");
    let tag = tag_spec("route-table", name.as_str(), cluster);
    let v = aws_args(
        &[
            "ec2",
            "create-route-table",
            "--vpc-id",
            vpc_id,
            "--tag-specifications",
            tag.as_str(),
            "--query",
            "RouteTable.RouteTableId",
            "--output",
            "text",
        ],
    );
    assert(texts(v@) =~= create_route_table_command(cluster@, vpc_id@));
    v
}

/// Adopts the cluster's route table, or creates it in network `vpc_id`. The
/// default route and the subnet association are converged next.
pub fn ensure_route_table(config: &AwsEffectiveConfig, listing: Vec<RouteTable>, vpc_id: &str) -> (r: Result<
    EnsureStep,
    LocateError,
>)
    ensures
        ensure_step_for(
            r,
            located_id(listing@, resource_name_of(config.cluster_name@, "rt"@), config.cluster_name@),
            create_route_table_command(config.cluster_name@, vpc_id@),
        ),
{
    let create = create_route_table_args(config.cluster_name.as_str(), vpc_id);
    match find_route_table(listing, config.cluster_name.as_str()) {
        Ok(Some(t)) => Ok(EnsureStep::Existing(t.route_table_id)),
        Ok(None) => Ok(EnsureStep::Create(create)),
        Err(e) => Err(e),
    }
}

/// The default route's command, `create-route` or `replace-route`.
pub open spec fn route_command(verb: Seq<char>, route_table_id: Seq<char>, igw_id: Seq<char>) -> Seq<Seq<char>> {
    seq![
        "ec2"@,
        verb,
        "--route-table-id"@,
        route_table_id,
        "--destination-cidr-block"@,
        "0.0.0.0/0"@,
        "--gateway-id"@,
        igw_id,
    ]
}

fn route_args(verb: &str, route_table_id: &str, igw_id: &str) -> (r: Vec<String>)
    ensures
        texts(r@) == route_command(verb@, route_table_id@, igw_id@),
{
    let v = aws_args(
        &["ec2", verb, "--route-table-id", route_table_id, "--destination-cidr-block", "0.0.0.0/0", "--gateway-id", igw_id],
    );
    assert(texts(v@) =~= route_command(verb@, route_table_id@, igw_id@));
    v
}

/// The first attempt at the default route: create it.
pub fn ensure_default_route(route_table_id: &str, igw_id: &str) -> (r: Vec<String>)
    ensures
        texts(r@) == route_command("create-route"@, route_table_id@, igw_id@),
{
    route_args("create-route", route_table_id, igw_id)
}

/// What follows an attempt to create the default route.
#[derive(Debug)]
pub enum RouteStep {
    /// The route stands.
    Converged,
    /// The route exists already: replace it with this command.
    Replace(Vec<String>),
}

/// The provider reports that the route exists already.
pub open spec fn route_conflict(stderr: Seq<char>) -> bool {
    seq_contains(stderr, "RouteAlreadyExists"@) || seq_contains(stderr, "InvalidRoute.Duplicate"@)
}

/// The view of what follows a create-route attempt: done, replace with a
/// command, or fail with a message.
pub open spec fn after_create_route(route_table_id: Seq<char>, igw_id: Seq<char>, out: CommandOutput) -> Result<
    Option<Seq<Seq<char>>>,
    Seq<char>,
> {
    if out.success {
        Ok(None)
    } else if route_conflict(out.stderr@) {
        Ok(Some(route_command("replace-route"@, route_table_id, igw_id)))
    } else {
        Err("failed to create route: "@ + trim_of(out.stderr@))
    }
}

/// The view of a route step result.
pub open spec fn route_step_view(r: Result<RouteStep, String>) -> Result<Option<Seq<Seq<char>>>, Seq<char>> {
    match r {
        Ok(RouteStep::Converged) => Ok(None),
        Ok(RouteStep::Replace(a)) => Ok(Some(texts(a@))),
        Err(e) => Err(e@),
    }
}

/// `prefix` followed by the trimmed error stream of a reply.
fn failure(prefix: &str, output: &CommandOutput) -> (r: String)
    ensures
        r@ == prefix@ + trim_of(output.stderr@),
{
    let mut s = String::from_str(prefix);
    s.append(trim(output.stderr.as_str()));
    s
}

/// Reads the reply to the create-route attempt: a conflict falls back to a
/// replace of the same route rather than counting as success or failure.
pub fn default_route_after_create(route_table_id: &str, igw_id: &str, output: &CommandOutput) -> (r: Result<
    RouteStep,
    String,
>)
    ensures
        route_step_view(r) == after_create_route(route_table_id@, igw_id@, *output),
{
    if output.success {
        return Ok(RouteStep::Converged);
    }
    let stderr = output.stderr.as_str();
    if contains(stderr, "RouteAlreadyExists") || contains(stderr, "InvalidRoute.Duplicate") {
        return Ok(RouteStep::Replace(route_args("replace-route", route_table_id, igw_id)));
    }
    Err(failure("failed to create route: ", output))
}

/// The view of what follows a replace-route attempt.
pub open spec fn after_replace_route(out: CommandOutput) -> Result<(), Seq<char>> {
    if out.success {
        Ok(())
    } else {
        Err("failed to replace route: "@ + trim_of(out.stderr@))
    }
}

/// The view of a result that carries only a message on failure.
pub open spec fn unit_result(r: Result<(), String>) -> Result<(), Seq<char>> {
    match r {
        Ok(()) => Ok(()),
        Err(e) => Err(e@),
    }
}

/// Reads the reply to the replace-route fallback.
pub fn default_route_after_replace(output: &CommandOutput) -> (r: Result<(), String>)
    ensures
        unit_result(r) == after_replace_route(*output),
{
    if output.success {
        Ok(())
    } else {
        Err(failure("failed to replace route: ", output))
    }
}

/// Repeating the default-route convergence against a route that exists
/// already does not fail: the create conflict turns into a replace of the
/// same route, and a replace that succeeds converges.
pub proof fn route_convergence_falls_back_to_replace(
    route_table_id: Seq<char>,
    igw_id: Seq<char>,
    first: CommandOutput,
    second: CommandOutput,
)
    requires
        !first.success,
        route_conflict(first.stderr@),
        second.success,
    ensures
        after_create_route(route_table_id, igw_id, first) == Ok::<Option<Seq<Seq<char>>>, Seq<char>>(
            Some(route_command("replace-route"@, route_table_id, igw_id)),
        ),
        after_replace_route(second) == Ok::<(), Seq<char>>(()),
{
}

/// The first association of `assocs` that ties subnet `subnet_id` and has an id.
pub open spec fn subnet_association(assocs: Seq<RouteTableAssociation>, subnet_id: Seq<char>) -> Option<Seq<char>>
    decreases assocs.len(),
{
    if assocs.len() == 0 {
        None
    } else if crate::health::is_text(assocs[0].subnet_id, subnet_id) && assocs[0].association_id is Some {
        Some(assocs[0].association_id->Some_0@)
    } else {
        subnet_association(assocs.drop_first(), subnet_id)
    }
}

/// How the subnet's association stands, read from the tables that hold it,
/// in order: `None` where the target table holds it, the id of an
/// association to replace, or nothing found (associate it).
pub open spec fn association_state(tables: Seq<RouteTable>, route_table_id: Seq<char>, subnet_id: Seq<char>) -> Option<
    Option<Seq<char>>,
>
    decreases tables.len(),
{
    if tables.len() == 0 {
        Some(None)
    } else if tables[0].route_table_id@ == route_table_id {
        None
    } else {
        match tables[0].associations {
            Some(a) => match subnet_association(a@, subnet_id) {
                Some(id) => Some(Some(id)),
                None => association_state(tables.drop_first(), route_table_id, subnet_id),
            },
            None => association_state(tables.drop_first(), route_table_id, subnet_id),
        }
    }
}

/// What converging the subnet association takes.
#[derive(Debug)]
pub enum AssociationStep {
    /// The target table holds the subnet already.
    Associated,
    /// Another table holds it: move the association with this command.
    Replace(Vec<String>),
    /// No table holds it: associate with this command.
    Associate(Vec<String>),
}

/// The command that moves association `association_id` to table `route_table_id`.
pub open spec fn replace_association_command(association_id: Seq<char>, route_table_id: Seq<char>) -> Seq<Seq<char>> {
    seq![
        "ec2"@,
        "replace-route-table-association"@,
        "--association-id"@,
        association_id,
        "--route-table-id"@,
        route_table_id,
    ]
}

/// The command that associates subnet `subnet_id` with table `route_table_id`.
pub open spec fn associate_command(route_table_id: Seq<char>, subnet_id: Seq<char>) -> Seq<Seq<char>> {
    seq!["ec2"@, "associate-route-table"@, "--route-table-id"@, route_table_id, "--subnet-id"@, subnet_id]
}

/// The command that lists the route tables associated with a subnet.
pub open spec fn association_lookup_command(subnet_id: Seq<char>) -> Seq<Seq<char>> {
    seq![
        "ec2"@,
        "describe-route-tables"@,
        "--output"@,
        "json"@,
        "--filters"@,
        "Name=association.subnet-id,Values="@ + subnet_id,
    ]
}

pub fn association_lookup_args(subnet_id: &str) -> (r: Vec<String>)
    ensures
        texts(r@) == association_lookup_command(subnet_id@),
{
    let mut filter = String::from_str("Name=association.subnet-id,Values=");
    filter.append(subnet_id);
    let v = aws_args(&["ec2", "describe-route-tables", "--output", "json", "--filters", filter.as_str()]);
    assert(texts(v@) =~= association_lookup_command(subnet_id@));
    v
}

fn find_subnet_association(assocs: &Vec<RouteTableAssociation>, subnet_id: &str) -> (r: Option<String>)
    ensures
        crate::locator::opt_text(r) == subnet_association(assocs@, subnet_id@),
{
    let mut i: usize = 0;
    assert(assocs@.subrange(0, assocs@.len() as int) =~= assocs@);
    while i < assocs.len()
        invariant
            i <= assocs@.len(),
            subnet_association(assocs@, subnet_id@) == subnet_association(
                assocs@.subrange(i as int, assocs@.len() as int),
                subnet_id@,
            ),
        decreases assocs@.len() - i,
    {
        let ghost rest = assocs@.subrange(i as int, assocs@.len() as int);
        assert(rest.drop_first() =~= assocs@.subrange(i + 1, assocs@.len() as int));
        assert(rest[0] == assocs@[i as int]);
        let a = &assocs[i];
        let subnet_matches = match &a.subnet_id {
            Some(s) => str_eq(s.as_str(), subnet_id),
            None => false,
        };
        if subnet_matches {
            match &a.association_id {
                Some(id) => {
                    return Some(id.clone());
                },
                None => {},
            }
        }
        i = i + 1;
    }
    None
}

/// Converges the subnet's association with table `route_table_id`, given the
/// tables that the provider lists for the subnet.
pub fn ensure_route_table_association(route_table_id: &str, subnet_id: &str, tables: &Vec<RouteTable>) -> (r: AssociationStep)
    ensures
        match association_state(tables@, route_table_id@, subnet_id@) {
            None => r is Associated,
            Some(Some(id)) => match r {
                AssociationStep::Replace(a) => texts(a@) == replace_association_command(id, route_table_id@),
                _ => false,
            },
            Some(None) => match r {
                AssociationStep::Associate(a) => texts(a@) == associate_command(route_table_id@, subnet_id@),
                _ => false,
            },
        },
{
    let mut i: usize = 0;
    assert(tables@.subrange(0, tables@.len() as int) =~= tables@);
    while i < tables.len()
        invariant
            i <= tables@.len(),
            association_state(tables@, route_table_id@, subnet_id@) == association_state(
                tables@.subrange(i as int, tables@.len() as int),
                route_table_id@,
                subnet_id@,
            ),
        decreases tables@.len() - i,
    {
        let ghost rest = tables@.subrange(i as int, tables@.len() as int);
        assert(rest.drop_first() =~= tables@.subrange(i + 1, tables@.len() as int));
        assert(rest[0] == tables@[i as int]);
        let table = &tables[i];
        if str_eq(table.route_table_id.as_str(), route_table_id) {
            return AssociationStep::Associated;
        }
        match &table.associations {
            Some(assocs) => {
                match find_subnet_association(assocs, subnet_id) {
                    Some(association_id) => {
                        let v = aws_args(
                            &[
                                "ec2",
                                "replace-route-table-association",
                                "--association-id",
                                association_id.as_str(),
                                "--route-table-id",
                                route_table_id,
                            ],
                        );
                        assert(texts(v@) =~= replace_association_command(association_id@, route_table_id@));
                        return AssociationStep::Replace(v);
                    },
                    None => {},
                }
            },
            None => {},
        }
        i = i + 1;
    }
    let v = aws_args(&["ec2", "associate-route-table", "--route-table-id", route_table_id, "--subnet-id", subnet_id]);
    assert(texts(v@) =~= associate_command(route_table_id@, subnet_id@));
    AssociationStep::Associate(v)
}

/// Reads the reply to an associate call: a report that the subnet is already
/// associated counts as success.
pub open spec fn after_associate(out: CommandOutput) -> Result<(), Seq<char>> {
    if out.success || seq_contains(out.stderr@, "Resource.AlreadyAssociated"@) {
        Ok(())
    } else {
        Err("failed to associate route table: "@ + trim_of(out.stderr@))
    }
}

pub fn association_after_associate(output: &CommandOutput) -> (r: Result<(), String>)
    ensures
        unit_result(r) == after_associate(*output),
{
    if output.success || contains(output.stderr.as_str(), "Resource.AlreadyAssociated") {
        Ok(())
    } else {
        Err(failure("failed to associate route table: ", output))
    }
}

/// The command that creates the cluster's firewall group in network `vpc_id`.
pub open spec fn create_sg_command(cluster: Seq<char>, vpc_id: Seq<char>) -> Seq<Seq<char>> {
    seq![
        "ec2"@,
        "create-security-group"@,
        "--group-name"@,
        resource_name_of(cluster, "sg"@),
        "--description"@,
        "vmcli cluster security group"@,
        "--vpc-id"@,
        vpc_id,
        "--tag-specifications"@,
        tag_spec_of("security-group"@, resource_name_of(cluster, "sg"@), cluster),
        "--query"@,
        "GroupId"@,
        "--output"@,
        "text"@,
    ]
}

pub fn create_security_group_args(cluster: &str, vpc_id: &str) -> (r: Vec<String>)
    ensures
        texts(r@) == create_sg_command(cluster@, vpc_id@),
{
    let name = resource_name(cluster, "sg");
    let tag = tag_spec("security-group", name.as_str(), cluster);
    let v = aws_args(
        &[
            "ec2",
            "create-security-group",
            "--group-name",
            name.as_str(),
            "--description",
            "vmcli cluster security group",
            "--vpc-id",
            vpc_id,
            "--tag-specifications",
            tag.as_str(),
            "--query",
            "GroupId",
            "--output",
            "text",
        ],
    );
    assert(texts(v@) =~= create_sg_command(cluster@, vpc_id@));
    v
}

/// Adopts the cluster's firewall group, or creates it in network `vpc_id`.
/// Ingress is then authorised for each port of `ingress_ports`.
pub fn ensure_security_group(config: &AwsEffectiveConfig, listing: &Vec<TaggedResource>, vpc_id: &str) -> (r: Result<
    EnsureStep,
    LocateError,
>)
    ensures
        ensure_step_for(
            r,
            located_id(listing@, resource_name_of(config.cluster_name@, "sg"@), config.cluster_name@),
            create_sg_command(config.cluster_name@, vpc_id@),
        ),
{
    let found = find_security_group(listing, config.cluster_name.as_str());
    let create = create_security_group_args(config.cluster_name.as_str(), vpc_id);
    ensure_step(found, create)
}

/// The ports that the cluster's firewall group opens.
pub fn ingress_ports() -> (r: Vec<u16>)
    ensures
        r@ == seq![22u16, 80u16, 443u16, 9090u16, 9091u16, 9092u16],
{
    let v: Vec<u16> = vec![22, 80, 443, 9090, 9091, 9092];
    assert(v@ =~= seq![22u16, 80u16, 443u16, 9090u16, 9091u16, 9092u16]);
    v
}

/// The command that opens TCP `port` to everyone in group `sg_id`.
pub open spec fn authorize_command(sg_id: Seq<char>, port: u16) -> Seq<Seq<char>> {
    seq![
        "ec2"@,
        "authorize-security-group-ingress"@,
        "--group-id"@,
        sg_id,
        "--protocol"@,
        "tcp"@,
        "--port"@,
        decimal_of(port as nat),
        "--cidr"@,
        "0.0.0.0/0"@,
    ]
}

pub fn authorize_sg_ingress_args(sg_id: &str, port: u16) -> (r: Vec<String>)
    ensures
        texts(r@) == authorize_command(sg_id@, port),
{
    let p = decimal(port as u64);
    let v = aws_args(
        &["ec2", "authorize-security-group-ingress", "--group-id", sg_id, "--protocol", "tcp", "--port", p.as_str(), "--cidr", "0.0.0.0/0"],
    );
    assert(texts(v@) =~= authorize_command(sg_id@, port));
    v
}

/// Reads the reply to an ingress authorisation: a duplicate rule counts as
/// success, since ingress rules only accumulate.
pub open spec fn after_authorize(out: CommandOutput) -> Result<(), Seq<char>> {
    if out.success || seq_contains(out.stderr@, "InvalidPermission.Duplicate"@) {
        Ok(())
    } else {
        Err("failed to authorize security group ingress: "@ + trim_of(out.stderr@))
    }
}

pub fn authorize_sg_ingress(output: &CommandOutput) -> (r: Result<(), String>)
    ensures
        unit_result(r) == after_authorize(*output),
{
    if output.success || contains(output.stderr.as_str(), "InvalidPermission.Duplicate") {
        Ok(())
    } else {
        Err(failure("failed to authorize security group ingress: ", output))
    }
}

/// The command that tells whether key pair `key_name` exists.
pub open spec fn key_pair_lookup_command(key_name: Seq<char>) -> Seq<Seq<char>> {
    seq!["ec2"@, "describe-key-pairs"@, "--key-names"@, key_name, "--output"@, "json"@]
}

pub fn key_pair_lookup_args(key_name: &str) -> (r: Vec<String>)
    ensures
        texts(r@) == key_pair_lookup_command(key_name@),
{
    let v = aws_args(&["ec2", "describe-key-pairs", "--key-names", key_name, "--output", "json"]);
    assert(texts(v@) =~= key_pair_lookup_command(key_name@));
    v
}

/// Reads the reply to the key-pair existence probe.
pub open spec fn key_pair_presence(out: CommandOutput) -> Result<bool, Seq<char>> {
    if out.success {
        Ok(true)
    } else if seq_contains(out.stderr@, "InvalidKeyPair.NotFound"@) {
        Ok(false)
    } else {
        Err("failed to describe key pairs: "@ + trim_of(out.stderr@))
    }
}

pub fn key_pair_exists(output: &CommandOutput) -> (r: Result<bool, String>)
    ensures
        match r {
            Ok(b) => key_pair_presence(*output) == Ok::<bool, Seq<char>>(b),
            Err(e) => key_pair_presence(*output) == Err::<bool, Seq<char>>(e@),
        },
{
    if output.success {
        Ok(true)
    } else if contains(output.stderr.as_str(), "InvalidKeyPair.NotFound") {
        Ok(false)
    } else {
        Err(failure("failed to describe key pairs: ", output))
    }
}

/// The command that imports the public key at `public_key_path` as the
/// cluster's key pair.
pub open spec fn import_key_command(cluster: Seq<char>, public_key_path: Seq<char>) -> Seq<Seq<char>> {
    seq![
        "ec2"@,
        "import-key-pair"@,
        "--key-name"@,
        resource_name_of(cluster, "key"@),
        "--public-key-material"@,
        "fileb://"@ + public_key_path,
        "--tag-specifications"@,
        tag_spec_of("key-pair"@, resource_name_of(cluster, "key"@), cluster),
    ]
}

/// The cluster's key pair: its name, and the import command where it does
/// not exist yet.
#[derive(Debug)]
pub struct KeyPairPlan {
    pub key_name: String,
    pub import: Option<Vec<String>>,
}

/// Names the cluster's key pair and imports the key at `public_key_path`
/// (home already expanded) unless the pair `exists`.
pub fn ensure_key_pair(config: &AwsEffectiveConfig, exists: bool, public_key_path: &str) -> (r: KeyPairPlan)
    ensures
        r.key_name@ == resource_name_of(config.cluster_name@, "key"@),
        match r.import {
            Some(a) => !exists && texts(a@) == import_key_command(config.cluster_name@, public_key_path@),
            None => exists,
        },
{
    let key_name = resource_name(config.cluster_name.as_str(), "key");
    if exists {
        return KeyPairPlan { key_name, import: None };
    }
    let tag = tag_spec("key-pair", key_name.as_str(), config.cluster_name.as_str());
    let mut material = String::from_str("fileb://");
    material.append(public_key_path);
    let v = aws_args(
        &[
            "ec2",
            "import-key-pair",
            "--key-name",
            key_name.as_str(),
            "--public-key-material",
            material.as_str(),
            "--tag-specifications",
            tag.as_str(),
        ],
    );
    assert(texts(v@) =~= import_key_command(config.cluster_name@, public_key_path@));
    KeyPairPlan { key_name, import: Some(v) }
}

/// The command that deletes key pair `key_name`.
pub open spec fn delete_key_command(key_name: Seq<char>) -> Seq<Seq<char>> {
    seq!["ec2"@, "delete-key-pair"@, "--key-name"@, key_name]
}

/// The delete command for key pair `key_name`, where it exists.
pub fn delete_key_pair_if_exists(exists: bool, key_name: &str) -> (r: Option<Vec<String>>)
    ensures
        match r {
            Some(a) => exists && texts(a@) == delete_key_command(key_name@),
            None => !exists,
        },
{
    if !exists {
        return None;
    }
    let v = aws_args(&["ec2", "delete-key-pair", "--key-name", key_name]);
    assert(texts(v@) =~= delete_key_command(key_name@));
    Some(v)
}

/// The parameter that names the current distribution image.
pub open spec fn image_parameter() -> Seq<char> {
    "/aws/service/canonical/ubuntu/server/24.04/stable/current/amd64/hvm/ebs-gp3/ami-id"@
}

/// The command that looks the current distribution image up.
pub open spec fn image_lookup_command() -> Seq<Seq<char>> {
    seq![
        "ssm"@,
        "get-parameter"@,
        "--name"@,
        image_parameter(),
        "--query"@,
        "Parameter.Value"@,
        "--output"@,
        "text"@,
    ]
}

/// How the image is chosen: pinned by the configuration, or looked up.
#[derive(Debug)]
pub enum ImageStep {
    Pinned(String),
    Lookup(Vec<String>),
}

/// The pinned image where the configuration has one, else its lookup.
pub fn resolve_ami_id(config: &AwsEffectiveConfig) -> (r: ImageStep)
    ensures
        match config.ami_id {
            Some(id) => match r {
                ImageStep::Pinned(p) => p@ == id@,
                _ => false,
            },
            None => match r {
                ImageStep::Lookup(a) => texts(a@) == image_lookup_command(),
                _ => false,
            },
        },
{
    match &config.ami_id {
        Some(id) => ImageStep::Pinned(id.clone()),
        None => {
            let v = aws_args(
                &[
                    "ssm",
                    "get-parameter",
                    "--name",
                    "/aws/service/canonical/ubuntu/server/24.04/stable/current/amd64/hvm/ebs-gp3/ami-id",
                    "--query",
                    "Parameter.Value",
                    "--output",
                    "text",
                ],
            );
            assert(texts(v@) =~= image_lookup_command());
            ImageStep::Lookup(v)
        },
    }
}

/// Why a bring-up step cannot go on.
#[derive(Debug, Clone, Copy, PartialEq, Eq, Structural)]
pub enum ReconcileError {
    /// The image lookup answered with nothing.
    EmptyImageId,
    /// An instance of that name exists in the cluster already.
    DuplicateInstance,
    /// Instances still exist in the network that would be pruned.
    InstancesRemain,
}

/// Accepts the looked-up image id unless it is blank.
pub fn resolved_ami_id(value: &str) -> (r: Result<String, ReconcileError>)
    ensures
        match r {
            Ok(id) => trim_of(value@).len() > 0 && id@ == value@,
            Err(e) => trim_of(value@).len() == 0 && e == ReconcileError::EmptyImageId,
        },
{
    if trim(value).unicode_len() == 0 {
        Err(ReconcileError::EmptyImageId)
    } else {
        Ok(String::from_str(value))
    }
}

/// The command that launches one instance named `name` in the cluster.
pub open spec fn launch_command(
    cluster: Seq<char>,
    name: Seq<char>,
    ami_id: Seq<char>,
    instance_type: Seq<char>,
    subnet_id: Seq<char>,
    sg_id: Seq<char>,
    key_name: Seq<char>,
) -> Seq<Seq<char>> {
    seq![
        "ec2"@,
        "run-instances"@,
        "--image-id"@,
        ami_id,
        "--instance-type"@,
        instance_type,
        "--key-name"@,
        key_name,
        "--subnet-id"@,
        subnet_id,
        "--security-group-ids"@,
        sg_id,
        "--count"@,
        "1"@,
        "--tag-specifications"@,
        tag_spec_of("instance"@, name, cluster),
        "--query"@,
        "Instances[0].InstanceId"@,
        "--output"@,
        "text"@,
    ]
}

/// The launch command for one instance, tagged with its name and cluster.
pub fn launch_instance(
    config: &AwsEffectiveConfig,
    name: &str,
    ami_id: &str,
    instance_type: &str,
    subnet_id: &str,
    sg_id: &str,
    key_name: &str,
) -> (r: Vec<String>)
    ensures
        texts(r@) == launch_command(config.cluster_name@, name@, ami_id@, instance_type@, subnet_id@, sg_id@, key_name@),
{
    let tag = tag_spec("instance", name, config.cluster_name.as_str());
    let v = aws_args(
        &[
            "ec2",
            "run-instances",
            "--image-id",
            ami_id,
            "--instance-type",
            instance_type,
            "--key-name",
            key_name,
            "--subnet-id",
            subnet_id,
            "--security-group-ids",
            sg_id,
            "--count",
            "1",
            "--tag-specifications",
            tag.as_str(),
            "--query",
            "Instances[0].InstanceId",
            "--output",
            "text",
        ],
    );
    assert(texts(v@) =~= launch_command(config.cluster_name@, name@, ami_id@, instance_type@, subnet_id@, sg_id@, key_name@));
    v
}

/// A command on one instance: `ec2 <verb...> --instance-ids <id>`.
pub open spec fn instance_command(verb: Seq<Seq<char>>, instance_id: Seq<char>) -> Seq<Seq<char>> {
    seq!["ec2"@] + verb + seq!["--instance-ids"@, instance_id]
}

/// Blocks until the instance runs.
pub fn wait_for_instance_running(instance_id: &str) -> (r: Vec<String>)
    ensures
        texts(r@) == instance_command(seq!["wait"@, "instance-running"@], instance_id@),
{
    let v = aws_args(&["ec2", "wait", "instance-running", "--instance-ids", instance_id]);
    assert(texts(v@) =~= instance_command(seq!["wait"@, "instance-running"@], instance_id@));
    v
}

/// Blocks until the instance is terminated.
pub fn wait_for_instance_terminated(instance_id: &str) -> (r: Vec<String>)
    ensures
        texts(r@) == instance_command(seq!["wait"@, "instance-terminated"@], instance_id@),
{
    let v = aws_args(&["ec2", "wait", "instance-terminated", "--instance-ids", instance_id]);
    assert(texts(v@) =~= instance_command(seq!["wait"@, "instance-terminated"@], instance_id@));
    v
}

/// Terminates the instance.
pub fn terminate_instance(instance_id: &str) -> (r: Vec<String>)
    ensures
        texts(r@) == instance_command(seq!["terminate-instances"@], instance_id@),
{
    let v = aws_args(&["ec2", "terminate-instances", "--instance-ids", instance_id]);
    assert(texts(v@) =~= instance_command(seq!["terminate-instances"@], instance_id@));
    v
}

/// Reboots the instance.
pub fn reboot_instance(instance_id: &str) -> (r: Vec<String>)
    ensures
        texts(r@) == instance_command(seq!["reboot-instances"@], instance_id@),
{
    let v = aws_args(&["ec2", "reboot-instances", "--instance-ids", instance_id]);
    assert(texts(v@) =~= instance_command(seq!["reboot-instances"@], instance_id@));
    v
}

/// The filters that select the existing instances of a network.
pub open spec fn vpc_instance_filters(vpc_id: Seq<char>) -> Seq<Seq<char>> {
    seq![
        "Name=vpc-id,Values="@ + vpc_id,
        "Name=instance-state-name,Values=pending,running,stopping,stopped,shutting-down"@,
    ]
}

pub fn describe_instances_by_vpc(vpc_id: &str) -> (r: Vec<String>)
    ensures
        texts(r@) == vpc_instance_filters(vpc_id@),
{
    let mut f = String::from_str("Name=vpc-id,Values=");
    f.append(vpc_id);
    let v = aws_args(&[f.as_str(), "Name=instance-state-name,Values=pending,running,stopping,stopped,shutting-down"]);
    assert(texts(v@) =~= vpc_instance_filters(vpc_id@));
    v
}

/// Refuses a launch where an existing instance of the cluster has the name.
pub fn ensure_no_duplicate_instance(cluster: &str, name: &str, instances: &Vec<crate::locator::Instance>) -> (r: Result<
    (),
    ReconcileError,
>)
    ensures
        r is Ok <==> forall|i: int|
            0 <= i < instances@.len() ==> !crate::locator::instance_matches(
                #[trigger] instances@[i],
                name@,
                Some(cluster@),
            ),
        r is Err ==> r == Err::<(), ReconcileError>(ReconcileError::DuplicateInstance),
{
    match crate::locator::locate_instance(instances, name, Some(cluster)) {
        Err(crate::locator::LookupError::NoInstance) => Ok(()),
        Ok(i) => {
            assert(crate::locator::instance_matches(instances@[i as int], name@, Some(cluster@)));
            Err(ReconcileError::DuplicateInstance)
        },
        Err(crate::locator::LookupError::AmbiguousResource) => Err(ReconcileError::DuplicateInstance),
    }
}

/// The listing after an `ensure`: unchanged where the resource was found,
/// else with the resource that its create call made.
pub open spec fn listing_after_ensure(
    listing: Seq<TaggedResource>,
    name: Seq<char>,
    cluster: Seq<char>,
    created: TaggedResource,
) -> Seq<TaggedResource> {
    match located(listing, name, cluster) {
        Ok(None) => listing.push(created),
        _ => listing,
    }
}

/// The id that an `ensure` yields: the one found, or that of the resource
/// its create call made.
pub open spec fn id_after_ensure(
    listing: Seq<TaggedResource>,
    name: Seq<char>,
    cluster: Seq<char>,
    created: TaggedResource,
) -> Seq<char> {
    match located(listing, name, cluster) {
        Ok(Some(i)) => listing[i].id@,
        _ => created.id@,
    }
}

/// An `ensure` repeated with no change in between adopts what the first one
/// yielded: the second lookup finds exactly the resource that the first found
/// or created (a create call tags what it makes with the identity).
pub proof fn ensure_is_idempotent(
    listing: Seq<TaggedResource>,
    name: Seq<char>,
    cluster: Seq<char>,
    created: TaggedResource,
)
    requires
        located(listing, name, cluster) is Ok,
        has_identity(created.tags, name, cluster),
    ensures
        located_id(listing_after_ensure(listing, name, cluster, created), name, cluster)
            == Ok::<Option<Seq<char>>, LocateError>(Some(id_after_ensure(listing, name, cluster, created))),
{
    match located(listing, name, cluster) {
        Ok(None) => {
            let after = listing.push(created);
            let n = listing.len() as int;
            assert(forall|i: int| 0 <= i < n ==> !has_identity(#[trigger] listing[i].tag_list(), name, cluster));
            assert(forall|i: int| 0 <= i < n ==> after[i] == listing[i]);
            assert(has_identity(after[n].tag_list(), name, cluster));
            assert(!exists|i: int, j: int|
                0 <= i < j < after.len() && has_identity(#[trigger] after[i].tag_list(), name, cluster)
                    && has_identity(#[trigger] after[j].tag_list(), name, cluster)) by {
                assert forall|i: int, j: int|
                    0 <= i < j < after.len() implies !(has_identity(#[trigger] after[i].tag_list(), name, cluster)
                        && has_identity(#[trigger] after[j].tag_list(), name, cluster)) by {
                    assert(after[i] == listing[i]);
                }
            }
            let k = choose|i: int| 0 <= i < after.len() && has_identity(#[trigger] after[i].tag_list(), name, cluster);
            if k != n {
                assert(after[k] == listing[k]);
            }
        },
        _ => {},
    }
}

/// A provider report that what a convergence step makes exists already is
/// never a failure: a duplicate ingress rule and an existing association
/// count as done, and an existing route turns into its replacement.
pub proof fn conflicts_are_absorbed(out: CommandOutput, route_table_id: Seq<char>, igw_id: Seq<char>)
    ensures
        seq_contains(out.stderr@, "InvalidPermission.Duplicate"@) ==> after_authorize(out) == Ok::<(), Seq<char>>(()),
        seq_contains(out.stderr@, "Resource.AlreadyAssociated"@) ==> after_associate(out) == Ok::<(), Seq<char>>(()),
        route_conflict(out.stderr@) ==> after_create_route(route_table_id, igw_id, out) is Ok,
{
}

} // verus!
