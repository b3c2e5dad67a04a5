//! The resource locator: finds the one resource of a kind that carries a
//! cluster's identity tags, and refuses to choose where several do.
use vstd::prelude::*;
use crate::naming::{resource_name, resource_name_of, texts};
use crate::text::str_eq;

verus! {

/// A key/value annotation on a provider resource.
#[derive(Debug, Clone)]
pub struct Tag {
    pub key: String,
    pub value: String,
}

/// The value of the first tag with key `key`.
pub open spec fn first_tag(tags: Seq<Tag>, key: Seq<char>) -> Option<Seq<char>>
    decreases tags.len(),
{
    if tags.len() == 0 {
        None
    } else if tags[0].key@ == key {
        Some(tags[0].value@)
    } else {
        first_tag(tags.drop_first(), key)
    }
}

/// The value of the tag `key`, where there are tags.
pub open spec fn tag_of(tags: Option<Vec<Tag>>, key: Seq<char>) -> Option<Seq<char>> {
    match tags {
        Some(v) => first_tag(v@, key),
        None => None,
    }
}

/// The view of an optional text.
pub open spec fn opt_text(o: Option<String>) -> Option<Seq<char>> {
    match o {
        Some(s) => Some(s@),
        None => None,
    }
}

/// The value of the first tag with key `key`.
pub fn tag_value(tags: &Option<Vec<Tag>>, key: &str) -> (r: Option<String>)
    ensures
        opt_text(r) == tag_of(*tags, key@),
{
    match tags {
        Some(v) => {
            let mut i: usize = 0;
            assert(v@.subrange(0, v@.len() as int) =~= v@);
            while i < v.len()
                invariant
                    *tags == Some(*v),
                    i <= v@.len(),
                    first_tag(v@, key@) == first_tag(v@.subrange(i as int, v@.len() as int), key@),
                decreases v@.len() - i,
            {
                assert(v@.subrange(i as int, v@.len() as int).drop_first() =~= v@.subrange(
                    i + 1,
                    v@.len() as int,
                ));
                assert(v@.subrange(i as int, v@.len() as int)[0] == v@[i as int]);
                if str_eq(v[i].key.as_str(), key) {
                    assert(first_tag(v@.subrange(i as int, v@.len() as int), key@) == Some(v@[i as int].value@));
                    let value = v[i].value.clone();
                    return Some(value);
                }
                i = i + 1;
            }
            None
        },
        None => None,
    }
}

/// A resource that carries identity tags.
pub trait Tagged {
    /// Its tags.
    spec fn tag_list(&self) -> Option<Vec<Tag>>;

    /// Its provider-assigned identifier.
    spec fn ident(&self) -> Seq<char>;

    fn tags(&self) -> (r: &Option<Vec<Tag>>)
        ensures
            *r == self.tag_list(),
    ;

    fn id(&self) -> (r: &String)
        ensures
            r@ == self.ident(),
    ;
}

/// A network, subnet or firewall group as the provider lists it.
#[derive(Debug, Clone)]
pub struct TaggedResource {
    pub id: String,
    pub tags: Option<Vec<Tag>>,
}

impl Tagged for TaggedResource {
    open spec fn tag_list(&self) -> Option<Vec<Tag>> {
        self.tags
    }

    open spec fn ident(&self) -> Seq<char> {
        self.id@
    }

    fn tags(&self) -> (r: &Option<Vec<Tag>>) {
        &self.tags
    }

    fn id(&self) -> (r: &String) {
        &self.id
    }
}

/// One attachment of an internet gateway.
#[derive(Debug, Clone)]
pub struct InternetGatewayAttachment {
    pub vpc_id: Option<String>,
}

/// An internet gateway as the provider lists it.
#[derive(Debug, Clone)]
pub struct InternetGateway {
    pub internet_gateway_id: String,
    pub attachments: Option<Vec<InternetGatewayAttachment>>,
    pub tags: Option<Vec<Tag>>,
}

impl Tagged for InternetGateway {
    open spec fn tag_list(&self) -> Option<Vec<Tag>> {
        self.tags
    }

    open spec fn ident(&self) -> Seq<char> {
        self.internet_gateway_id@
    }

    fn tags(&self) -> (r: &Option<Vec<Tag>>) {
        &self.tags
    }

    fn id(&self) -> (r: &String) {
        &self.internet_gateway_id
    }
}

/// One subnet association of a route table.
#[derive(Debug, Clone)]
pub struct RouteTableAssociation {
    pub subnet_id: Option<String>,
    pub association_id: Option<String>,
    pub main: Option<bool>,
}

/// A route table as the provider lists it.
#[derive(Debug, Clone)]
pub struct RouteTable {
    pub route_table_id: String,
    pub associations: Option<Vec<RouteTableAssociation>>,
    pub tags: Option<Vec<Tag>>,
}

impl Tagged for RouteTable {
    open spec fn tag_list(&self) -> Option<Vec<Tag>> {
        self.tags
    }

    open spec fn ident(&self) -> Seq<char> {
        self.route_table_id@
    }

    fn tags(&self) -> (r: &Option<Vec<Tag>>) {
        &self.tags
    }

    fn id(&self) -> (r: &String) {
        &self.route_table_id
    }
}

/// Why a lookup found no single resource.
#[derive(Debug, Clone, Copy, PartialEq, Eq, Structural)]
pub enum LocateError {
    /// More than one resource carries the identity.
    AmbiguousResource,
}

/// The resource carries the identity `Name == name` and `Cluster == cluster`.
pub open spec fn has_identity(tags: Option<Vec<Tag>>, name: Seq<char>, cluster: Seq<char>) -> bool {
    tag_of(tags, "Name"@) == Some(name) && tag_of(tags, "Cluster"@) == Some(cluster)
}

/// What a lookup of the identity `(name, cluster)` in `listing` gives: nothing
/// where no resource carries it, the position of the only one that does, and
/// an ambiguity where two or more do.
pub open spec fn located<T: Tagged>(listing: Seq<T>, name: Seq<char>, cluster: Seq<char>) -> Result<
    Option<int>,
    LocateError,
> {
    if exists|i: int, j: int|
        0 <= i < j < listing.len() && has_identity(#[trigger] listing[i].tag_list(), name, cluster)
            && has_identity(#[trigger] listing[j].tag_list(), name, cluster) {
        Err(LocateError::AmbiguousResource)
    } else if exists|i: int|
        0 <= i < listing.len() && has_identity(#[trigger] listing[i].tag_list(), name, cluster) {
        Ok(Some(choose|i: int| 0 <= i < listing.len() && has_identity(#[trigger] listing[i].tag_list(), name, cluster)))
    } else {
        Ok(None)
    }
}

/// Whether a resource carries the identity `(name, cluster)`.
pub fn carries_identity(tags: &Option<Vec<Tag>>, name: &str, cluster: &str) -> (r: bool)
    ensures
        r == has_identity(*tags, name@, cluster@),
{
    let n = tag_value(tags, "Name");
    let c = tag_value(tags, "Cluster");
    match (n, c) {
        (Some(n), Some(c)) => str_eq(n.as_str(), name) && str_eq(c.as_str(), cluster),
        _ => false,
    }
}

/// Finds the position of the one resource of `listing` that carries the identity
/// `(name, cluster)`.
pub fn locate<T: Tagged>(listing: &Vec<T>, name: &str, cluster: &str) -> (r: Result<Option<usize>, LocateError>)
    ensures
        match r {
            Ok(Some(i)) => located(listing@, name@, cluster@) == Ok::<Option<int>, LocateError>(Some(i as int)),
            Ok(None) => located(listing@, name@, cluster@) == Ok::<Option<int>, LocateError>(None),
            Err(e) => located(listing@, name@, cluster@) == Err::<Option<int>, LocateError>(e),
        },
{
    let mut found: Option<usize> = None;
    let mut i: usize = 0;
    while i < listing.len()
        invariant
            i <= listing@.len(),
            match found {
                Some(f) => f < i && has_identity(listing@[f as int].tag_list(), name@, cluster@)
                    && forall|j: int|
                    0 <= j < i && j != f ==> !has_identity(#[trigger] listing@[j].tag_list(), name@, cluster@),
                None => forall|j: int|
                    0 <= j < i ==> !has_identity(#[trigger] listing@[j].tag_list(), name@, cluster@),
            },
        decreases listing@.len() - i,
    {
        if carries_identity(listing[i].tags(), name, cluster) {
            match found {
                Some(f) => {
                    assert(has_identity(listing@[f as int].tag_list(), name@, cluster@));
                    assert(has_identity(listing@[i as int].tag_list(), name@, cluster@));
                    return Err(LocateError::AmbiguousResource);
                },
                None => {
                    found = Some(i);
                },
            }
        }
        i = i + 1;
    }
    match found {
        Some(f) => {
            assert(has_identity(listing@[f as int].tag_list(), name@, cluster@));
            Ok(Some(f))
        },
        None => Ok(None),
    }
}

/// The view of an optional identifier.
pub open spec fn located_id<T: Tagged>(listing: Seq<T>, name: Seq<char>, cluster: Seq<char>) -> Result<
    Option<Seq<char>>,
    LocateError,
> {
    match located(listing, name, cluster) {
        Ok(Some(i)) => Ok(Some(listing[i].ident())),
        Ok(None) => Ok(None),
        Err(e) => Err(e),
    }
}

/// The view of a lookup's result.
pub open spec fn found_view(r: Result<Option<String>, LocateError>) -> Result<Option<Seq<char>>, LocateError> {
    match r {
        Ok(Some(s)) => Ok(Some(s@)),
        Ok(None) => Ok(None),
        Err(e) => Err(e),
    }
}

/// The identifier of the cluster's resource of the kind with suffix `suffix`.
pub fn find_by_kind<T: Tagged>(listing: &Vec<T>, cluster: &str, suffix: &str) -> (r: Result<
    Option<String>,
    LocateError,
>)
    ensures
        found_view(r) == located_id(listing@, resource_name_of(cluster@, suffix@), cluster@),
{
    let name = resource_name(cluster, suffix);
    match locate(listing, name.as_str(), cluster) {
        Ok(Some(i)) => Ok(Some(listing[i].id().clone())),
        Ok(None) => Ok(None),
        Err(e) => Err(e),
    }
}

/// The cluster's virtual network, if there is one.
pub fn find_vpc(listing: &Vec<TaggedResource>, cluster: &str) -> (r: Result<Option<String>, LocateError>)
    ensures
        found_view(r) == located_id(listing@, resource_name_of(cluster@, "vpc"@), cluster@),
{
    find_by_kind(listing, cluster, "vpc")
}

/// The cluster's subnet, if there is one.
pub fn find_subnet(listing: &Vec<TaggedResource>, cluster: &str) -> (r: Result<Option<String>, LocateError>)
    ensures
        found_view(r) == located_id(listing@, resource_name_of(cluster@, "subnet"@), cluster@),
{
    find_by_kind(listing, cluster, "subnet")
}

/// The cluster's firewall group, if there is one.
pub fn find_security_group(listing: &Vec<TaggedResource>, cluster: &str) -> (r: Result<
    Option<String>,
    LocateError,
>)
    ensures
        found_view(r) == located_id(listing@, resource_name_of(cluster@, "sg"@), cluster@),
{
    find_by_kind(listing, cluster, "sg")
}

/// The cluster's internet gateway, if there is one.
pub fn find_internet_gateway(listing: Vec<InternetGateway>, cluster: &str) -> (r: Result<
    Option<InternetGateway>,
    LocateError,
>)
    ensures
        match r {
            Ok(Some(g)) => exists|i: int|
                located(listing@, resource_name_of(cluster@, "igw"@), cluster@) == Ok::<Option<int>, LocateError>(Some(i))
                    && listing@[i] == g,
            Ok(None) => located(listing@, resource_name_of(cluster@, "igw"@), cluster@) == Ok::<Option<int>, LocateError>(None),
            Err(e) => located(listing@, resource_name_of(cluster@, "igw"@), cluster@) == Err::<Option<int>, LocateError>(e),
        },
{
    let name = resource_name(cluster, "igw");
    let mut listing = listing;
    match locate(&listing, name.as_str(), cluster) {
        Ok(Some(i)) => Ok(Some(listing.remove(i))),
        Ok(None) => Ok(None),
        Err(e) => Err(e),
    }
}

/// The cluster's route table, if there is one.
pub fn find_route_table(listing: Vec<RouteTable>, cluster: &str) -> (r: Result<Option<RouteTable>, LocateError>)
    ensures
        match r {
            Ok(Some(t)) => exists|i: int|
                located(listing@, resource_name_of(cluster@, "rt"@), cluster@) == Ok::<Option<int>, LocateError>(Some(i))
                    && listing@[i] == t,
            Ok(None) => located(listing@, resource_name_of(cluster@, "rt"@), cluster@) == Ok::<Option<int>, LocateError>(None),
            Err(e) => located(listing@, resource_name_of(cluster@, "rt"@), cluster@) == Err::<Option<int>, LocateError>(e),
        },
{
    let name = resource_name(cluster, "rt");
    let mut listing = listing;
    match locate(&listing, name.as_str(), cluster) {
        Ok(Some(i)) => Ok(Some(listing.remove(i))),
        Ok(None) => Ok(None),
        Err(e) => Err(e),
    }
}

/// The lifecycle state of an instance.
#[derive(Debug, Clone)]
pub struct InstanceState {
    pub name: String,
}

/// Where an instance was placed.
#[derive(Debug, Clone)]
pub struct InstancePlacement {
    pub availability_zone: Option<String>,
}

/// A firewall group attached to an instance.
#[derive(Debug, Clone)]
pub struct InstanceSecurityGroupRef {
    pub group_id: Option<String>,
}

/// A compute instance as the provider lists it.
#[derive(Debug, Clone)]
pub struct Instance {
    pub instance_id: String,
    pub state: InstanceState,
    pub placement: Option<InstancePlacement>,
    pub vpc_id: Option<String>,
    pub subnet_id: Option<String>,
    pub public_ip: Option<String>,
    pub private_ip: Option<String>,
    pub security_groups: Option<Vec<InstanceSecurityGroupRef>>,
    pub tags: Option<Vec<Tag>>,
}

/// The states in which an instance still exists.
pub open spec fn non_terminated(state: Seq<char>) -> bool {
    state == "pending"@ || state == "running"@ || state == "stopping"@ || state == "stopped"@
        || state == "shutting-down"@
}

/// Whether an instance in `state` still exists.
pub fn is_non_terminated(state: &str) -> (r: bool)
    ensures
        r == non_terminated(state@),
{
    str_eq(state, "pending") || str_eq(state, "running") || str_eq(state, "stopping") || str_eq(
        state,
        "stopped",
    ) || str_eq(state, "shutting-down")
}

/// The instance still exists and carries the `Name` tag `name` and, where
/// `cluster` is given, the `Cluster` tag `cluster`.
pub open spec fn instance_matches(inst: Instance, name: Seq<char>, cluster: Option<Seq<char>>) -> bool {
    tag_of(inst.tags, "Name"@) == Some(name) && match cluster {
        Some(c) => tag_of(inst.tags, "Cluster"@) == Some(c),
        None => true,
    } && non_terminated(inst.state.name@)
}

/// Why an instance lookup found no single instance.
#[derive(Debug, Clone, Copy, PartialEq, Eq, Structural)]
pub enum LookupError {
    /// No existing instance matches.
    NoInstance,
    /// Several existing instances match.
    AmbiguousResource,
}

/// What an instance lookup gives: the position of the one matching instance,
/// or why there is none.
pub open spec fn instance_located(instances: Seq<Instance>, name: Seq<char>, cluster: Option<Seq<char>>) -> Result<
    int,
    LookupError,
> {
    if exists|i: int, j: int|
        0 <= i < j < instances.len() && instance_matches(#[trigger] instances[i], name, cluster)
            && instance_matches(#[trigger] instances[j], name, cluster) {
        Err(LookupError::AmbiguousResource)
    } else if exists|i: int| 0 <= i < instances.len() && instance_matches(#[trigger] instances[i], name, cluster) {
        Ok(choose|i: int| 0 <= i < instances.len() && instance_matches(#[trigger] instances[i], name, cluster))
    } else {
        Err(LookupError::NoInstance)
    }
}

fn instance_matches_exec(inst: &Instance, name: &str, cluster: Option<&str>) -> (r: bool)
    ensures
        r == instance_matches(*inst, name@, match cluster {
            Some(c) => Some(c@),
            None => None,
        }),
{
    let n = tag_value(&inst.tags, "Name");
    let name_ok = match n {
        Some(n) => str_eq(n.as_str(), name),
        None => false,
    };
    let cluster_ok = match cluster {
        Some(c) => match tag_value(&inst.tags, "Cluster") {
            Some(t) => str_eq(t.as_str(), c),
            None => false,
        },
        None => true,
    };
    name_ok && cluster_ok && is_non_terminated(inst.state.name.as_str())
}

/// The position of the one existing instance named `name` (in `cluster`,
/// where given).
pub fn locate_instance(instances: &Vec<Instance>, name: &str, cluster: Option<&str>) -> (r: Result<usize, LookupError>)
    ensures
        match r {
            Ok(i) => instance_located(instances@, name@, match cluster {
                Some(c) => Some(c@),
                None => None,
            }) == Ok::<int, LookupError>(i as int),
            Err(e) => instance_located(instances@, name@, match cluster {
                Some(c) => Some(c@),
                None => None,
            }) == Err::<int, LookupError>(e),
        },
{
    let ghost cl = match cluster {
        Some(c) => Some(c@),
        None => None,
    };
    let mut found: Option<usize> = None;
    let mut i: usize = 0;
    while i < instances.len()
        invariant
            cl == match cluster {
                Some(c) => Some(c@),
                None => None::<Seq<char>>,
            },
            i <= instances@.len(),
            match found {
                Some(f) => f < i && instance_matches(instances@[f as int], name@, cl) && forall|j: int|
                    0 <= j < i && j != f ==> !instance_matches(#[trigger] instances@[j], name@, cl),
                None => forall|j: int| 0 <= j < i ==> !instance_matches(#[trigger] instances@[j], name@, cl),
            },
        decreases instances@.len() - i,
    {
        if instance_matches_exec(&instances[i], name, cluster) {
            match found {
                Some(f) => {
                    assert(instance_matches(instances@[f as int], name@, cl));
                    assert(instance_matches(instances@[i as int], name@, cl));
                    return Err(LookupError::AmbiguousResource);
                },
                None => {
                    found = Some(i);
                },
            }
        }
        i = i + 1;
    }
    match found {
        Some(f) => {
            assert(instance_matches(instances@[f as int], name@, cl));
            Ok(f)
        },
        None => Err(LookupError::NoInstance),
    }
}

/// The one existing instance named `name`, in any cluster.
pub fn find_instance_by_name(instances: Vec<Instance>, name: &str) -> (r: Result<Instance, LookupError>)
    ensures
        match r {
            Ok(inst) => exists|i: int|
                instance_located(instances@, name@, None) == Ok::<int, LookupError>(i) && instances@[i] == inst,
            Err(e) => instance_located(instances@, name@, None) == Err::<int, LookupError>(e),
        },
{
    let mut instances = instances;
    match locate_instance(&instances, name, None) {
        Ok(i) => Ok(instances.remove(i)),
        Err(e) => Err(e),
    }
}

/// The one existing instance named `name` in `cluster`.
pub fn find_instance_by_cluster_and_name(instances: Vec<Instance>, cluster: &str, name: &str) -> (r: Result<
    Instance,
    LookupError,
>)
    ensures
        match r {
            Ok(inst) => exists|i: int|
                instance_located(instances@, name@, Some(cluster@)) == Ok::<int, LookupError>(i)
                    && instances@[i] == inst,
            Err(e) => instance_located(instances@, name@, Some(cluster@)) == Err::<int, LookupError>(e),
        },
{
    let mut instances = instances;
    match locate_instance(&instances, name, Some(cluster)) {
        Ok(i) => Ok(instances.remove(i)),
        Err(e) => Err(e),
    }
}

/// The placement zone of an instance, if it has one.
pub fn instance_availability_zone(instance: &Instance) -> (r: Option<&str>)
    ensures
        match r {
            Some(z) => exists|p: InstancePlacement, s: String|
                instance.placement == Some(p) && p.availability_zone == Some(s) && z@ == s@,
            None => match instance.placement {
                Some(p) => p.availability_zone is None,
                None => true,
            },
        },
{
    match &instance.placement {
        Some(p) => match &p.availability_zone {
            Some(z) => Some(z.as_str()),
            None => None,
        },
        None => None,
    }
}

/// The distinct firewall group ids of `refs`, in order of first appearance.
pub open spec fn distinct_group_ids(refs: Seq<InstanceSecurityGroupRef>) -> Seq<Seq<char>>
    decreases refs.len(),
{
    if refs.len() == 0 {
        Seq::empty()
    } else {
        let prev = distinct_group_ids(refs.drop_last());
        match refs.last().group_id {
            Some(g) => if prev.contains(g@) {
                prev
            } else {
                prev.push(g@)
            },
            None => prev,
        }
    }
}

/// The distinct firewall groups attached to an instance, in order.
pub open spec fn instance_group_ids(instance: Instance) -> Seq<Seq<char>> {
    match instance.security_groups {
        Some(v) => distinct_group_ids(v@),
        None => Seq::empty(),
    }
}

fn holds_text(ids: &Vec<String>, id: &str) -> (r: bool)
    ensures
        r == texts(ids@).contains(id@),
{
    let mut i: usize = 0;
    while i < ids.len()
        invariant
            i <= ids@.len(),
            forall|k: int| 0 <= k < i ==> ids@[k]@ != id@,
        decreases ids@.len() - i,
    {
        if str_eq(ids[i].as_str(), id) {
            assert(texts(ids@)[i as int] == id@);
            return true;
        }
        i = i + 1;
    }
    assert(!texts(ids@).contains(id@)) by {
        if texts(ids@).contains(id@) {
            let k = choose|k: int| 0 <= k < texts(ids@).len() && texts(ids@)[k] == id@;
            assert(ids@[k]@ == id@);
        }
    }
    false
}

/// The distinct firewall group ids attached to an instance, in order.
pub fn instance_security_group_ids(instance: &Instance) -> (r: Vec<String>)
    ensures
        texts(r@) == instance_group_ids(*instance),
{
    let mut ids: Vec<String> = Vec::new();
    match &instance.security_groups {
        Some(groups) => {
            let mut i: usize = 0;
            while i < groups.len()
                invariant
                    instance.security_groups == Some(*groups),
                    i <= groups@.len(),
                    texts(ids@) == distinct_group_ids(groups@.subrange(0, i as int)),
                decreases groups@.len() - i,
            {
                assert(groups@.subrange(0, i + 1).drop_last() =~= groups@.subrange(0, i as int));
                match &groups[i].group_id {
                    Some(group_id) => {
                        if !holds_text(&ids, group_id.as_str()) {
                            let ghost prev = ids@;
                            let item = group_id.clone();
                            ids.push(item);
                            assert(texts(ids@) =~= texts(prev).push(item@));
                        }
                    },
                    None => {},
                }
                i = i + 1;
            }
            assert(groups@.subrange(0, groups@.len() as int) =~= groups@);
        },
        None => {
            assert(texts(ids@) =~= Seq::<Seq<char>>::empty());
        },
    }
    ids
}

/// A lookup finds nothing where no resource carries the identity, and
/// refuses to choose where two or more carry it.
pub proof fn lookup_none_or_ambiguous<T: Tagged>(listing: Seq<T>, name: Seq<char>, cluster: Seq<char>, i: int, j: int)
    ensures
        (forall|k: int| 0 <= k < listing.len() ==> !has_identity(#[trigger] listing[k].tag_list(), name, cluster))
            ==> located(listing, name, cluster) == Ok::<Option<int>, LocateError>(None),
        (0 <= i < listing.len() && 0 <= j < listing.len() && i != j && has_identity(listing[i].tag_list(), name, cluster)
            && has_identity(listing[j].tag_list(), name, cluster)) ==> located(listing, name, cluster) == Err::<
            Option<int>,
            LocateError,
        >(LocateError::AmbiguousResource),
{
    if 0 <= i < listing.len() && 0 <= j < listing.len() && i != j && has_identity(listing[i].tag_list(), name, cluster)
        && has_identity(listing[j].tag_list(), name, cluster) {
        if i < j {
            assert(has_identity(listing[i].tag_list(), name, cluster) && has_identity(listing[j].tag_list(), name, cluster));
        } else {
            assert(has_identity(listing[j].tag_list(), name, cluster) && has_identity(listing[i].tag_list(), name, cluster));
        }
    }
}

} // verus!
