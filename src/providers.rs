//! The lookups and small decisions of the other providers, whose listings
//! are keyed by instance name and marked by a cluster tag or label.
use vstd::prelude::*;
use vstd::multiset::Multiset;
use crate::locator::Tag;
use crate::config::{DropletEffectiveConfig, GceEffectiveConfig, LightsailEffectiveConfig};
use crate::text::{trim, trim_of};
use crate::naming::{aws_args, last_segment, sanitize_cloud_identifier, sanitized, texts, zone_name_from_path};
use crate::text::{ascii_lower, eq_ignore_ascii_case, str_eq};

verus! {

/// A Lightsail instance of a cluster.
#[derive(Debug, Clone)]
pub struct LightsailInstanceInfo {
    pub name: String,
    pub state: String,
    pub public_ip: Option<String>,
}

/// A Compute Engine instance of a cluster.
#[derive(Debug, Clone)]
pub struct GceInstanceInfo {
    pub name: String,
    pub instance_id: String,
    pub state: String,
    pub zone: Option<String>,
    pub public_ip: Option<String>,
}

/// A droplet of a cluster.
#[derive(Debug, Clone)]
pub struct DropletInfo {
    pub id: u64,
    pub name: String,
    pub state: String,
    pub public_ip: Option<String>,
    pub region: Option<String>,
}

/// The position of the first element named `name`, given the names.
pub open spec fn first_named(names: Seq<Seq<char>>, name: Seq<char>) -> Option<int> {
    if exists|i: int| 0 <= i < names.len() && names[i] == name {
        Some(choose|i: int| 0 <= i < names.len() && names[i] == name && forall|j: int| 0 <= j < i ==> names[j] != name)
    } else {
        None
    }
}

/// The names of Lightsail instances.
pub open spec fn lightsail_names(v: Seq<LightsailInstanceInfo>) -> Seq<Seq<char>> {
    v.map_values(|i: LightsailInstanceInfo| i.name@)
}

/// The names of Compute Engine instances.
pub open spec fn gce_names(v: Seq<GceInstanceInfo>) -> Seq<Seq<char>> {
    v.map_values(|i: GceInstanceInfo| i.name@)
}

/// The names of droplets.
pub open spec fn droplet_names(v: Seq<DropletInfo>) -> Seq<Seq<char>> {
    v.map_values(|i: DropletInfo| i.name@)
}

/// The first position at which `names` holds `name`.
fn position_of(names: &Vec<String>, name: &str) -> (r: Option<usize>)
    ensures
        match r {
            Some(i) => i < names@.len() && first_named(texts(names@), name@) == Some(i as int),
            None => first_named(texts(names@), name@) is None,
        },
{
    let ghost t = texts(names@);
    let mut i: usize = 0;
    while i < names.len()
        invariant
            t == texts(names@),
            i <= names@.len(),
            forall|j: int| 0 <= j < i ==> t[j] != name@,
        decreases names@.len() - i,
    {
        if str_eq(names[i].as_str(), name) {
            assert(t[i as int] == name@);
            let ghost k = choose|k: int| 0 <= k < t.len() && t[k] == name@ && forall|j: int| 0 <= j < k ==> t[j] != name@;
            assert(k == i) by {
                if k < i {
                    assert(t[k] != name@);
                } else if k > i {
                    assert(t[i as int] != name@);
                }
            }
            return Some(i);
        }
        i = i + 1;
    }
    None
}

fn lightsail_name_list(v: &Vec<LightsailInstanceInfo>) -> (r: Vec<String>)
    ensures
        texts(r@) == lightsail_names(v@),
{
    let mut out: Vec<String> = Vec::new();
    let mut i: usize = 0;
    while i < v.len()
        invariant
            i <= v@.len(),
            texts(out@) == lightsail_names(v@.subrange(0, i as int)),
        decreases v@.len() - i,
    {
        let ghost prev = out@;
        let n = v[i].name.clone();
        out.push(n);
        assert(texts(out@) =~= texts(prev).push(n@));
        assert(lightsail_names(v@.subrange(0, i + 1)) =~= lightsail_names(v@.subrange(0, i as int)).push(v@[i as int].name@));
        i = i + 1;
    }
    assert(v@.subrange(0, v@.len() as int) =~= v@);
    out
}

fn gce_name_list(v: &Vec<GceInstanceInfo>) -> (r: Vec<String>)
    ensures
        texts(r@) == gce_names(v@),
{
    let mut out: Vec<String> = Vec::new();
    let mut i: usize = 0;
    while i < v.len()
        invariant
            i <= v@.len(),
            texts(out@) == gce_names(v@.subrange(0, i as int)),
        decreases v@.len() - i,
    {
        let ghost prev = out@;
        let n = v[i].name.clone();
        out.push(n);
        assert(texts(out@) =~= texts(prev).push(n@));
        assert(gce_names(v@.subrange(0, i + 1)) =~= gce_names(v@.subrange(0, i as int)).push(v@[i as int].name@));
        i = i + 1;
    }
    assert(v@.subrange(0, v@.len() as int) =~= v@);
    out
}

fn droplet_name_list(v: &Vec<DropletInfo>) -> (r: Vec<String>)
    ensures
        texts(r@) == droplet_names(v@),
{
    let mut out: Vec<String> = Vec::new();
    let mut i: usize = 0;
    while i < v.len()
        invariant
            i <= v@.len(),
            texts(out@) == droplet_names(v@.subrange(0, i as int)),
        decreases v@.len() - i,
    {
        let ghost prev = out@;
        let n = v[i].name.clone();
        out.push(n);
        assert(texts(out@) =~= texts(prev).push(n@));
        assert(droplet_names(v@.subrange(0, i + 1)) =~= droplet_names(v@.subrange(0, i as int)).push(v@[i as int].name@));
        i = i + 1;
    }
    assert(v@.subrange(0, v@.len() as int) =~= v@);
    out
}

/// The cluster's Lightsail instance named `name`: the first such in the listing.
pub fn lightsail_find_instance(instances: Vec<LightsailInstanceInfo>, name: &str) -> (r: Option<LightsailInstanceInfo>)
    ensures
        match first_named(lightsail_names(instances@), name@) {
            Some(i) => r == Some(instances@[i]),
            None => r is None,
        },
{
    let names = lightsail_name_list(&instances);
    assert(texts(names@).len() == names@.len());
    let mut instances = instances;
    match position_of(&names, name) {
        Some(i) => Some(instances.remove(i)),
        None => None,
    }
}

/// The cluster's Compute Engine instance named `name`: the first such in the listing.
pub fn gce_find_instance(instances: Vec<GceInstanceInfo>, name: &str) -> (r: Option<GceInstanceInfo>)
    ensures
        match first_named(gce_names(instances@), name@) {
            Some(i) => r == Some(instances@[i]),
            None => r is None,
        },
{
    let names = gce_name_list(&instances);
    assert(texts(names@).len() == names@.len());
    let mut instances = instances;
    match position_of(&names, name) {
        Some(i) => Some(instances.remove(i)),
        None => None,
    }
}

/// The cluster's droplet named `name`: the first such in the listing.
pub fn droplet_find_instance(instances: Vec<DropletInfo>, name: &str) -> (r: Option<DropletInfo>)
    ensures
        match first_named(droplet_names(instances@), name@) {
            Some(i) => r == Some(instances@[i]),
            None => r is None,
        },
{
    let names = droplet_name_list(&instances);
    assert(texts(names@).len() == names@.len());
    let mut instances = instances;
    match position_of(&names, name) {
        Some(i) => Some(instances.remove(i)),
        None => None,
    }
}

/// Some tag of the instance is `Cluster = cluster`.
pub open spec fn has_cluster_tag(tags: Seq<Tag>, cluster: Seq<char>) -> bool {
    exists|i: int| 0 <= i < tags.len() && (#[trigger] tags[i]).key@ == "Cluster"@ && tags[i].value@ == cluster
}

/// Whether a Lightsail instance carries the cluster's tag.
pub fn lightsail_has_cluster_tag(tags: &Vec<Tag>, cluster: &str) -> (r: bool)
    ensures
        r == has_cluster_tag(tags@, cluster@),
{
    let mut i: usize = 0;
    while i < tags.len()
        invariant
            i <= tags@.len(),
            forall|k: int| 0 <= k < i ==> !((#[trigger] tags@[k]).key@ == "Cluster"@ && tags@[k].value@ == cluster@),
        decreases tags@.len() - i,
    {
        if str_eq(tags[i].key.as_str(), "Cluster") && str_eq(tags[i].value.as_str(), cluster) {
            return true;
        }
        i = i + 1;
    }
    false
}

/// One access configuration of a network interface.
#[derive(Debug, Clone)]
pub struct GceAccessConfig {
    pub nat_ip: Option<String>,
}

/// One network interface of a Compute Engine instance.
#[derive(Debug, Clone)]
pub struct GceNetworkInterface {
    pub access_configs: Vec<GceAccessConfig>,
}

/// The first external address over the interfaces' access configurations.
pub open spec fn first_nat_ip(interfaces: Seq<GceNetworkInterface>) -> Option<Seq<char>>
    decreases interfaces.len(),
{
    if interfaces.len() == 0 {
        None
    } else {
        match first_config_ip(interfaces[0].access_configs@) {
            Some(ip) => Some(ip),
            None => first_nat_ip(interfaces.drop_first()),
        }
    }
}

/// The first external address of a list of access configurations.
pub open spec fn first_config_ip(configs: Seq<GceAccessConfig>) -> Option<Seq<char>>
    decreases configs.len(),
{
    if configs.len() == 0 {
        None
    } else {
        match configs[0].nat_ip {
            Some(ip) => Some(ip@),
            None => first_config_ip(configs.drop_first()),
        }
    }
}

fn config_ip(configs: &Vec<GceAccessConfig>) -> (r: Option<String>)
    ensures
        crate::locator::opt_text(r) == first_config_ip(configs@),
{
    let mut i: usize = 0;
    assert(configs@.subrange(0, configs@.len() as int) =~= configs@);
    while i < configs.len()
        invariant
            i <= configs@.len(),
            first_config_ip(configs@) == first_config_ip(configs@.subrange(i as int, configs@.len() as int)),
        decreases configs@.len() - i,
    {
        let ghost rest = configs@.subrange(i as int, configs@.len() as int);
        assert(rest.drop_first() =~= configs@.subrange(i + 1, configs@.len() as int));
        assert(rest[0] == configs@[i as int]);
        match &configs[i].nat_ip {
            Some(ip) => {
                return Some(ip.clone());
            },
            None => {},
        }
        i = i + 1;
    }
    None
}

/// The external address of a Compute Engine instance, if it has one.
pub fn gce_public_ip(interfaces: &Vec<GceNetworkInterface>) -> (r: Option<String>)
    ensures
        crate::locator::opt_text(r) == first_nat_ip(interfaces@),
{
    let mut i: usize = 0;
    assert(interfaces@.subrange(0, interfaces@.len() as int) =~= interfaces@);
    while i < interfaces.len()
        invariant
            i <= interfaces@.len(),
            first_nat_ip(interfaces@) == first_nat_ip(interfaces@.subrange(i as int, interfaces@.len() as int)),
        decreases interfaces@.len() - i,
    {
        let ghost rest = interfaces@.subrange(i as int, interfaces@.len() as int);
        assert(rest.drop_first() =~= interfaces@.subrange(i + 1, interfaces@.len() as int));
        assert(rest[0] == interfaces@[i as int]);
        match config_ip(&interfaces[i].access_configs) {
            Some(ip) => {
                return Some(ip);
            },
            None => {},
        }
        i = i + 1;
    }
    None
}

/// One IPv4 network of a droplet.
#[derive(Debug, Clone)]
pub struct DropletNetwork {
    pub net_type: Option<String>,
    pub ip_address: Option<String>,
}

/// The address of the first public network that has one.
pub open spec fn first_public_ip(networks: Seq<DropletNetwork>) -> Option<Seq<char>>
    decreases networks.len(),
{
    if networks.len() == 0 {
        None
    } else if crate::health::is_text(networks[0].net_type, "public"@) && networks[0].ip_address is Some {
        Some(networks[0].ip_address->Some_0@)
    } else {
        first_public_ip(networks.drop_first())
    }
}

/// The public IPv4 address of a droplet, if it has one.
pub fn droplet_public_ipv4(networks: &Vec<DropletNetwork>) -> (r: Option<String>)
    ensures
        crate::locator::opt_text(r) == first_public_ip(networks@),
{
    let mut i: usize = 0;
    assert(networks@.subrange(0, networks@.len() as int) =~= networks@);
    while i < networks.len()
        invariant
            i <= networks@.len(),
            first_public_ip(networks@) == first_public_ip(networks@.subrange(i as int, networks@.len() as int)),
        decreases networks@.len() - i,
    {
        let ghost rest = networks@.subrange(i as int, networks@.len() as int);
        assert(rest.drop_first() =~= networks@.subrange(i + 1, networks@.len() as int));
        assert(rest[0] == networks@[i as int]);
        let n = &networks[i];
        let public = match &n.net_type {
            Some(t) => str_eq(t.as_str(), "public"),
            None => false,
        };
        if public {
            match &n.ip_address {
                Some(ip) => {
                    return Some(ip.clone());
                },
                None => {},
            }
        }
        i = i + 1;
    }
    None
}

/// The command that opens the SSH and web ports of a Lightsail instance.
pub open spec fn public_ports_command(instance_name: Seq<char>) -> Seq<Seq<char>> {
    seq![
        "lightsail"@,
        "put-instance-public-ports"@,
        "--instance-name"@,
        instance_name,
        "--port-infos"@,
        "fromPort=22,toPort=22,protocol=tcp"@,
        "--port-infos"@,
        "fromPort=80,toPort=80,protocol=tcp"@,
        "--port-infos"@,
        "fromPort=443,toPort=443,protocol=tcp"@,
    ]
}

pub fn ensure_lightsail_public_ports(instance_name: &str) -> (r: Vec<String>)
    ensures
        texts(r@) == public_ports_command(instance_name@),
{
    let v = aws_args(
        &[
            "lightsail",
            "put-instance-public-ports",
            "--instance-name",
            instance_name,
            "--port-infos",
            "fromPort=22,toPort=22,protocol=tcp",
            "--port-infos",
            "fromPort=80,toPort=80,protocol=tcp",
            "--port-infos",
            "fromPort=443,toPort=443,protocol=tcp",
        ],
    );
    assert(texts(v@) =~= public_ports_command(instance_name@));
    v
}

/// One SSH key registered with the droplet provider.
#[derive(Debug, Clone)]
pub struct DropletSshKey {
    pub name: Option<String>,
    pub fingerprint: Option<String>,
}

/// The name under which the cluster's key is registered.
pub open spec fn droplet_key_name(cluster: Seq<char>) -> Seq<char> {
    "vmcli-"@ + sanitized(cluster) + "-key"@
}

/// The fingerprint of the first registered key named `key_name` that has one.
pub open spec fn registered_fingerprint(keys: Seq<DropletSshKey>, key_name: Seq<char>) -> Option<Seq<char>>
    decreases keys.len(),
{
    if keys.len() == 0 {
        None
    } else if crate::health::is_text(keys[0].name, key_name) && keys[0].fingerprint is Some
        && keys[0].fingerprint->Some_0@.len() > 0 {
        Some(keys[0].fingerprint->Some_0@)
    } else {
        registered_fingerprint(keys.drop_first(), key_name)
    }
}

/// The command that registers the public key at `public_key_path`.
pub open spec fn import_droplet_key_command(cluster: Seq<char>, public_key_path: Seq<char>) -> Seq<Seq<char>> {
    seq![
        "compute"@,
        "ssh-key"@,
        "import"@,
        droplet_key_name(cluster),
        "--public-key-file"@,
        public_key_path,
        "--output"@,
        "json"@,
    ]
}

/// The cluster key's fingerprint where it is known, else its import.
#[derive(Debug)]
pub enum FingerprintStep {
    Known(String),
    Import(Vec<String>),
}

/// The fingerprint of the cluster's key: the configured one, else that of
/// the registered key of the cluster's name, else the key is imported.
pub fn ensure_droplet_ssh_key_fingerprint(
    configured: &Option<String>,
    cluster: &str,
    public_key_path: &str,
    keys: &Vec<DropletSshKey>,
) -> (r: FingerprintStep)
    ensures
        match *configured {
            Some(f) => match r {
                FingerprintStep::Known(k) => k@ == f@,
                _ => false,
            },
            None => match registered_fingerprint(keys@, droplet_key_name(cluster@)) {
                Some(f) => match r {
                    FingerprintStep::Known(k) => k@ == f,
                    _ => false,
                },
                None => match r {
                    FingerprintStep::Import(a) => texts(a@) == import_droplet_key_command(cluster@, public_key_path@),
                    _ => false,
                },
            },
        },
{
    match configured {
        Some(f) => {
            return FingerprintStep::Known(f.clone());
        },
        None => {},
    }
    let mut key_name = String::from_str("vmcli-");
    let s = sanitize_cloud_identifier(cluster);
    key_name.append(s.as_str());
    key_name.append("-key");
    let mut i: usize = 0;
    assert(keys@.subrange(0, keys@.len() as int) =~= keys@);
    while i < keys.len()
        invariant
            i <= keys@.len(),
            configured is None,
            key_name@ == droplet_key_name(cluster@),
            registered_fingerprint(keys@, key_name@) == registered_fingerprint(
                keys@.subrange(i as int, keys@.len() as int),
                key_name@,
            ),
        decreases keys@.len() - i,
    {
        let ghost rest = keys@.subrange(i as int, keys@.len() as int);
        assert(rest.drop_first() =~= keys@.subrange(i + 1, keys@.len() as int));
        assert(rest[0] == keys@[i as int]);
        let k = &keys[i];
        let named = match &k.name {
            Some(n) => str_eq(n.as_str(), key_name.as_str()),
            None => false,
        };
        if named {
            match &k.fingerprint {
                Some(f) => {
                    if f.as_str().unicode_len() > 0 {
                        assert(registered_fingerprint(rest, key_name@) == Some(f@));
                        let known = f.clone();
                        return FingerprintStep::Known(known);
                    }
                },
                None => {},
            }
        }
        i = i + 1;
    }
    let v = aws_args(
        &["compute", "ssh-key", "import", key_name.as_str(), "--public-key-file", public_key_path, "--output", "json"],
    );
    assert(texts(v@) =~= import_droplet_key_command(cluster@, public_key_path@));
    FingerprintStep::Import(v)
}

/// The health of an instance whose provider offers no deeper diagnosis:
/// `running_state` is the state in which it serves (ASCII case ignored).
pub open spec fn basic_health(state: Seq<char>, running_state: Seq<char>, has_public_ip: bool) -> (Seq<char>, Seq<char>) {
    if ascii_lower(state) == ascii_lower(running_state) && has_public_ip {
        ("ok"@, "instance-running"@)
    } else if ascii_lower(state) == ascii_lower(running_state) {
        ("degraded"@, "running-without-public-ip"@)
    } else {
        ("unreachable"@, "instance-not-running"@)
    }
}

/// The level and reason of an instance's basic health.
pub fn instance_basic_health(state: &str, running_state: &str, has_public_ip: bool) -> (r: (&'static str, &'static str))
    ensures
        (r.0@, r.1@) == basic_health(state@, running_state@, has_public_ip),
{
    let running = eq_ignore_ascii_case(state, running_state);
    if running && has_public_ip {
        ("ok", "instance-running")
    } else if running {
        ("degraded", "running-without-public-ip")
    } else {
        ("unreachable", "instance-not-running")
    }
}

/// Whether an instance that the listing shows in `state` has reached
/// `expected` (ASCII case ignored).
pub fn reached_state(state: Option<&str>, expected: &str) -> (r: bool)
    ensures
        r == match state {
            Some(s) => ascii_lower(s@) == ascii_lower(expected@),
            None => false,
        },
{
    match state {
        Some(s) => eq_ignore_ascii_case(s, expected),
        None => false,
    }
}

/// What a bounded wait does after one look at the listing.
#[derive(Debug, Clone, Copy, PartialEq, Eq, Structural)]
pub enum PollDecision {
    /// The expected state was seen.
    Reached,
    /// Look again after the fixed interval.
    Retry,
    /// The attempts are spent.
    Timeout,
}

/// The number of looks that a bounded wait takes.
pub const POLL_ATTEMPTS: u32 = 60;

/// After look number `attempt` (from 1) of at most `max_attempts`: done when
/// the state was reached, else again while attempts remain, else time out.
pub fn poll_step(attempt: u32, max_attempts: u32, reached: bool) -> (r: PollDecision)
    ensures
        reached ==> r == PollDecision::Reached,
        !reached && attempt < max_attempts ==> r == PollDecision::Retry,
        !reached && attempt >= max_attempts ==> r == PollDecision::Timeout,
{
    if reached {
        PollDecision::Reached
    } else if attempt < max_attempts {
        PollDecision::Retry
    } else {
        PollDecision::Timeout
    }
}

/// An instance of that name already stands in the way of a launch, unless it
/// is in `reusable_state` (ASCII case ignored); a provider without such a
/// state passes `None`.
pub fn launch_blocked(existing_state: Option<&str>, reusable_state: Option<&str>) -> (r: bool)
    ensures
        r == match existing_state {
            Some(s) => match reusable_state {
                Some(u) => ascii_lower(s@) != ascii_lower(u@),
                None => true,
            },
            None => false,
        },
{
    match existing_state {
        Some(s) => match reusable_state {
            Some(u) => !eq_ignore_ascii_case(s, u),
            None => true,
        },
        None => false,
    }
}

/// `a` orders before or with `b`, character by character (the order of
/// `String`'s comparison).
pub open spec fn lex_le(a: Seq<char>, b: Seq<char>) -> bool
    decreases a.len(),
{
    if a.len() == 0 {
        true
    } else if b.len() == 0 {
        false
    } else if a[0] != b[0] {
        a[0] < b[0]
    } else {
        lex_le(a.drop_first(), b.drop_first())
    }
}

proof fn lemma_lex_total(a: Seq<char>, b: Seq<char>)
    ensures
        lex_le(a, b) || lex_le(b, a),
    decreases a.len(),
{
    if a.len() > 0 && b.len() > 0 && a[0] == b[0] {
        lemma_lex_total(a.drop_first(), b.drop_first());
    }
}

/// Whether `a` orders before or with `b`.
pub fn name_le(a: &str, b: &str) -> (r: bool)
    ensures
        r == lex_le(a@, b@),
{
    let n = a.unicode_len();
    let m = b.unicode_len();
    let mut i: usize = 0;
    assert(a@.subrange(0, n as int) =~= a@);
    assert(b@.subrange(0, m as int) =~= b@);
    while i < n && i < m
        invariant
            n == a@.len(),
            m == b@.len(),
            i <= n,
            i <= m,
            lex_le(a@, b@) == lex_le(a@.subrange(i as int, n as int), b@.subrange(i as int, m as int)),
        decreases n - i,
    {
        let ca = a.get_char(i);
        let cb = b.get_char(i);
        let ghost sa = a@.subrange(i as int, n as int);
        let ghost sb = b@.subrange(i as int, m as int);
        assert(sa[0] == ca && sb[0] == cb);
        if ca != cb {
            return ca < cb;
        }
        assert(sa.drop_first() =~= a@.subrange(i + 1, n as int));
        assert(sb.drop_first() =~= b@.subrange(i + 1, m as int));
        i = i + 1;
    }
    i == n
}

/// A listed instance with a name.
pub trait Named {
    spec fn name_view(&self) -> Seq<char>;

    fn name_str(&self) -> (r: &str)
        ensures
            r@ == self.name_view(),
    ;
}

impl Named for LightsailInstanceInfo {
    open spec fn name_view(&self) -> Seq<char> {
        self.name@
    }

    fn name_str(&self) -> (r: &str) {
        self.name.as_str()
    }
}

impl Named for GceInstanceInfo {
    open spec fn name_view(&self) -> Seq<char> {
        self.name@
    }

    fn name_str(&self) -> (r: &str) {
        self.name.as_str()
    }
}

impl Named for DropletInfo {
    open spec fn name_view(&self) -> Seq<char> {
        self.name@
    }

    fn name_str(&self) -> (r: &str) {
        self.name.as_str()
    }
}

/// Each element's name orders before or with the next one's.
pub open spec fn sorted_by_name<T: Named>(s: Seq<T>) -> bool {
    forall|i: int| 0 <= i < s.len() - 1 ==> lex_le(#[trigger] s[i].name_view(), s[i + 1].name_view())
}

/// The elements of `v` ordered by name; equal names keep their order.
pub fn sort_by_name<T: Named>(v: Vec<T>) -> (r: Vec<T>)
    ensures
        sorted_by_name(r@),
        r@.to_multiset() == v@.to_multiset(),
{
    let ghost input = v@;
    let mut rest = v;
    let mut out: Vec<T> = Vec::new();
    proof {
        out@.to_multiset_ensures();
        vstd::multiset::lemma_multiset_empty_len(out@.to_multiset());
    }
    assert(out@.to_multiset() =~= Multiset::<T>::empty());
    assert(out@.to_multiset().add(rest@.to_multiset()) =~= input.to_multiset());
    while rest.len() > 0
        invariant
            sorted_by_name(out@),
            out@.to_multiset().add(rest@.to_multiset()) == input.to_multiset(),
        decreases rest@.len(),
    {
        let ghost before_rest = rest@;
        let ghost before_out = out@;
        let x = rest.pop().unwrap();
        assert(before_rest =~= rest@.push(x));
        let mut p: usize = 0;
        while p < out.len() && !name_le(x.name_str(), out[p].name_str())
            invariant
                out@ == before_out,
                p <= out@.len(),
                forall|k: int| 0 <= k < p ==> !lex_le(x.name_view(), #[trigger] out@[k].name_view()),
            decreases out@.len() - p,
        {
            p = p + 1;
        }
        proof {
            if p > 0 {
                lemma_lex_total(x.name_view(), out@[p - 1].name_view());
            }
        }
        out.insert(p, x);
        assert(out@ == before_out.insert(p as int, x));
        assert forall|i: int| 0 <= i < out@.len() - 1 implies lex_le(#[trigger] out@[i].name_view(), out@[i + 1].name_view()) by {
            if i < p as int - 1 {
                assert(out@[i] == before_out[i] && out@[i + 1] == before_out[i + 1]);
            } else if i == p as int - 1 {
                assert(out@[i] == before_out[i] && out@[i + 1] == x);
            } else if i == p as int {
                assert(out@[i] == x && out@[i + 1] == before_out[i]);
            } else {
                assert(out@[i] == before_out[i - 1] && out@[i + 1] == before_out[i]);
            }
        }
        proof {
            vstd::seq_lib::to_multiset_insert(before_out, p as int, x);
            rest@.to_multiset_ensures();
        }
        assert(out@.to_multiset() == before_out.to_multiset().insert(x));
        assert(before_rest.to_multiset() == rest@.to_multiset().insert(x));
        assert(out@.to_multiset().add(rest@.to_multiset()) =~= before_out.to_multiset().add(before_rest.to_multiset()));
    }
    proof {
        rest@.to_multiset_ensures();
        vstd::multiset::lemma_multiset_empty_len(rest@.to_multiset());
    }
    assert(rest@.to_multiset() =~= Multiset::<T>::empty());
    assert(out@.to_multiset() =~= out@.to_multiset().add(rest@.to_multiset()));
    out
}

/// One instance of a Lightsail listing, as far as the tool reads it.
#[derive(Debug, Clone)]
pub struct LightsailListing {
    pub name: Option<String>,
    pub state: Option<String>,
    pub public_ip: Option<String>,
    pub tags: Vec<Tag>,
}

/// The view of a Lightsail instance: name, state and public address.
pub open spec fn lightsail_view(i: LightsailInstanceInfo) -> (Seq<char>, Seq<char>, Option<Seq<char>>) {
    (i.name@, i.state@, crate::locator::opt_text(i.public_ip))
}

/// The cluster's named instances of a listing, in listing order: a missing
/// state reads `unknown`.
pub open spec fn lightsail_entries(items: Seq<LightsailListing>, cluster: Seq<char>) -> Seq<(Seq<char>, Seq<char>, Option<Seq<char>>)>
    decreases items.len(),
{
    if items.len() == 0 {
        Seq::empty()
    } else {
        let prev = lightsail_entries(items.drop_last(), cluster);
        let it = items.last();
        if has_cluster_tag(it.tags@, cluster) && it.name is Some {
            prev.push((
                it.name->Some_0@,
                match it.state { Some(s) => s@, None => "unknown"@ },
                crate::locator::opt_text(it.public_ip),
            ))
        } else {
            prev
        }
    }
}

fn text_or(o: &Option<String>, default: &str) -> (r: String)
    ensures
        r@ == match *o { Some(s) => s@, None => default@ },
{
    match o {
        Some(s) => s.clone(),
        None => String::from_str(default),
    }
}

/// The cluster's Lightsail instances, ordered by name.
pub fn lightsail_list_cluster_instances(items: &Vec<LightsailListing>, cluster: &str) -> (r: Vec<LightsailInstanceInfo>)
    ensures
        sorted_by_name(r@),
        exists|c: Seq<LightsailInstanceInfo>|
            c.map_values(|i: LightsailInstanceInfo| lightsail_view(i)) == lightsail_entries(items@, cluster@)
                && r@.to_multiset() == #[trigger] c.to_multiset(),
{
    let mut found: Vec<LightsailInstanceInfo> = Vec::new();
    let mut k: usize = 0;
    while k < items.len()
        invariant
            k <= items@.len(),
            found@.map_values(|i: LightsailInstanceInfo| lightsail_view(i)) == lightsail_entries(items@.subrange(0, k as int), cluster@),
        decreases items@.len() - k,
    {
        assert(items@.subrange(0, k + 1).drop_last() =~= items@.subrange(0, k as int));
        assert(items@.subrange(0, k + 1).last() == items@[k as int]);
        let it = &items[k];
        if lightsail_has_cluster_tag(&it.tags, cluster) {
            match &it.name {
                Some(name) => {
                    let ghost prev = found@;
                    let info = LightsailInstanceInfo {
                        name: name.clone(),
                        state: text_or(&it.state, "unknown"),
                        public_ip: it.public_ip.clone(),
                    };
                    found.push(info);
                    assert(found@.map_values(|i: LightsailInstanceInfo| lightsail_view(i)) =~= prev.map_values(
                        |i: LightsailInstanceInfo| lightsail_view(i),
                    ).push(lightsail_view(info)));
                },
                None => {},
            }
        }
        assert(found@.map_values(|i: LightsailInstanceInfo| lightsail_view(i)) =~= lightsail_entries(items@.subrange(0, k + 1), cluster@));
        k = k + 1;
    }
    assert(items@.subrange(0, items@.len() as int) =~= items@);
    let ghost c = found@;
    let r = sort_by_name(found);
    assert(r@.to_multiset() == c.to_multiset());
    r
}

/// One instance of a Compute Engine listing, as far as the tool reads it.
#[derive(Debug, Clone)]
pub struct GceListing {
    pub name: Option<String>,
    pub id: Option<String>,
    pub status: Option<String>,
    pub zone: Option<String>,
    pub interfaces: Vec<GceNetworkInterface>,
}

/// The view of a Compute Engine instance.
pub open spec fn gce_view(i: GceInstanceInfo) -> (Seq<char>, Seq<char>, Seq<char>, Option<Seq<char>>, Option<Seq<char>>) {
    (i.name@, i.instance_id@, i.state@, crate::locator::opt_text(i.zone), crate::locator::opt_text(i.public_ip))
}

/// The named instances of a listing, in listing order: the id defaults to
/// the name, the state to `UNKNOWN`, the zone is the last segment of its path.
pub open spec fn gce_entries(items: Seq<GceListing>) -> Seq<(Seq<char>, Seq<char>, Seq<char>, Option<Seq<char>>, Option<Seq<char>>)>
    decreases items.len(),
{
    if items.len() == 0 {
        Seq::empty()
    } else {
        let prev = gce_entries(items.drop_last());
        let it = items.last();
        if it.name is Some {
            prev.push((
                it.name->Some_0@,
                match it.id { Some(s) => s@, None => it.name->Some_0@ },
                match it.status { Some(s) => s@, None => "UNKNOWN"@ },
                match it.zone { Some(z) => Some(last_segment(z@)), None => None },
                first_nat_ip(it.interfaces@),
            ))
        } else {
            prev
        }
    }
}

/// The cluster's Compute Engine instances (the listing is already filtered by
/// the cluster label), ordered by name.
pub fn gce_list_cluster_instances(items: &Vec<GceListing>) -> (r: Vec<GceInstanceInfo>)
    ensures
        sorted_by_name(r@),
        exists|c: Seq<GceInstanceInfo>|
            c.map_values(|i: GceInstanceInfo| gce_view(i)) == gce_entries(items@) && r@.to_multiset() == #[trigger] c.to_multiset(),
{
    let mut found: Vec<GceInstanceInfo> = Vec::new();
    let mut k: usize = 0;
    while k < items.len()
        invariant
            k <= items@.len(),
            found@.map_values(|i: GceInstanceInfo| gce_view(i)) == gce_entries(items@.subrange(0, k as int)),
        decreases items@.len() - k,
    {
        assert(items@.subrange(0, k + 1).drop_last() =~= items@.subrange(0, k as int));
        assert(items@.subrange(0, k + 1).last() == items@[k as int]);
        let it = &items[k];
        match &it.name {
            Some(name) => {
                let ghost prev = found@;
                let zone = match &it.zone {
                    Some(z) => Some(zone_name_from_path(z.as_str())),
                    None => None,
                };
                let info = GceInstanceInfo {
                    name: name.clone(),
                    instance_id: text_or(&it.id, name.as_str()),
                    state: text_or(&it.status, "UNKNOWN"),
                    zone,
                    public_ip: gce_public_ip(&it.interfaces),
                };
                found.push(info);
                assert(found@.map_values(|i: GceInstanceInfo| gce_view(i)) =~= prev.map_values(|i: GceInstanceInfo| gce_view(i)).push(gce_view(info)));
            },
            None => {},
        }
        assert(found@.map_values(|i: GceInstanceInfo| gce_view(i)) =~= gce_entries(items@.subrange(0, k + 1)));
        k = k + 1;
    }
    assert(items@.subrange(0, items@.len() as int) =~= items@);
    let ghost c = found@;
    let r = sort_by_name(found);
    assert(r@.to_multiset() == c.to_multiset());
    r
}

/// One droplet of a listing, as far as the tool reads it.
#[derive(Debug, Clone)]
pub struct DropletListing {
    pub id: Option<u64>,
    pub name: Option<String>,
    pub status: Option<String>,
    pub networks: Vec<DropletNetwork>,
    pub region: Option<String>,
}

/// The view of a droplet.
pub open spec fn droplet_view(i: DropletInfo) -> (u64, Seq<char>, Seq<char>, Option<Seq<char>>, Option<Seq<char>>) {
    (i.id, i.name@, i.state@, crate::locator::opt_text(i.public_ip), crate::locator::opt_text(i.region))
}

/// The droplets of a listing that have an id and a name, in listing order:
/// a missing state reads `unknown`.
pub open spec fn droplet_entries(items: Seq<DropletListing>) -> Seq<(u64, Seq<char>, Seq<char>, Option<Seq<char>>, Option<Seq<char>>)>
    decreases items.len(),
{
    if items.len() == 0 {
        Seq::empty()
    } else {
        let prev = droplet_entries(items.drop_last());
        let it = items.last();
        if it.id is Some && it.name is Some {
            prev.push((
                it.id->Some_0,
                it.name->Some_0@,
                match it.status { Some(s) => s@, None => "unknown"@ },
                first_public_ip(it.networks@),
                crate::locator::opt_text(it.region),
            ))
        } else {
            prev
        }
    }
}

/// The cluster's droplets (the listing is already filtered by the cluster
/// tag), ordered by name.
pub fn droplet_list_cluster_instances(items: &Vec<DropletListing>) -> (r: Vec<DropletInfo>)
    ensures
        sorted_by_name(r@),
        exists|c: Seq<DropletInfo>|
            c.map_values(|i: DropletInfo| droplet_view(i)) == droplet_entries(items@) && r@.to_multiset() == #[trigger] c.to_multiset(),
{
    let mut found: Vec<DropletInfo> = Vec::new();
    let mut k: usize = 0;
    while k < items.len()
        invariant
            k <= items@.len(),
            found@.map_values(|i: DropletInfo| droplet_view(i)) == droplet_entries(items@.subrange(0, k as int)),
        decreases items@.len() - k,
    {
        assert(items@.subrange(0, k + 1).drop_last() =~= items@.subrange(0, k as int));
        assert(items@.subrange(0, k + 1).last() == items@[k as int]);
        let it = &items[k];
        match (it.id, &it.name) {
            (Some(id), Some(name)) => {
                let ghost prev = found@;
                let info = DropletInfo {
                    id,
                    name: name.clone(),
                    state: text_or(&it.status, "unknown"),
                    public_ip: droplet_public_ipv4(&it.networks),
                    region: it.region.clone(),
                };
                found.push(info);
                assert(found@.map_values(|i: DropletInfo| droplet_view(i)) =~= prev.map_values(|i: DropletInfo| droplet_view(i)).push(droplet_view(info)));
            },
            _ => {},
        }
        assert(found@.map_values(|i: DropletInfo| droplet_view(i)) =~= droplet_entries(items@.subrange(0, k + 1)));
        k = k + 1;
    }
    assert(items@.subrange(0, items@.len() as int) =~= items@);
    let ghost c = found@;
    let r = sort_by_name(found);
    assert(r@.to_multiset() == c.to_multiset());
    r
}

/// One row of a discovery listing (regions, zones): the name it is ordered
/// by, and the line that reports it.
#[derive(Debug, Clone)]
pub struct ListingRow {
    pub name: String,
    pub line: String,
}

impl Named for ListingRow {
    open spec fn name_view(&self) -> Seq<char> {
        self.name@
    }

    fn name_str(&self) -> (r: &str) {
        self.name.as_str()
    }
}

/// The rows of a discovery listing, ordered by name.
pub fn sort_rows(rows: Vec<ListingRow>) -> (r: Vec<ListingRow>)
    ensures
        sorted_by_name(r@),
        r@.to_multiset() == rows@.to_multiset(),
{
    sort_by_name(rows)
}

/// The override where given, else the default.
pub open spec fn chosen(override_value: Option<String>, default: Seq<char>) -> Seq<char> {
    match override_value {
        Some(v) => v@,
        None => default,
    }
}

fn choose_text(override_value: Option<String>, default: &String) -> (r: String)
    ensures
        r@ == chosen(override_value, default@),
{
    match override_value {
        Some(v) => v,
        None => default.clone(),
    }
}

/// The command that creates a Lightsail instance of the cluster.
pub open spec fn lightsail_create_command(c: LightsailEffectiveConfig, name: Seq<char>, bundle: Seq<char>) -> Seq<Seq<char>> {
    seq![
        "lightsail"@,
        "create-instances"@,
        "--instance-names"@,
        name,
        "--availability-zone"@,
        c.availability_zone@,
        "--blueprint-id"@,
        c.blueprint_id@,
        "--bundle-id"@,
        bundle,
        "--tags"@,
        "key=Cluster,value="@ + c.cluster_name@,
        "key=Name,value="@ + name,
    ] + match c.key_pair_name {
        Some(k) => seq!["--key-pair-name"@, k@],
        None => Seq::empty(),
    }
}

/// Creates instance `name`, of the bundle given or else the default one.
pub fn lightsail_create_args(config: &LightsailEffectiveConfig, name: &str, bundle_id: Option<String>) -> (r: Vec<String>)
    ensures
        texts(r@) == lightsail_create_command(*config, name@, chosen(bundle_id, config.default_bundle_id@)),
{
    let bundle = choose_text(bundle_id, &config.default_bundle_id);
    let mut cluster_tag = String::from_str("key=Cluster,value=");
    cluster_tag.append(config.cluster_name.as_str());
    let mut name_tag = String::from_str("key=Name,value=");
    name_tag.append(name);
    let mut v = aws_args(
        &[
            "lightsail",
            "create-instances",
            "--instance-names",
            name,
            "--availability-zone",
            config.availability_zone.as_str(),
            "--blueprint-id",
            config.blueprint_id.as_str(),
            "--bundle-id",
            bundle.as_str(),
            "--tags",
            cluster_tag.as_str(),
            name_tag.as_str(),
        ],
    );
    let ghost base = v@;
    match &config.key_pair_name {
        Some(k) => {
            let flag = String::from_str("--key-pair-name");
            let key = k.clone();
            v.push(flag);
            v.push(key);
            assert(texts(v@) =~= texts(base) + seq![flag@, key@]);
        },
        None => {},
    }
    assert(texts(v@) =~= lightsail_create_command(*config, name@, chosen(bundle_id, config.default_bundle_id@)));
    v
}

/// Why a Compute Engine instance cannot be created.
#[derive(Debug, Clone, Copy, PartialEq, Eq, Structural)]
pub enum GceCreateError {
    /// The public key file holds nothing but blanks.
    EmptyPublicKey,
}

/// The command that creates a Compute Engine instance of the cluster, with
/// the SSH user's key `key` in its metadata.
pub open spec fn gce_create_command(c: GceEffectiveConfig, name: Seq<char>, machine: Seq<char>, key: Seq<char>) -> Seq<Seq<char>> {
    seq![
        "compute"@,
        "instances"@,
        "create"@,
        name,
        "--zone"@,
        c.zone@,
        "--machine-type"@,
        machine,
        "--image-family"@,
        c.image_family@,
        "--image-project"@,
        c.image_project@,
        "--labels"@,
        "cluster="@ + sanitized(c.cluster_name@) + ",managed_by=vmcli"@,
        "--metadata"@,
        "ssh-keys="@ + c.ssh_user@ + ":"@ + key,
        "--format"@,
        "json"@,
    ]
}

/// Creates instance `name` with the public key read from the configured file
/// (`key_contents`, trimmed); refused where the key is blank.
pub fn gce_create_args(
    config: &GceEffectiveConfig,
    name: &str,
    machine_type: Option<String>,
    key_contents: &str,
) -> (r: Result<Vec<String>, GceCreateError>)
    ensures
        match r {
            Ok(v) => trim_of(key_contents@).len() > 0 && texts(v@) == gce_create_command(
                *config,
                name@,
                chosen(machine_type, config.default_machine_type@),
                trim_of(key_contents@),
            ),
            Err(e) => trim_of(key_contents@).len() == 0 && e == GceCreateError::EmptyPublicKey,
        },
{
    let key = trim(key_contents);
    if key.unicode_len() == 0 {
        return Err(GceCreateError::EmptyPublicKey);
    }
    let machine = choose_text(machine_type, &config.default_machine_type);
    let label = sanitize_cloud_identifier(config.cluster_name.as_str());
    let mut labels = String::from_str("cluster=");
    labels.append(label.as_str());
    labels.append(",managed_by=vmcli");
    let mut metadata = String::from_str("ssh-keys=");
    metadata.append(config.ssh_user.as_str());
    metadata.append(":");
    metadata.append(key);
    let v = aws_args(
        &[
            "compute",
            "instances",
            "create",
            name,
            "--zone",
            config.zone.as_str(),
            "--machine-type",
            machine.as_str(),
            "--image-family",
            config.image_family.as_str(),
            "--image-project",
            config.image_project.as_str(),
            "--labels",
            labels.as_str(),
            "--metadata",
            metadata.as_str(),
            "--format",
            "json",
        ],
    );
    assert(texts(v@) =~= gce_create_command(*config, name@, chosen(machine_type, config.default_machine_type@), trim_of(key_contents@)));
    Ok(v)
}

/// The command that creates a droplet of the cluster.
pub open spec fn droplet_create_command(c: DropletEffectiveConfig, name: Seq<char>, size: Seq<char>, fingerprint: Seq<char>) -> Seq<Seq<char>> {
    seq![
        "compute"@,
        "droplet"@,
        "create"@,
        name,
        "--region"@,
        c.region@,
        "--size"@,
        size,
        "--image"@,
        c.image@,
        "--tag-name"@,
        "cluster-"@ + sanitized(c.cluster_name@),
        "--ssh-keys"@,
        fingerprint,
        "--output"@,
        "json"@,
    ]
}

/// Creates droplet `name`, of the size given or else the default one.
pub fn droplet_create_args(config: &DropletEffectiveConfig, name: &str, size: Option<String>, fingerprint: &str) -> (r: Vec<String>)
    ensures
        texts(r@) == droplet_create_command(*config, name@, chosen(size, config.default_size@), fingerprint@),
{
    let chosen_size = choose_text(size, &config.default_size);
    let tag = crate::naming::droplet_cluster_tag(config.cluster_name.as_str());
    let v = aws_args(
        &[
            "compute",
            "droplet",
            "create",
            name,
            "--region",
            config.region.as_str(),
            "--size",
            chosen_size.as_str(),
            "--image",
            config.image.as_str(),
            "--tag-name",
            tag.as_str(),
            "--ssh-keys",
            fingerprint,
            "--output",
            "json",
        ],
    );
    assert(texts(v@) =~= droplet_create_command(*config, name@, chosen(size, config.default_size@), fingerprint@));
    v
}

} // verus!
