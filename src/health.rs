//! The health diagnosis engine: status-check classification, firewall posture
//! for one port, interpretation of the remote probe, and the verdict.
use vstd::prelude::*;
use crate::config::{normalize_optional, normalized};
use crate::text::{ascii_lower, contains, seq_contains, str_eq, to_ascii_lowercase, push_char};

verus! {

/// Outcome of the out-of-band key-injection probe.
#[derive(Debug, Clone, Copy, PartialEq, Eq, Structural)]
pub enum ProbeOutcome {
    Success,
    Failed,
    Skipped,
}

/// The name under which a probe outcome is reported.
pub open spec fn probe_outcome_text(p: ProbeOutcome) -> Seq<char> {
    match p {
        ProbeOutcome::Success => "success"@,
        ProbeOutcome::Failed => "failed"@,
        ProbeOutcome::Skipped => "skipped"@,
    }
}

impl ProbeOutcome {
    pub fn as_str(self) -> (r: &'static str)
        ensures
            r@ == probe_outcome_text(self),
    {
        match self {
            ProbeOutcome::Success => "success",
            ProbeOutcome::Failed => "failed",
            ProbeOutcome::Skipped => "skipped",
        }
    }
}

/// Reachability posture of the firewall groups for the SSH port.
#[derive(Debug, Clone, Copy, PartialEq, Eq, Structural)]
pub enum SgPort22Status {
    OpenWorld,
    Restricted,
    Closed,
    Unknown,
}

/// The name under which a firewall posture is reported.
pub open spec fn posture_text(p: SgPort22Status) -> Seq<char> {
    match p {
        SgPort22Status::OpenWorld => "open-world"@,
        SgPort22Status::Restricted => "restricted"@,
        SgPort22Status::Closed => "closed"@,
        SgPort22Status::Unknown => "unknown"@,
    }
}

impl SgPort22Status {
    pub fn as_str(self) -> (r: &'static str)
        ensures
            r@ == posture_text(self),
    {
        match self {
            SgPort22Status::OpenWorld => "open-world",
            SgPort22Status::Restricted => "restricted",
            SgPort22Status::Closed => "closed",
            SgPort22Status::Unknown => "unknown",
        }
    }
}

/// Level of a health verdict.
#[derive(Debug, Clone, Copy, PartialEq, Eq, Structural)]
pub enum HealthLevel {
    Healthy,
    Degraded,
    Unreachable,
    Unknown,
}

/// The name under which a health level is reported.
pub open spec fn level_text(l: HealthLevel) -> Seq<char> {
    match l {
        HealthLevel::Healthy => "ok"@,
        HealthLevel::Degraded => "degraded"@,
        HealthLevel::Unreachable => "unreachable"@,
        HealthLevel::Unknown => "unknown"@,
    }
}

impl HealthLevel {
    pub fn as_str(self) -> (r: &'static str)
        ensures
            r@ == level_text(self),
    {
        match self {
            HealthLevel::Healthy => "ok",
            HealthLevel::Degraded => "degraded",
            HealthLevel::Unreachable => "unreachable",
            HealthLevel::Unknown => "unknown",
        }
    }
}

/// The verdict of the diagnosis engine.
#[derive(Debug, Clone)]
pub struct HealthSummary {
    pub level: HealthLevel,
    pub ssh_local_problem_likely: Option<bool>,
    pub notes: String,
}

/// What the remote probe found, with the inputs that decided whether it ran.
#[derive(Debug, Clone)]
pub struct EicProbeResult {
    pub os_user: String,
    pub public_ip_present: bool,
    pub instance_running: bool,
    pub az_present: bool,
    pub sg_port22: SgPort22Status,
    pub send_ssh_public_key: ProbeOutcome,
    pub send_ssh_public_key_reason: Option<String>,
}

/// An IPv4 source range of an ingress rule.
#[derive(Debug, Clone)]
pub struct IpRange {
    pub cidr_ip: Option<String>,
}

/// An IPv6 source range of an ingress rule.
#[derive(Debug, Clone)]
pub struct Ipv6Range {
    pub cidr_ipv6: Option<String>,
}

/// A firewall group named as the source of an ingress rule.
#[derive(Debug, Clone)]
pub struct UserIdGroupPair {
    pub group_id: Option<String>,
}

/// A managed prefix list named as the source of an ingress rule.
#[derive(Debug, Clone)]
pub struct PrefixListId {
    pub prefix_list_id: Option<String>,
}

/// One ingress rule of a firewall group.
#[derive(Debug, Clone)]
pub struct IpPermission {
    pub ip_protocol: Option<String>,
    pub from_port: Option<i64>,
    pub to_port: Option<i64>,
    pub ip_ranges: Option<Vec<IpRange>>,
    pub ipv6_ranges: Option<Vec<Ipv6Range>>,
    pub user_id_group_pairs: Option<Vec<UserIdGroupPair>>,
    pub prefix_list_ids: Option<Vec<PrefixListId>>,
}

/// A firewall group with its ingress rules.
#[derive(Debug, Clone)]
pub struct SecurityGroup {
    pub group_id: String,
    pub ip_permissions: Option<Vec<IpPermission>>,
}

/// `o` holds a text equal to `t`.
pub open spec fn is_text(o: Option<String>, t: Seq<char>) -> bool {
    match o {
        Some(s) => s@ == t,
        None => false,
    }
}

/// The text held by `o`, or the empty text.
pub open spec fn text_or_empty(o: Option<String>) -> Seq<char> {
    match o {
        Some(s) => s@,
        None => Seq::empty(),
    }
}

/// Whether `o` holds a text equal to `t`.
fn opt_text_is(o: &Option<String>, t: &str) -> (r: bool)
    ensures
        r == is_text(*o, t@),
{
    match o {
        Some(s) => str_eq(s.as_str(), t),
        None => false,
    }
}

/// A rule covers TCP traffic to `port`.
pub open spec fn allows_tcp_port(p: IpPermission, port: i64) -> bool {
    let protocol = ascii_lower(text_or_empty(p.ip_protocol));
    if protocol == "-1"@ {
        true
    } else if protocol != "tcp"@ {
        false
    } else {
        let from = match p.from_port {
            Some(f) => f,
            None => port,
        };
        let to = match p.to_port {
            Some(t) => t,
            None => port,
        };
        from <= port && port <= to
    }
}

/// The IPv4 wildcard.
pub open spec fn world_v4() -> Seq<char> {
    "0.0.0.0/0"@
}

/// The IPv6 wildcard.
pub open spec fn world_v6() -> Seq<char> {
    "::/0"@
}

/// A rule admits the unrestricted IPv4 or IPv6 wildcard as a source.
pub open spec fn has_world_source(p: IpPermission) -> bool {
    (match p.ip_ranges {
        Some(rs) => exists|i: int| 0 <= i < rs@.len() && is_text(#[trigger] rs@[i].cidr_ip, world_v4()),
        None => false,
    }) || (match p.ipv6_ranges {
        Some(rs) => exists|i: int|
            0 <= i < rs@.len() && is_text(#[trigger] rs@[i].cidr_ipv6, world_v6()),
        None => false,
    })
}

/// A rule names at least one concrete source of any kind.
pub open spec fn has_any_source(p: IpPermission) -> bool {
    (match p.ip_ranges {
        Some(rs) => exists|i: int| 0 <= i < rs@.len() && (#[trigger] rs@[i]).cidr_ip is Some,
        None => false,
    }) || (match p.ipv6_ranges {
        Some(rs) => exists|i: int| 0 <= i < rs@.len() && (#[trigger] rs@[i]).cidr_ipv6 is Some,
        None => false,
    }) || (match p.user_id_group_pairs {
        Some(rs) => exists|i: int| 0 <= i < rs@.len() && (#[trigger] rs@[i]).group_id is Some,
        None => false,
    }) || (match p.prefix_list_ids {
        Some(rs) => exists|i: int| 0 <= i < rs@.len() && (#[trigger] rs@[i]).prefix_list_id is Some,
        None => false,
    })
}

/// `p` is one of the ingress rules of the groups `groups`.
pub open spec fn has_rule(groups: Seq<SecurityGroup>, p: IpPermission) -> bool {
    exists|g: int, k: int|
        0 <= g < groups.len() && #[trigger] rule_at(groups[g], k) == Some(p)
}

/// The rule at position `k` of a group, if there is one.
pub open spec fn rule_at(group: SecurityGroup, k: int) -> Option<IpPermission> {
    match group.ip_permissions {
        Some(ps) => if 0 <= k < ps@.len() {
            Some(ps@[k])
        } else {
            None
        },
        None => None,
    }
}

/// The posture of the groups for `port`.
pub open spec fn posture_for_port(groups: Seq<SecurityGroup>, port: i64) -> SgPort22Status {
    if groups.len() == 0 {
        SgPort22Status::Unknown
    } else if exists|p: IpPermission|
        #[trigger] has_rule(groups, p) && allows_tcp_port(p, port) && has_world_source(p) {
        SgPort22Status::OpenWorld
    } else if exists|p: IpPermission|
        #[trigger] has_rule(groups, p) && allows_tcp_port(p, port) && has_any_source(p) {
        SgPort22Status::Restricted
    } else {
        SgPort22Status::Closed
    }
}

/// Whether the rule covers TCP traffic to `port`.
pub fn permission_allows_tcp_port(permission: &IpPermission, port: i64) -> (r: bool)
    ensures
        r == allows_tcp_port(*permission, port),
{
    let protocol = match &permission.ip_protocol {
        Some(p) => to_ascii_lowercase(p.as_str()),
        None => String::new(),
    };
    assert(protocol@ == ascii_lower(text_or_empty(permission.ip_protocol))) by {
        if permission.ip_protocol is None {
            assert(ascii_lower(Seq::<char>::empty()) =~= Seq::<char>::empty());
        }
    }
    if str_eq(protocol.as_str(), "-1") {
        return true;
    }
    if !str_eq(protocol.as_str(), "tcp") {
        return false;
    }
    let from = match permission.from_port {
        Some(f) => f,
        None => port,
    };
    let to = match permission.to_port {
        Some(t) => t,
        None => port,
    };
    from <= port && port <= to
}

fn ipv4_ranges_have(ranges: &Vec<IpRange>, cidr: &str) -> (r: bool)
    ensures
        r == exists|i: int| 0 <= i < ranges@.len() && is_text(#[trigger] ranges@[i].cidr_ip, cidr@),
{
    let mut i: usize = 0;
    while i < ranges.len()
        invariant
            i <= ranges@.len(),
            forall|k: int| 0 <= k < i ==> !is_text(#[trigger] ranges@[k].cidr_ip, cidr@),
        decreases ranges@.len() - i,
    {
        if opt_text_is(&ranges[i].cidr_ip, cidr) {
            return true;
        }
        i = i + 1;
    }
    false
}

fn ipv6_ranges_have(ranges: &Vec<Ipv6Range>, cidr: &str) -> (r: bool)
    ensures
        r == exists|i: int| 0 <= i < ranges@.len() && is_text(#[trigger] ranges@[i].cidr_ipv6, cidr@),
{
    let mut i: usize = 0;
    while i < ranges.len()
        invariant
            i <= ranges@.len(),
            forall|k: int| 0 <= k < i ==> !is_text(#[trigger] ranges@[k].cidr_ipv6, cidr@),
        decreases ranges@.len() - i,
    {
        if opt_text_is(&ranges[i].cidr_ipv6, cidr) {
            return true;
        }
        i = i + 1;
    }
    false
}

/// Whether the rule admits the IPv4 or IPv6 wildcard as a source.
pub fn permission_has_world_source(permission: &IpPermission) -> (r: bool)
    ensures
        r == has_world_source(*permission),
{
    let has_world_v4 = match &permission.ip_ranges {
        Some(ranges) => ipv4_ranges_have(ranges, "0.0.0.0/0"),
        None => false,
    };
    let has_world_v6 = match &permission.ipv6_ranges {
        Some(ranges) => ipv6_ranges_have(ranges, "::/0"),
        None => false,
    };
    has_world_v4 || has_world_v6
}

fn ipv4_ranges_any(ranges: &Vec<IpRange>) -> (r: bool)
    ensures
        r == exists|i: int| 0 <= i < ranges@.len() && (#[trigger] ranges@[i]).cidr_ip is Some,
{
    let mut i: usize = 0;
    while i < ranges.len()
        invariant
            i <= ranges@.len(),
            forall|k: int| 0 <= k < i ==> (#[trigger] ranges@[k]).cidr_ip is None,
        decreases ranges@.len() - i,
    {
        if ranges[i].cidr_ip.is_some() {
            return true;
        }
        i = i + 1;
    }
    false
}

fn ipv6_ranges_any(ranges: &Vec<Ipv6Range>) -> (r: bool)
    ensures
        r == exists|i: int| 0 <= i < ranges@.len() && (#[trigger] ranges@[i]).cidr_ipv6 is Some,
{
    let mut i: usize = 0;
    while i < ranges.len()
        invariant
            i <= ranges@.len(),
            forall|k: int| 0 <= k < i ==> (#[trigger] ranges@[k]).cidr_ipv6 is None,
        decreases ranges@.len() - i,
    {
        if ranges[i].cidr_ipv6.is_some() {
            return true;
        }
        i = i + 1;
    }
    false
}

fn group_pairs_any(pairs: &Vec<UserIdGroupPair>) -> (r: bool)
    ensures
        r == exists|i: int| 0 <= i < pairs@.len() && (#[trigger] pairs@[i]).group_id is Some,
{
    let mut i: usize = 0;
    while i < pairs.len()
        invariant
            i <= pairs@.len(),
            forall|k: int| 0 <= k < i ==> (#[trigger] pairs@[k]).group_id is None,
        decreases pairs@.len() - i,
    {
        if pairs[i].group_id.is_some() {
            return true;
        }
        i = i + 1;
    }
    false
}

fn prefix_lists_any(ids: &Vec<PrefixListId>) -> (r: bool)
    ensures
        r == exists|i: int| 0 <= i < ids@.len() && (#[trigger] ids@[i]).prefix_list_id is Some,
{
    let mut i: usize = 0;
    while i < ids.len()
        invariant
            i <= ids@.len(),
            forall|k: int| 0 <= k < i ==> (#[trigger] ids@[k]).prefix_list_id is None,
        decreases ids@.len() - i,
    {
        if ids[i].prefix_list_id.is_some() {
            return true;
        }
        i = i + 1;
    }
    false
}

/// Whether the rule names any concrete source.
pub fn permission_has_any_source(permission: &IpPermission) -> (r: bool)
    ensures
        r == has_any_source(*permission),
{
    let v4 = match &permission.ip_ranges {
        Some(ranges) => ipv4_ranges_any(ranges),
        None => false,
    };
    let v6 = match &permission.ipv6_ranges {
        Some(ranges) => ipv6_ranges_any(ranges),
        None => false,
    };
    let pairs = match &permission.user_id_group_pairs {
        Some(p) => group_pairs_any(p),
        None => false,
    };
    let prefixes = match &permission.prefix_list_ids {
        Some(p) => prefix_lists_any(p),
        None => false,
    };
    v4 || v6 || pairs || prefixes
}

/// The rule at `(g, k)` covers `port` and admits the wildcard (`world`) or any
/// concrete source (not `world`).
pub open spec fn rule_flag(groups: Seq<SecurityGroup>, g: int, k: int, port: i64, world: bool) -> bool {
    match rule_at(groups[g], k) {
        Some(p) => allows_tcp_port(p, port) && if world {
            has_world_source(p)
        } else {
            has_any_source(p)
        },
        None => false,
    }
}

proof fn lemma_flags_match_rules(groups: Seq<SecurityGroup>, port: i64, world: bool)
    ensures
        (exists|p: IpPermission|
            #[trigger] has_rule(groups, p) && allows_tcp_port(p, port) && (if world {
                has_world_source(p)
            } else {
                has_any_source(p)
            })) <==> (exists|g: int, k: int|
            0 <= g < groups.len() && #[trigger] rule_flag(groups, g, k, port, world)),
{
    if exists|g: int, k: int| 0 <= g < groups.len() && #[trigger] rule_flag(groups, g, k, port, world) {
        let (g, k) = choose|g: int, k: int|
            0 <= g < groups.len() && #[trigger] rule_flag(groups, g, k, port, world);
        let p = rule_at(groups[g], k)->Some_0;
        assert(has_rule(groups, p));
    }
    if exists|p: IpPermission|
        #[trigger] has_rule(groups, p) && allows_tcp_port(p, port) && (if world {
            has_world_source(p)
        } else {
            has_any_source(p)
        }) {
        let p = choose|p: IpPermission|
            #[trigger] has_rule(groups, p) && allows_tcp_port(p, port) && (if world {
                has_world_source(p)
            } else {
                has_any_source(p)
            });
        let (g, k) = choose|g: int, k: int|
            0 <= g < groups.len() && #[trigger] rule_at(groups[g], k) == Some(p);
        assert(rule_flag(groups, g, k, port, world));
    }
}

/// The posture of the firewall groups `security_groups` for TCP `port`.
pub fn classify_port(security_groups: &[SecurityGroup], port: i64) -> (r: SgPort22Status)
    ensures
        r == posture_for_port(security_groups@, port),
{
    let ghost groups = security_groups@;
    if security_groups.len() == 0 {
        return SgPort22Status::Unknown;
    }
    let mut has_restricted = false;
    let mut g: usize = 0;
    while g < security_groups.len()
        invariant
            groups == security_groups@,
            g <= groups.len(),
            forall|g2: int, k2: int| 0 <= g2 < g ==> !#[trigger] rule_flag(groups, g2, k2, port, true),
            has_restricted ==> exists|g2: int, k2: int|
                0 <= g2 < groups.len() && #[trigger] rule_flag(groups, g2, k2, port, false),
            !has_restricted ==> forall|g2: int, k2: int|
                0 <= g2 < g ==> !#[trigger] rule_flag(groups, g2, k2, port, false),
        decreases groups.len() - g,
    {
        match &security_groups[g].ip_permissions {
            Some(permissions) => {
                let mut k: usize = 0;
                while k < permissions.len()
                    invariant
                        groups == security_groups@,
                        g < groups.len(),
                        groups[g as int].ip_permissions == Some(*permissions),
                        k <= permissions@.len(),
                        forall|g2: int, k2: int|
                            0 <= g2 < g ==> !#[trigger] rule_flag(groups, g2, k2, port, true),
                        forall|k2: int| 0 <= k2 < k ==> !#[trigger] rule_flag(groups, g as int, k2, port, true),
                        has_restricted ==> exists|g2: int, k2: int|
                            0 <= g2 < groups.len() && #[trigger] rule_flag(groups, g2, k2, port, false),
                        !has_restricted ==> forall|g2: int, k2: int|
                            0 <= g2 < g ==> !#[trigger] rule_flag(groups, g2, k2, port, false),
                        !has_restricted ==> forall|k2: int|
                            0 <= k2 < k ==> !#[trigger] rule_flag(groups, g as int, k2, port, false),
                    decreases permissions@.len() - k,
                {
                    let permission = &permissions[k];
                    assert(rule_at(groups[g as int], k as int) == Some(*permission));
                    if permission_allows_tcp_port(permission, port) {
                        if permission_has_world_source(permission) {
                            assert(rule_flag(groups, g as int, k as int, port, true));
                            proof {
                                lemma_flags_match_rules(groups, port, true);
                            }
                            return SgPort22Status::OpenWorld;
                        }
                        if permission_has_any_source(permission) {
                            assert(rule_flag(groups, g as int, k as int, port, false));
                            has_restricted = true;
                        }
                    }
                    k = k + 1;
                }
                assert forall|k2: int| !#[trigger] rule_flag(groups, g as int, k2, port, true) by {
                    if !(0 <= k2 < k) {
                        assert(rule_at(groups[g as int], k2) is None);
                    }
                }
                assert forall|k2: int| !has_restricted implies !#[trigger] rule_flag(groups, g as int, k2, port, false) by {
                    if !(0 <= k2 < k) {
                        assert(rule_at(groups[g as int], k2) is None);
                    }
                }
            },
            None => {
                assert forall|k2: int| !#[trigger] rule_flag(groups, g as int, k2, port, true) by {
                    assert(rule_at(groups[g as int], k2) is None);
                }
                assert forall|k2: int| !#[trigger] rule_flag(groups, g as int, k2, port, false) by {
                    assert(rule_at(groups[g as int], k2) is None);
                }
            },
        }
        g = g + 1;
    }
    proof {
        lemma_flags_match_rules(groups, port, true);
        lemma_flags_match_rules(groups, port, false);
    }
    if has_restricted {
        SgPort22Status::Restricted
    } else {
        SgPort22Status::Closed
    }
}

/// The posture of the firewall groups for the SSH port.
pub fn classify_sg_port_22(security_groups: &[SecurityGroup]) -> (r: SgPort22Status)
    ensures
        r == posture_for_port(security_groups@, 22),
{
    classify_port(security_groups, 22)
}

/// Why the remote probe is not attempted, checked in this order; `None` when
/// nothing stands in its way.
pub open spec fn skip_reason(
    instance_running: bool,
    public_ip_present: bool,
    az_present: bool,
    public_key_exists: bool,
) -> Option<Seq<char>> {
    if !instance_running {
        Some("instance-not-running"@)
    } else if !public_ip_present {
        Some("no-public-ip"@)
    } else if !az_present {
        Some("availability-zone-missing"@)
    } else if !public_key_exists {
        Some("ssh-public-key-not-found"@)
    } else {
        None
    }
}

/// The view of an optional static text.
pub open spec fn opt_str_view(o: Option<&str>) -> Option<Seq<char>> {
    match o {
        Some(s) => Some(s@),
        None => None,
    }
}

/// Why the remote probe is skipped, if it is.
pub fn eic_send_key_skip_reason(
    instance_running: bool,
    public_ip_present: bool,
    az_present: bool,
    public_key_exists: bool,
) -> (r: Option<&'static str>)
    ensures
        opt_str_view(r) == skip_reason(instance_running, public_ip_present, az_present, public_key_exists),
{
    if !instance_running {
        return Some("instance-not-running");
    }
    if !public_ip_present {
        return Some("no-public-ip");
    }
    if !az_present {
        return Some("availability-zone-missing");
    }
    if !public_key_exists {
        return Some("ssh-public-key-not-found");
    }
    None
}

/// The name under which a three-valued flag is reported.
pub open spec fn tri_bool_text(value: Option<bool>) -> Seq<char> {
    match value {
        Some(true) => "true"@,
        Some(false) => "false"@,
        None => "unknown"@,
    }
}

pub fn tri_bool_to_str(value: Option<bool>) -> (r: &'static str)
    ensures
        r@ == tri_bool_text(value),
{
    match value {
        Some(true) => "true",
        Some(false) => "false",
        None => "unknown",
    }
}

/// A provider message says that the caller lacks the permission.
pub open spec fn access_denied(message: Seq<char>) -> bool {
    let lower = ascii_lower(message);
    seq_contains(lower, "accessdenied"@) || seq_contains(lower, "access denied"@) || seq_contains(
        lower,
        "unauthorizedoperation"@,
    ) || seq_contains(lower, "not authorized"@)
}

/// Whether a provider message reports a denied permission, ignoring ASCII case.
pub fn is_access_denied_error(message: &str) -> (r: bool)
    ensures
        r == access_denied(message@),
{
    let lower = to_ascii_lowercase(message);
    let l = lower.as_str();
    contains(l, "accessdenied") || contains(l, "access denied") || contains(l, "unauthorizedoperation")
        || contains(l, "not authorized")
}

/// `s` with each line feed written as a backslash and an `n`.
pub open spec fn escape_newlines(s: Seq<char>) -> Seq<char>
    decreases s.len(),
{
    if s.len() == 0 {
        Seq::empty()
    } else {
        escape_newlines(s.drop_last()) + if s.last() == '\n' {
            seq!['\\', 'n']
        } else {
            seq![s.last()]
        }
    }
}

/// A value on a single line, for a `key=value` report.
pub fn one_line_value(value: &str) -> (r: String)
    ensures
        r@ == escape_newlines(value@),
{
    let n = value.unicode_len();
    let mut out = String::new();
    let mut i: usize = 0;
    while i < n
        invariant
            n == value@.len(),
            i <= n,
            out@ == escape_newlines(value@.subrange(0, i as int)),
        decreases n - i,
    {
        let c = value.get_char(i);
        assert(value@.subrange(0, i + 1).drop_last() =~= value@.subrange(0, i as int));
        if c == '\n' {
            push_char(&mut out, '\\');
            push_char(&mut out, 'n');
            assert(out@ =~= escape_newlines(value@.subrange(0, i + 1)));
        } else {
            push_char(&mut out, c);
            assert(out@ =~= escape_newlines(value@.subrange(0, i + 1)));
        }
        i = i + 1;
    }
    assert(value@.subrange(0, n as int) =~= value@);
    out
}

/// The verdict for the given signals, the first matching rule winning: its
/// level, whether a local SSH problem is likely, and its reason code.
pub open spec fn verdict(
    state: Seq<char>,
    checks: Option<bool>,
    probe: ProbeOutcome,
    posture: SgPort22Status,
) -> (HealthLevel, Option<bool>, Seq<char>) {
    if state != "running"@ {
        (HealthLevel::Unreachable, Some(false), "instance-not-running"@)
    } else if checks == Some(false) {
        (HealthLevel::Degraded, Some(false), "ec2-status-checks-not-passing"@)
    } else if checks == Some(true) && probe == ProbeOutcome::Success {
        (HealthLevel::Healthy, Some(true), "aws-control-plane-probe-succeeded"@)
    } else if posture == SgPort22Status::Closed {
        (HealthLevel::Degraded, Some(false), "security-group-port-22-closed"@)
    } else if checks is None {
        if probe == ProbeOutcome::Success {
            (HealthLevel::Degraded, None, "ec2-status-checks-unknown"@)
        } else {
            (
                HealthLevel::Unknown,
                None,
                "ec2-status-checks-unknown-and-no-remote-probe-confirmation"@,
            )
        }
    } else {
        (HealthLevel::Degraded, Some(false), "instance-running-but-remote-probe-not-confirmed"@)
    }
}

/// The view of a verdict.
pub open spec fn summary_view(s: HealthSummary) -> (HealthLevel, Option<bool>, Seq<char>) {
    (s.level, s.ssh_local_problem_likely, s.notes@)
}

fn summary(level: HealthLevel, local: Option<bool>, notes: &str) -> (r: HealthSummary)
    ensures
        summary_view(r) == (level, local, notes@),
{
    HealthSummary { level, ssh_local_problem_likely: local, notes: String::from_str(notes) }
}

/// Collapses the instance state, the status checks and the probe into one verdict.
pub fn summarize_health(
    instance_state: &str,
    ec2_checks_pass: Option<bool>,
    eic_probe: &EicProbeResult,
) -> (r: HealthSummary)
    ensures
        summary_view(r) == verdict(
            instance_state@,
            ec2_checks_pass,
            eic_probe.send_ssh_public_key,
            eic_probe.sg_port22,
        ),
{
    if !str_eq(instance_state, "running") {
        return summary(HealthLevel::Unreachable, Some(false), "instance-not-running");
    }
    if ec2_checks_pass == Some(false) {
        return summary(HealthLevel::Degraded, Some(false), "ec2-status-checks-not-passing");
    }
    let remote_probe_success = eic_probe.send_ssh_public_key == ProbeOutcome::Success;
    if ec2_checks_pass == Some(true) && remote_probe_success {
        return summary(HealthLevel::Healthy, Some(true), "aws-control-plane-probe-succeeded");
    }
    if eic_probe.sg_port22 == SgPort22Status::Closed {
        return summary(HealthLevel::Degraded, Some(false), "security-group-port-22-closed");
    }
    if ec2_checks_pass.is_none() {
        if remote_probe_success {
            return summary(HealthLevel::Degraded, None, "ec2-status-checks-unknown");
        } else {
            return summary(
                HealthLevel::Unknown,
                None,
                "ec2-status-checks-unknown-and-no-remote-probe-confirmation",
            );
        }
    }
    summary(HealthLevel::Degraded, Some(false), "instance-running-but-remote-probe-not-confirmed")
}

/// The two provider-reported sub-statuses of an instance, and the tri-state
/// derived from them.
#[derive(Debug, Clone)]
pub struct Ec2StatusChecks {
    pub system_status: String,
    pub instance_status: String,
    pub checks_pass: Option<bool>,
}

/// One entry of the provider's instance-status listing.
#[derive(Debug, Clone)]
pub struct InstanceStatusEntry {
    pub instance_id: String,
    pub system_status: Option<String>,
    pub instance_status: Option<String>,
}

/// Both sub-statuses `ok` pass; otherwise either one `unknown` makes the
/// result unknown; anything else fails.
pub open spec fn checks_verdict(system: Seq<char>, instance: Seq<char>) -> Option<bool> {
    if system == "ok"@ && instance == "ok"@ {
        Some(true)
    } else if system == "unknown"@ || instance == "unknown"@ {
        None
    } else {
        Some(false)
    }
}

/// A reported sub-status, or `unknown` where none (or only blanks) was reported.
pub open spec fn sub_status(reported: Option<String>) -> Seq<char> {
    match normalized(reported) {
        Some(t) => t,
        None => "unknown"@,
    }
}

/// The status checks of an instance in `state` for which the listing has no entry.
pub open spec fn checks_without_entry(state: Seq<char>) -> (Seq<char>, Seq<char>, Option<bool>) {
    if state == "stopped"@ || state == "stopping"@ || state == "shutting-down"@ {
        ("not-applicable"@, "not-applicable"@, None)
    } else {
        ("unknown"@, "unknown"@, None)
    }
}

/// The view of a status-check record.
pub open spec fn checks_view(c: Ec2StatusChecks) -> (Seq<char>, Seq<char>, Option<bool>) {
    (c.system_status@, c.instance_status@, c.checks_pass)
}

/// Combines two sub-statuses into the tri-state verdict.
pub fn combine_status_checks(system_status: &str, instance_status: &str) -> (r: Option<bool>)
    ensures
        r == checks_verdict(system_status@, instance_status@),
{
    if str_eq(system_status, "ok") && str_eq(instance_status, "ok") {
        Some(true)
    } else if str_eq(system_status, "unknown") || str_eq(instance_status, "unknown") {
        None
    } else {
        Some(false)
    }
}

fn sub_status_text(reported: &Option<String>) -> (r: String)
    ensures
        r@ == sub_status(*reported),
{
    match normalize_optional(reported.clone()) {
        Some(t) => t,
        None => String::from_str("unknown"),
    }
}

/// The status checks of instance `instance_id`, taken from the first entry of
/// `entries` for it; without one, they follow from the instance's state.
pub fn describe_ec2_status_checks(
    entries: &Vec<InstanceStatusEntry>,
    instance_id: &str,
    instance_state: &str,
) -> (r: Ec2StatusChecks)
    ensures
        (exists|i: int|
            0 <= i < entries@.len() && (#[trigger] entries@[i]).instance_id@ == instance_id@ && (
            forall|j: int| 0 <= j < i ==> (#[trigger] entries@[j]).instance_id@ != instance_id@)
                && checks_view(r) == (
                sub_status(entries@[i].system_status),
                sub_status(entries@[i].instance_status),
                checks_verdict(
                    sub_status(entries@[i].system_status),
                    sub_status(entries@[i].instance_status),
                ),
            )) || ((forall|i: int|
            0 <= i < entries@.len() ==> (#[trigger] entries@[i]).instance_id@ != instance_id@)
            && checks_view(r) == checks_without_entry(instance_state@)),
{
    let mut i: usize = 0;
    while i < entries.len()
        invariant
            i <= entries@.len(),
            forall|j: int| 0 <= j < i ==> (#[trigger] entries@[j]).instance_id@ != instance_id@,
        decreases entries@.len() - i,
    {
        let entry = &entries[i];
        if str_eq(entry.instance_id.as_str(), instance_id) {
            let system_status = sub_status_text(&entry.system_status);
            let instance_status = sub_status_text(&entry.instance_status);
            let checks_pass = combine_status_checks(system_status.as_str(), instance_status.as_str());
            return Ec2StatusChecks { system_status, instance_status, checks_pass };
        }
        i = i + 1;
    }
    if str_eq(instance_state, "stopped") || str_eq(instance_state, "stopping") || str_eq(
        instance_state,
        "shutting-down",
    ) {
        Ec2StatusChecks {
            system_status: String::from_str("not-applicable"),
            instance_status: String::from_str("not-applicable"),
            checks_pass: None,
        }
    } else {
        Ec2StatusChecks {
            system_status: String::from_str("unknown"),
            instance_status: String::from_str("unknown"),
            checks_pass: None,
        }
    }
}

/// The posture is open to the world exactly when some rule of the groups
/// covers the port and admits the IPv4 or IPv6 wildcard; and it depends only
/// on which rules the groups hold, not on their order.
pub proof fn posture_open_world_iff_wildcard_rule(
    groups: Seq<SecurityGroup>,
    reordered: Seq<SecurityGroup>,
    port: i64,
)
    requires
        (groups.len() == 0) == (reordered.len() == 0),
        forall|p: IpPermission| has_rule(groups, p) <==> has_rule(reordered, p),
    ensures
        (posture_for_port(groups, port) == SgPort22Status::OpenWorld) <==> (exists|p: IpPermission|
            #[trigger] has_rule(groups, p) && allows_tcp_port(p, port) && has_world_source(p)),
        posture_for_port(groups, port) == posture_for_port(reordered, port),
{
    assert((exists|p: IpPermission| #[trigger] has_rule(groups, p) && allows_tcp_port(p, port) && has_world_source(p))
        <==> (exists|p: IpPermission| #[trigger] has_rule(reordered, p) && allows_tcp_port(p, port) && has_world_source(p)));
    assert((exists|p: IpPermission| #[trigger] has_rule(groups, p) && allows_tcp_port(p, port) && has_any_source(p))
        <==> (exists|p: IpPermission| #[trigger] has_rule(reordered, p) && allows_tcp_port(p, port) && has_any_source(p)));
}

/// With no firewall groups the posture is unknown; with groups but no rule
/// that covers the port, it is closed.
pub proof fn posture_without_groups_or_matching_rules(groups: Seq<SecurityGroup>, port: i64)
    ensures
        groups.len() == 0 ==> posture_for_port(groups, port) == SgPort22Status::Unknown,
        groups.len() > 0 && (forall|p: IpPermission| #[trigger] has_rule(groups, p) ==> !allows_tcp_port(p, port))
            ==> posture_for_port(groups, port) == SgPort22Status::Closed,
{
}

/// The reasons to skip the probe take precedence in a fixed order: a stopped
/// instance, then a missing public address, then a missing zone, then a
/// missing local key; whatever the later flags say.
pub proof fn skip_reason_precedence(public_ip_present: bool, az_present: bool, public_key_exists: bool)
    ensures
        skip_reason(false, public_ip_present, az_present, public_key_exists) == Some("instance-not-running"@),
        skip_reason(true, false, az_present, public_key_exists) == Some("no-public-ip"@),
        skip_reason(true, true, false, public_key_exists) == Some("availability-zone-missing"@),
        skip_reason(true, true, true, false) == Some("ssh-public-key-not-found"@),
        skip_reason(true, true, true, true) is None,
{
}

/// A stopped instance is unreachable whatever its checks, probe and posture.
pub proof fn verdict_not_running_first(
    state: Seq<char>,
    checks: Option<bool>,
    probe: ProbeOutcome,
    posture: SgPort22Status,
)
    requires
        state != "running"@,
    ensures
        verdict(state, checks, probe, posture) == (HealthLevel::Unreachable, Some(false), "instance-not-running"@),
{
}

} // verus!
