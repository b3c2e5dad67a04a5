//! Identity conventions and derived names: tag-based resource names, the
//! argument lists that carry them, identifiers made safe for a cloud, and the
//! local paths of a cluster's configuration.
use vstd::prelude::*;
use crate::text::{lower_char, push_char, str_eq, trim, trim_of};

verus! {

/// The texts of a list of strings.
pub open spec fn texts(v: Seq<String>) -> Seq<Seq<char>> {
    v.map_values(|s: String| s@)
}

/// The texts of a list of static strings.
pub open spec fn str_texts(v: Seq<&str>) -> Seq<Seq<char>> {
    v.map_values(|s: &str| s@)
}

/// The name of a cluster's resource of the kind with suffix `suffix`.
pub open spec fn resource_name_of(cluster: Seq<char>, suffix: Seq<char>) -> Seq<char> {
    cluster + "-"@ + suffix
}

/// `a` followed by `b`, as a new string.
fn cat(a: &str, b: &str) -> (r: String)
    ensures
        r@ == a@ + b@,
{
    let mut s = String::from_str(a);
    s.append(b);
    s
}

/// `a`, `b` and `c` in a row, as a new string.
fn cat3(a: &str, b: &str, c: &str) -> (r: String)
    ensures
        r@ == a@ + b@ + c@,
{
    let mut s = String::from_str(a);
    s.append(b);
    s.append(c);
    s
}

/// The `Name` tag of a cluster's resource: `"{cluster}-{suffix}"`.
pub fn resource_name(cluster: &str, suffix: &str) -> (r: String)
    ensures
        r@ == resource_name_of(cluster@, suffix@),
{
    cat3(cluster, "-", suffix)
}

/// The tag specification that a create call carries.
pub open spec fn tag_spec_of(resource_type: Seq<char>, name: Seq<char>, cluster: Seq<char>) -> Seq<char> {
    "ResourceType="@ + resource_type + ",Tags=[{Key=Name,Value="@ + name
        + "},{Key=Cluster,Value="@ + cluster + "}]"@
}

/// Tags a new resource with its `Name` and its `Cluster`.
pub fn tag_spec(resource_type: &str, name: &str, cluster: &str) -> (r: String)
    ensures
        r@ == tag_spec_of(resource_type@, name@, cluster@),
{
    let mut s = String::from_str("ResourceType=");
    s.append(resource_type);
    s.append(",Tags=[{Key=Name,Value=");
    s.append(name);
    s.append("},{Key=Cluster,Value=");
    s.append(cluster);
    s.append("}]");
    s
}

/// The filter on the `Name` tag.
pub open spec fn name_filter_of(name: Seq<char>) -> Seq<char> {
    "Name=tag:Name,Values="@ + name
}

/// The filter on the `Cluster` tag.
pub open spec fn cluster_filter_of(cluster: Seq<char>) -> Seq<char> {
    "Name=tag:Cluster,Values="@ + cluster
}

/// The two filters that select a resource by its identity tags.
pub fn tag_filters(resource_name: &str, cluster: &str) -> (r: Vec<String>)
    ensures
        texts(r@) == seq![name_filter_of(resource_name@), cluster_filter_of(cluster@)],
{
    let mut v: Vec<String> = Vec::new();
    v.push(cat("Name=tag:Name,Values=", resource_name));
    v.push(cat("Name=tag:Cluster,Values=", cluster));
    assert(texts(v@) =~= seq![name_filter_of(resource_name@), cluster_filter_of(cluster@)]);
    v
}

/// An argument list made of the given words.
pub fn aws_args(parts: &[&str]) -> (r: Vec<String>)
    ensures
        texts(r@) == str_texts(parts@),
{
    let mut v: Vec<String> = Vec::new();
    let mut i: usize = 0;
    while i < parts.len()
        invariant
            i <= parts@.len(),
            texts(v@) == str_texts(parts@.subrange(0, i as int)),
        decreases parts@.len() - i,
    {
        let ghost prev = v@;
        let item = String::from_str(parts[i]);
        v.push(item);
        assert(texts(v@) =~= texts(prev).push(item@));
        assert(str_texts(parts@.subrange(0, i + 1)) =~= str_texts(parts@.subrange(0, i as int)).push(
            parts@[i as int]@,
        ));
        i = i + 1;
    }
    assert(parts@.subrange(0, parts@.len() as int) =~= parts@);
    v
}

/// Each filter preceded by the `--filters` flag.
pub open spec fn filter_args(filters: Seq<Seq<char>>) -> Seq<Seq<char>>
    decreases filters.len(),
{
    if filters.len() == 0 {
        Seq::empty()
    } else {
        filter_args(filters.drop_last()) + seq!["--filters"@, filters.last()]
    }
}

/// Appends each filter, preceded by the `--filters` flag.
pub fn append_filters(args: &mut Vec<String>, filters: &[String])
    ensures
        texts(final(args)@) == texts(old(args)@) + filter_args(texts(filters@)),
{
    let ghost start = texts(args@);
    let mut i: usize = 0;
    while i < filters.len()
        invariant
            i <= filters@.len(),
            texts(args@) == start + filter_args(texts(filters@.subrange(0, i as int))),
        decreases filters@.len() - i,
    {
        let ghost prev = args@;
        let flag = String::from_str("--filters");
        let item = filters[i].clone();
        args.push(flag);
        args.push(item);
        assert(texts(args@) =~= texts(prev) + seq![flag@, item@]);
        let ghost f = texts(filters@.subrange(0, i + 1));
        assert(f.drop_last() =~= texts(filters@.subrange(0, i as int)));
        assert(f.last() == filters@[i as int]@);
        assert(texts(args@) =~= start + filter_args(f));
        i = i + 1;
    }
    assert(filters@.subrange(0, filters@.len() as int) =~= filters@);
}

/// An ASCII letter or digit.
pub open spec fn is_alnum(c: char) -> bool {
    ('a' <= c && c <= 'z') || ('A' <= c && c <= 'Z') || ('0' <= c && c <= '9')
}

/// An ASCII letter.
pub open spec fn is_alpha(c: char) -> bool {
    ('a' <= c && c <= 'z') || ('A' <= c && c <= 'Z')
}

/// Letters and digits lower-cased, every run of other characters made one `-`.
pub open spec fn collapse(s: Seq<char>) -> Seq<char>
    decreases s.len(),
{
    if s.len() == 0 {
        Seq::empty()
    } else {
        let prev = collapse(s.drop_last());
        if is_alnum(s.last()) {
            prev.push(lower_char(s.last()))
        } else if prev.len() > 0 && prev.last() == '-' {
            prev
        } else {
            prev.push('-')
        }
    }
}

/// `s` without its leading dashes.
pub open spec fn strip_leading_dashes(s: Seq<char>) -> Seq<char>
    decreases s.len(),
{
    if s.len() > 0 && s[0] == '-' {
        strip_leading_dashes(s.drop_first())
    } else {
        s
    }
}

/// `s` without its trailing dashes.
pub open spec fn strip_trailing_dashes(s: Seq<char>) -> Seq<char>
    decreases s.len(),
{
    if s.len() > 0 && s.last() == '-' {
        strip_trailing_dashes(s.drop_last())
    } else {
        s
    }
}

/// An identifier that cloud label and tag rules accept: lower-case letters,
/// digits and single dashes, starting with a letter.
pub open spec fn sanitized(s: Seq<char>) -> Seq<char> {
    let t = strip_trailing_dashes(strip_leading_dashes(collapse(s)));
    let u = if t.len() == 0 {
        "cluster"@
    } else {
        t
    };
    if u.len() > 0 && is_alpha(u[0]) {
        u
    } else {
        seq!['c'] + u
    }
}

/// Makes a cluster name usable as a cloud label or tag value.
pub fn sanitize_cloud_identifier(input: &str) -> (r: String)
    ensures
        r@ == sanitized(input@),
{
    let n = input.unicode_len();
    let mut out = String::new();
    let mut i: usize = 0;
    while i < n
        invariant
            n == input@.len(),
            i <= n,
            out@ == collapse(input@.subrange(0, i as int)),
        decreases n - i,
    {
        let ch = input.get_char(i);
        assert(input@.subrange(0, i + 1).drop_last() =~= input@.subrange(0, i as int));
        let alnum = ('a' <= ch && ch <= 'z') || ('A' <= ch && ch <= 'Z') || ('0' <= ch && ch <= '9');
        if alnum {
            let lc: char = if 'A' <= ch && ch <= 'Z' {
                ((ch as u8) + 32) as char
            } else {
                ch
            };
            push_char(&mut out, lc);
        } else {
            let m = out.as_str().unicode_len();
            if m == 0 || out.as_str().get_char(m - 1) != '-' {
                push_char(&mut out, '-');
            }
        }
        i = i + 1;
    }
    assert(input@.subrange(0, n as int) =~= input@);
    let ghost c = out@;
    let m = out.as_str().unicode_len();
    let mut start: usize = 0;
    assert(c.subrange(0, m as int) =~= c);
    while start < m && out.as_str().get_char(start) == '-'
        invariant
            c == out@,
            m == c.len(),
            start <= m,
            strip_leading_dashes(c) == strip_leading_dashes(c.subrange(start as int, m as int)),
        decreases m - start,
    {
        assert(c.subrange(start as int, m as int).drop_first() =~= c.subrange(start + 1, m as int));
        start = start + 1;
    }
    assert(strip_leading_dashes(c) == c.subrange(start as int, m as int));
    let ghost l = c.subrange(start as int, m as int);
    let mut end: usize = m;
    while end > start && out.as_str().get_char(end - 1) == '-'
        invariant
            c == out@,
            m == c.len(),
            start <= end <= m,
            l == c.subrange(start as int, m as int),
            strip_trailing_dashes(l) == strip_trailing_dashes(c.subrange(start as int, end as int)),
        decreases end - start,
    {
        assert(c.subrange(start as int, end as int).drop_last() =~= c.subrange(start as int, end - 1));
        end = end - 1;
    }
    let core = out.as_str().substring_char(start, end);
    assert(strip_trailing_dashes(l) == core@);
    let base = if core.unicode_len() == 0 {
        String::from_str("cluster")
    } else {
        String::from_str(core)
    };
    proof {
        reveal_strlit("cluster");
        reveal_strlit("c");
    }
    assert("c"@ =~= seq!['c']);
    let first = base.as_str().get_char(0);
    let alpha = ('a' <= first && first <= 'z') || ('A' <= first && first <= 'Z');
    if alpha {
        base
    } else {
        cat("c", base.as_str())
    }
}

/// The label value that marks a cluster's instances.
pub fn gce_cluster_label_value(cluster: &str) -> (r: String)
    ensures
        r@ == sanitized(cluster@),
{
    sanitize_cloud_identifier(cluster)
}

/// The tag that marks a cluster's droplets.
pub fn droplet_cluster_tag(cluster: &str) -> (r: String)
    ensures
        r@ == "cluster-"@ + sanitized(cluster@),
{
    let s = sanitize_cloud_identifier(cluster);
    cat("cluster-", s.as_str())
}

/// What follows the last `/` of a path, or the whole path where it has none.
pub open spec fn last_segment(s: Seq<char>) -> Seq<char>
    decreases s.len(),
{
    if s.len() == 0 {
        s
    } else if s.last() == '/' {
        Seq::empty()
    } else {
        last_segment(s.drop_last()).push(s.last())
    }
}

fn last_path_segment(path: &str) -> (r: String)
    ensures
        r@ == last_segment(path@),
{
    let n = path.unicode_len();
    let mut out = String::new();
    let mut i: usize = 0;
    while i < n
        invariant
            n == path@.len(),
            i <= n,
            out@ == last_segment(path@.subrange(0, i as int)),
        decreases n - i,
    {
        let ch = path.get_char(i);
        assert(path@.subrange(0, i + 1).drop_last() =~= path@.subrange(0, i as int));
        if ch == '/' {
            out = String::new();
        } else {
            push_char(&mut out, ch);
        }
        i = i + 1;
    }
    assert(path@.subrange(0, n as int) =~= path@);
    out
}

/// The zone name at the end of a zone's resource path.
pub fn zone_name_from_path(path: &str) -> (r: String)
    ensures
        r@ == last_segment(path@),
{
    last_path_segment(path)
}

/// The region name at the end of a region's resource path.
pub fn region_name_from_path(path: &str) -> (r: String)
    ensures
        r@ == last_segment(path@),
{
    last_path_segment(path)
}

/// The private key beside a public key: the trimmed path without `.pub`.
pub open spec fn private_key_of(public_key_path: Seq<char>) -> Seq<char> {
    let t = trim_of(public_key_path);
    if t.len() >= 4 && t.subrange(t.len() - 4, t.len() as int) == ".pub"@ {
        t.subrange(0, t.len() - 4)
    } else {
        t
    }
}

/// The private key path that goes with a public key path.
pub fn derive_private_key_path(public_key_path: &str) -> (r: String)
    ensures
        r@ == private_key_of(public_key_path@),
{
    let trimmed = trim(public_key_path);
    let n = trimmed.unicode_len();
    if n >= 4 && str_eq(trimmed.substring_char(n - 4, n), ".pub") {
        String::from_str(trimmed.substring_char(0, n - 4))
    } else {
        String::from_str(trimmed)
    }
}

/// `part` below `base`, as a path: an absolute `part` stands alone, and one
/// separator goes between the two.
pub open spec fn join_of(base: Seq<char>, part: Seq<char>) -> Seq<char> {
    if part.len() > 0 && part[0] == '/' {
        part
    } else if base.len() == 0 {
        part
    } else if base.last() == '/' {
        base + part
    } else {
        base + "/"@ + part
    }
}

/// `part` below `base`, as a path.
pub fn join_path(base: &str, part: &str) -> (r: String)
    ensures
        r@ == join_of(base@, part@),
{
    let pn = part.unicode_len();
    if pn > 0 && part.get_char(0) == '/' {
        return String::from_str(part);
    }
    let bn = base.unicode_len();
    if bn == 0 {
        String::from_str(part)
    } else if base.get_char(bn - 1) == '/' {
        cat(base, part)
    } else {
        cat3(base, "/", part)
    }
}

/// A path with a leading `~` taken as the home directory `home`.
pub open spec fn expanded_of(path: Seq<char>, home: Seq<char>) -> Seq<char> {
    let t = trim_of(path);
    if t == "~"@ {
        home
    } else if t.len() >= 2 && t[0] == '~' && t[1] == '/' {
        join_of(home, t.subrange(2, t.len() as int))
    } else {
        t
    }
}

/// Expands a leading `~` of a trimmed path to the home directory `home`.
pub fn expand_home_path(path: &str, home: &str) -> (r: String)
    ensures
        r@ == expanded_of(path@, home@),
{
    let trimmed = trim(path);
    if str_eq(trimmed, "~") {
        return String::from_str(home);
    }
    let n = trimmed.unicode_len();
    if n >= 2 && trimmed.get_char(0) == '~' && trimmed.get_char(1) == '/' {
        return join_path(home, trimmed.substring_char(2, n));
    }
    String::from_str(trimmed)
}

/// Where the key pair that the tool generates keeps its private half.
pub fn default_ssh_private_key_path(config_root: &str) -> (r: String)
    ensures
        r@ == join_of(config_root@, "vmcli"@),
{
    join_path(config_root, "vmcli")
}

/// Where the key pair that the tool generates keeps its public half.
pub fn default_ssh_public_key_path(config_root: &str) -> (r: String)
    ensures
        r@ == join_of(config_root@, "vmcli.pub"@),
{
    join_path(config_root, "vmcli.pub")
}

/// The global configuration file.
pub fn global_config_path(config_root: &str) -> (r: String)
    ensures
        r@ == join_of(config_root@, "config.toml"@),
{
    join_path(config_root, "config.toml")
}

/// The directory of a cluster's local files for one provider.
pub open spec fn cluster_dir_of(config_root: Seq<char>, provider: Seq<char>, cluster: Seq<char>) -> Seq<char> {
    join_of(join_of(config_root, provider), cluster)
}

/// The directory of a cluster's local files for one provider.
pub fn provider_cluster_dir(config_root: &str, provider: &str, cluster: &str) -> (r: String)
    ensures
        r@ == cluster_dir_of(config_root@, provider@, cluster@),
{
    let p = join_path(config_root, provider);
    join_path(p.as_str(), cluster)
}

/// The configuration file of a cluster for one provider.
pub fn provider_cluster_config_path(config_root: &str, provider: &str, cluster: &str) -> (r: String)
    ensures
        r@ == join_of(cluster_dir_of(config_root@, provider@, cluster@), "config.toml"@),
{
    let d = provider_cluster_dir(config_root, provider, cluster);
    join_path(d.as_str(), "config.toml")
}

/// The generated SSH client configuration of a cluster for one provider.
pub fn provider_cluster_ssh_config_path(config_root: &str, provider: &str, cluster: &str) -> (r: String)
    ensures
        r@ == join_of(cluster_dir_of(config_root@, provider@, cluster@), "ssh_config"@),
{
    let d = provider_cluster_dir(config_root, provider, cluster);
    join_path(d.as_str(), "ssh_config")
}

pub fn ec2_cluster_dir(config_root: &str, cluster: &str) -> (r: String)
    ensures
        r@ == cluster_dir_of(config_root@, "ec2"@, cluster@),
{
    provider_cluster_dir(config_root, "ec2", cluster)
}

pub fn ec2_cluster_config_path(config_root: &str, cluster: &str) -> (r: String)
    ensures
        r@ == join_of(cluster_dir_of(config_root@, "ec2"@, cluster@), "config.toml"@),
{
    provider_cluster_config_path(config_root, "ec2", cluster)
}

pub fn ec2_cluster_ssh_config_path(config_root: &str, cluster: &str) -> (r: String)
    ensures
        r@ == join_of(cluster_dir_of(config_root@, "ec2"@, cluster@), "ssh_config"@),
{
    provider_cluster_ssh_config_path(config_root, "ec2", cluster)
}

pub fn lightsail_cluster_dir(config_root: &str, cluster: &str) -> (r: String)
    ensures
        r@ == cluster_dir_of(config_root@, "lightsail"@, cluster@),
{
    provider_cluster_dir(config_root, "lightsail", cluster)
}

pub fn lightsail_cluster_config_path(config_root: &str, cluster: &str) -> (r: String)
    ensures
        r@ == join_of(cluster_dir_of(config_root@, "lightsail"@, cluster@), "config.toml"@),
{
    provider_cluster_config_path(config_root, "lightsail", cluster)
}

pub fn lightsail_cluster_ssh_config_path(config_root: &str, cluster: &str) -> (r: String)
    ensures
        r@ == join_of(cluster_dir_of(config_root@, "lightsail"@, cluster@), "ssh_config"@),
{
    provider_cluster_ssh_config_path(config_root, "lightsail", cluster)
}

pub fn gce_cluster_dir(config_root: &str, cluster: &str) -> (r: String)
    ensures
        r@ == cluster_dir_of(config_root@, "gce"@, cluster@),
{
    provider_cluster_dir(config_root, "gce", cluster)
}

pub fn gce_cluster_config_path(config_root: &str, cluster: &str) -> (r: String)
    ensures
        r@ == join_of(cluster_dir_of(config_root@, "gce"@, cluster@), "config.toml"@),
{
    provider_cluster_config_path(config_root, "gce", cluster)
}

pub fn gce_cluster_ssh_config_path(config_root: &str, cluster: &str) -> (r: String)
    ensures
        r@ == join_of(cluster_dir_of(config_root@, "gce"@, cluster@), "ssh_config"@),
{
    provider_cluster_ssh_config_path(config_root, "gce", cluster)
}

pub fn droplet_cluster_dir(config_root: &str, cluster: &str) -> (r: String)
    ensures
        r@ == cluster_dir_of(config_root@, "droplet"@, cluster@),
{
    provider_cluster_dir(config_root, "droplet", cluster)
}

pub fn droplet_cluster_config_path(config_root: &str, cluster: &str) -> (r: String)
    ensures
        r@ == join_of(cluster_dir_of(config_root@, "droplet"@, cluster@), "config.toml"@),
{
    provider_cluster_config_path(config_root, "droplet", cluster)
}

pub fn droplet_cluster_ssh_config_path(config_root: &str, cluster: &str) -> (r: String)
    ensures
        r@ == join_of(cluster_dir_of(config_root@, "droplet"@, cluster@), "ssh_config"@),
{
    provider_cluster_ssh_config_path(config_root, "droplet", cluster)
}

/// A `key = "value"` line of a configuration file.
pub open spec fn setting_line(key: Seq<char>, value: Seq<char>) -> Seq<char> {
    key + " = \""@ + value + "\"\n"@
}

fn push_setting(out: &mut String, key: &str, value: &str)
    ensures
        final(out)@ == old(out)@ + setting_line(key@, value@),
{
    out.append(key);
    out.append(" = \"");
    out.append(value);
    out.append("\"\n");
}

/// The head of a new cluster configuration: its name and the provider's section.
pub open spec fn config_head(cluster: Seq<char>, section: Seq<char>) -> Seq<char> {
    setting_line("cluster_name"@, cluster) + "\n["@ + section + "]\n"@
}

fn config_head_text(cluster: &str, section: &str) -> (r: String)
    ensures
        r@ == config_head(cluster@, section@),
{
    let mut out = String::new();
    push_setting(&mut out, "cluster_name", cluster);
    out.append("\n[");
    out.append(section);
    out.append("]\n");
    assert(out@ =~= config_head(cluster@, section@));
    out
}

/// The configuration file that `init` writes for an EC2 cluster.
pub fn default_ec2_config_contents(
    cluster: &str,
    region: &str,
    ssh_public_key_path: &str,
    default_instance_type: &str,
) -> (r: String)
    ensures
        r@ == config_head(cluster@, "ec2"@) + setting_line("region"@, region@) + setting_line(
            "ssh_public_key_path"@,
            ssh_public_key_path@,
        ) + setting_line("default_instance_type"@, default_instance_type@) + setting_line(
            "ami_id"@,
            ""@,
        ),
{
    let mut out = config_head_text(cluster, "ec2");
    push_setting(&mut out, "region", region);
    push_setting(&mut out, "ssh_public_key_path", ssh_public_key_path);
    push_setting(&mut out, "default_instance_type", default_instance_type);
    push_setting(&mut out, "ami_id", "");
    out
}

/// The configuration file that `init` writes for a Lightsail cluster.
pub fn default_lightsail_config_contents(
    cluster: &str,
    region: &str,
    ssh_public_key_path: &str,
    availability_zone: &str,
    default_bundle_id: &str,
    blueprint_id: &str,
) -> (r: String)
    ensures
        r@ == config_head(cluster@, "lightsail"@) + setting_line("region"@, region@) + setting_line(
            "ssh_public_key_path"@,
            ssh_public_key_path@,
        ) + setting_line("availability_zone"@, availability_zone@) + setting_line(
            "default_bundle_id"@,
            default_bundle_id@,
        ) + setting_line("blueprint_id"@, blueprint_id@) + setting_line("key_pair_name"@, ""@),
{
    let mut out = config_head_text(cluster, "lightsail");
    push_setting(&mut out, "region", region);
    push_setting(&mut out, "ssh_public_key_path", ssh_public_key_path);
    push_setting(&mut out, "availability_zone", availability_zone);
    push_setting(&mut out, "default_bundle_id", default_bundle_id);
    push_setting(&mut out, "blueprint_id", blueprint_id);
    push_setting(&mut out, "key_pair_name", "");
    out
}

/// The configuration file that `init` writes for a GCE cluster.
pub fn default_gce_config_contents(
    cluster: &str,
    project: &str,
    zone: &str,
    ssh_public_key_path: &str,
    machine_type: &str,
    image_family: &str,
    image_project: &str,
    ssh_user: &str,
) -> (r: String)
    ensures
        r@ == config_head(cluster@, "gce"@) + setting_line("project"@, project@) + setting_line(
            "zone"@,
            zone@,
        ) + setting_line("ssh_public_key_path"@, ssh_public_key_path@) + setting_line(
            "default_machine_type"@,
            machine_type@,
        ) + setting_line("image_family"@, image_family@) + setting_line(
            "image_project"@,
            image_project@,
        ) + setting_line("ssh_user"@, ssh_user@),
{
    let mut out = config_head_text(cluster, "gce");
    push_setting(&mut out, "project", project);
    push_setting(&mut out, "zone", zone);
    push_setting(&mut out, "ssh_public_key_path", ssh_public_key_path);
    push_setting(&mut out, "default_machine_type", machine_type);
    push_setting(&mut out, "image_family", image_family);
    push_setting(&mut out, "image_project", image_project);
    push_setting(&mut out, "ssh_user", ssh_user);
    out
}

/// The configuration file that `init` writes for a droplet cluster.
pub fn default_droplet_config_contents(
    cluster: &str,
    region: &str,
    ssh_public_key_path: &str,
    default_size: &str,
    image: &str,
) -> (r: String)
    ensures
        r@ == config_head(cluster@, "droplet"@) + setting_line("region"@, region@) + setting_line(
            "ssh_public_key_path"@,
            ssh_public_key_path@,
        ) + setting_line("default_size"@, default_size@) + setting_line("image"@, image@)
            + setting_line("ssh_key_fingerprint"@, ""@),
{
    let mut out = config_head_text(cluster, "droplet");
    push_setting(&mut out, "region", region);
    push_setting(&mut out, "ssh_public_key_path", ssh_public_key_path);
    push_setting(&mut out, "default_size", default_size);
    push_setting(&mut out, "image", image);
    push_setting(&mut out, "ssh_key_fingerprint", "");
    out
}

} // verus!
