//! Configuration sections, their normalisation and the layering of a global
//! configuration under a cluster-specific one.
use vstd::prelude::*;
use crate::text::{trim, trim_of};
use crate::naming::{default_ssh_public_key_path, join_of, ec2_cluster_ssh_config_path, lightsail_cluster_ssh_config_path, gce_cluster_ssh_config_path, droplet_cluster_ssh_config_path, cluster_dir_of};

verus! {

/// What an optional setting becomes once trimmed: absent when nothing is left.
pub open spec fn normalized(value: Option<String>) -> Option<Seq<char>> {
    match value {
        Some(s) => if trim_of(s@).len() == 0 {
            None
        } else {
            Some(trim_of(s@))
        },
        None => None,
    }
}

/// The view of an optional text.
pub open spec fn opt_view(value: Option<String>) -> Option<Seq<char>> {
    match value {
        Some(s) => Some(s@),
        None => None,
    }
}

/// Trims a setting and treats an empty result as absent.
pub fn normalize_optional(value: Option<String>) -> (r: Option<String>)
    ensures
        opt_view(r) == normalized(value),
{
    match value {
        Some(item) => {
            let trimmed = trim(item.as_str());
            if trimmed.unicode_len() == 0 {
                None
            } else {
                Some(String::from_str(trimmed))
            }
        },
        None => None,
    }
}

/// The setting of the overlay where it has one, else that of the base.
pub open spec fn layered(overlay: Option<String>, base: Option<String>) -> Option<Seq<char>> {
    if overlay is Some {
        opt_view(overlay)
    } else {
        opt_view(base)
    }
}

fn pick(overlay: Option<String>, base: Option<String>) -> (r: Option<String>)
    ensures
        opt_view(r) == layered(overlay, base),
{
    if overlay.is_some() {
        overlay
    } else {
        base
    }
}

/// The `[ec2]` section of a configuration file.
#[derive(Debug, Clone)]
pub struct AwsConfigSection {
    pub region: Option<String>,
    pub ssh_public_key_path: Option<String>,
    pub default_instance_type: Option<String>,
    pub ami_id: Option<String>,
}

/// The `[lightsail]` section of a configuration file.
#[derive(Debug, Clone)]
pub struct LightsailConfigSection {
    pub region: Option<String>,
    pub ssh_public_key_path: Option<String>,
    pub availability_zone: Option<String>,
    pub default_bundle_id: Option<String>,
    pub blueprint_id: Option<String>,
    pub key_pair_name: Option<String>,
}

/// The `[gce]` section of a configuration file.
#[derive(Debug, Clone)]
pub struct GceConfigSection {
    pub project: Option<String>,
    pub zone: Option<String>,
    pub ssh_public_key_path: Option<String>,
    pub default_machine_type: Option<String>,
    pub image_family: Option<String>,
    pub image_project: Option<String>,
    pub ssh_user: Option<String>,
}

/// The `[droplet]` section of a configuration file.
#[derive(Debug, Clone)]
pub struct DropletConfigSection {
    pub region: Option<String>,
    pub ssh_public_key_path: Option<String>,
    pub default_size: Option<String>,
    pub image: Option<String>,
    pub ssh_key_fingerprint: Option<String>,
}

/// The global configuration file: defaults for each provider.
#[derive(Debug, Clone)]
pub struct GlobalConfig {
    pub ec2: Option<AwsConfigSection>,
    pub lightsail: Option<LightsailConfigSection>,
    pub gce: Option<GceConfigSection>,
    pub droplet: Option<DropletConfigSection>,
}

/// A cluster's configuration file.
#[derive(Debug, Clone)]
pub struct ClusterConfig {
    pub cluster_name: Option<String>,
    pub ec2: Option<AwsConfigSection>,
    pub lightsail: Option<LightsailConfigSection>,
    pub gce: Option<GceConfigSection>,
    pub droplet: Option<DropletConfigSection>,
}

/// The settings of an `[ec2]` section.
pub open spec fn aws_view(s: AwsConfigSection) -> Seq<Option<Seq<char>>> {
    seq![opt_view(s.region), opt_view(s.ssh_public_key_path), opt_view(s.default_instance_type), opt_view(s.ami_id)]
}

/// The settings of a `[lightsail]` section.
pub open spec fn lightsail_view(s: LightsailConfigSection) -> Seq<Option<Seq<char>>> {
    seq![
        opt_view(s.region),
        opt_view(s.ssh_public_key_path),
        opt_view(s.availability_zone),
        opt_view(s.default_bundle_id),
        opt_view(s.blueprint_id),
        opt_view(s.key_pair_name),
    ]
}

/// The settings of a `[gce]` section.
pub open spec fn gce_view(s: GceConfigSection) -> Seq<Option<Seq<char>>> {
    seq![
        opt_view(s.project),
        opt_view(s.zone),
        opt_view(s.ssh_public_key_path),
        opt_view(s.default_machine_type),
        opt_view(s.image_family),
        opt_view(s.image_project),
        opt_view(s.ssh_user),
    ]
}

/// The settings of a `[droplet]` section.
pub open spec fn droplet_view(s: DropletConfigSection) -> Seq<Option<Seq<char>>> {
    seq![
        opt_view(s.region),
        opt_view(s.ssh_public_key_path),
        opt_view(s.default_size),
        opt_view(s.image),
        opt_view(s.ssh_key_fingerprint),
    ]
}

/// Trims every setting of an `[ec2]` section, dropping the empty ones.
pub fn normalize_aws_section(section: &mut Option<AwsConfigSection>)
    ensures
        match *old(section) {
            Some(o) => match *final(section) {
                Some(n) => aws_view(n) == seq![
                    normalized(o.region),
                    normalized(o.ssh_public_key_path),
                    normalized(o.default_instance_type),
                    normalized(o.ami_id),
                ],
                None => false,
            },
            None => *final(section) is None,
        },
{
    match section {
        Some(ec2) => {
            ec2.region = normalize_optional(ec2.region.clone());
            ec2.ssh_public_key_path = normalize_optional(ec2.ssh_public_key_path.clone());
            ec2.default_instance_type = normalize_optional(ec2.default_instance_type.clone());
            ec2.ami_id = normalize_optional(ec2.ami_id.clone());
        },
        None => {},
    }
}

/// Trims every setting of a `[lightsail]` section, dropping the empty ones.
pub fn normalize_lightsail_section(section: &mut Option<LightsailConfigSection>)
    ensures
        match *old(section) {
            Some(o) => match *final(section) {
                Some(n) => lightsail_view(n) == seq![
                    normalized(o.region),
                    normalized(o.ssh_public_key_path),
                    normalized(o.availability_zone),
                    normalized(o.default_bundle_id),
                    normalized(o.blueprint_id),
                    normalized(o.key_pair_name),
                ],
                None => false,
            },
            None => *final(section) is None,
        },
{
    match section {
        Some(l) => {
            l.region = normalize_optional(l.region.clone());
            l.ssh_public_key_path = normalize_optional(l.ssh_public_key_path.clone());
            l.availability_zone = normalize_optional(l.availability_zone.clone());
            l.default_bundle_id = normalize_optional(l.default_bundle_id.clone());
            l.blueprint_id = normalize_optional(l.blueprint_id.clone());
            l.key_pair_name = normalize_optional(l.key_pair_name.clone());
        },
        None => {},
    }
}

/// Trims every setting of a `[gce]` section, dropping the empty ones.
pub fn normalize_gce_section(section: &mut Option<GceConfigSection>)
    ensures
        match *old(section) {
            Some(o) => match *final(section) {
                Some(n) => gce_view(n) == seq![
                    normalized(o.project),
                    normalized(o.zone),
                    normalized(o.ssh_public_key_path),
                    normalized(o.default_machine_type),
                    normalized(o.image_family),
                    normalized(o.image_project),
                    normalized(o.ssh_user),
                ],
                None => false,
            },
            None => *final(section) is None,
        },
{
    match section {
        Some(g) => {
            g.project = normalize_optional(g.project.clone());
            g.zone = normalize_optional(g.zone.clone());
            g.ssh_public_key_path = normalize_optional(g.ssh_public_key_path.clone());
            g.default_machine_type = normalize_optional(g.default_machine_type.clone());
            g.image_family = normalize_optional(g.image_family.clone());
            g.image_project = normalize_optional(g.image_project.clone());
            g.ssh_user = normalize_optional(g.ssh_user.clone());
        },
        None => {},
    }
}

/// Trims every setting of a `[droplet]` section, dropping the empty ones.
pub fn normalize_droplet_section(section: &mut Option<DropletConfigSection>)
    ensures
        match *old(section) {
            Some(o) => match *final(section) {
                Some(n) => droplet_view(n) == seq![
                    normalized(o.region),
                    normalized(o.ssh_public_key_path),
                    normalized(o.default_size),
                    normalized(o.image),
                    normalized(o.ssh_key_fingerprint),
                ],
                None => false,
            },
            None => *final(section) is None,
        },
{
    match section {
        Some(d) => {
            d.region = normalize_optional(d.region.clone());
            d.ssh_public_key_path = normalize_optional(d.ssh_public_key_path.clone());
            d.default_size = normalize_optional(d.default_size.clone());
            d.image = normalize_optional(d.image.clone());
            d.ssh_key_fingerprint = normalize_optional(d.ssh_key_fingerprint.clone());
        },
        None => {},
    }
}

/// An `[ec2]` section with no settings.
pub fn empty_aws_section() -> (r: AwsConfigSection)
    ensures
        r.region is None && r.ssh_public_key_path is None && r.default_instance_type is None && r.ami_id is None,
{
    AwsConfigSection { region: None, ssh_public_key_path: None, default_instance_type: None, ami_id: None }
}

/// Layers an `[ec2]` overlay over a base, setting by setting.
pub fn merge_aws_section(base: Option<AwsConfigSection>, overlay: Option<AwsConfigSection>) -> (r: AwsConfigSection)
    ensures
        ({
            let b = match base { Some(b) => b, None => empty_aws_spec() };
            let o = match overlay { Some(o) => o, None => empty_aws_spec() };
            aws_view(r) == seq![
                layered(o.region, b.region),
                layered(o.ssh_public_key_path, b.ssh_public_key_path),
                layered(o.default_instance_type, b.default_instance_type),
                layered(o.ami_id, b.ami_id),
            ]
        }),
{
    let b = match base {
        Some(b) => b,
        None => empty_aws_section(),
    };
    let o = match overlay {
        Some(o) => o,
        None => empty_aws_section(),
    };
    AwsConfigSection {
        region: pick(o.region, b.region),
        ssh_public_key_path: pick(o.ssh_public_key_path, b.ssh_public_key_path),
        default_instance_type: pick(o.default_instance_type, b.default_instance_type),
        ami_id: pick(o.ami_id, b.ami_id),
    }
}

fn copy_aws_section(s: &Option<AwsConfigSection>) -> (r: Option<AwsConfigSection>)
    ensures
        match *s {
            Some(a) => r is Some && aws_view(r->Some_0) == aws_view(a),
            None => r is None,
        },
{
    match s {
        Some(a) => Some(
            AwsConfigSection {
                region: a.region.clone(),
                ssh_public_key_path: a.ssh_public_key_path.clone(),
                default_instance_type: a.default_instance_type.clone(),
                ami_id: a.ami_id.clone(),
            },
        ),
        None => None,
    }
}

/// An `[ec2]` section with no settings.
pub open spec fn empty_aws_spec() -> AwsConfigSection {
    AwsConfigSection { region: None, ssh_public_key_path: None, default_instance_type: None, ami_id: None }
}

/// The effective EC2 configuration of a cluster.
#[derive(Debug, Clone)]
pub struct AwsEffectiveConfig {
    pub cluster_name: String,
    pub region: String,
    pub ssh_public_key_path: String,
    pub default_instance_type: String,
    pub ami_id: Option<String>,
    pub ssh_config_path: String,
}

/// Why no effective configuration could be made.
#[derive(Debug, Clone, Copy, PartialEq, Eq, Structural)]
pub enum ConfigError {
    /// The cluster file names another cluster.
    ClusterNameMismatch,
    /// No region is configured.
    MissingRegion,
    /// No public key path is configured.
    MissingSshPublicKeyPath,
    /// No project is configured or given by the environment.
    MissingProject,
}

/// The cluster file names a cluster other than `cluster`.
pub open spec fn names_other_cluster(cluster_config: ClusterConfig, cluster: Seq<char>) -> bool {
    match cluster_config.cluster_name {
        Some(n) => n@ != cluster,
        None => false,
    }
}

fn check_cluster_name(cluster_config: &ClusterConfig, cluster: &str) -> (r: bool)
    ensures
        r == !names_other_cluster(*cluster_config, cluster@),
{
    match &cluster_config.cluster_name {
        Some(n) => crate::text::str_eq(n.as_str(), cluster),
        None => true,
    }
}

/// The effective EC2 configuration: the cluster's `[ec2]` section over the
/// global one; region and public key path required, the instance type
/// defaulting to `t3.micro`.
pub open spec fn aws_effective(
    config_root: Seq<char>,
    cluster: Seq<char>,
    global: GlobalConfig,
    cluster_config: ClusterConfig,
) -> Result<Seq<Option<Seq<char>>>, ConfigError> {
    let b = match global.ec2 { Some(b) => b, None => empty_aws_spec() };
    let o = match cluster_config.ec2 { Some(o) => o, None => empty_aws_spec() };
    let region = layered(o.region, b.region);
    let key = layered(o.ssh_public_key_path, b.ssh_public_key_path);
    let itype = layered(o.default_instance_type, b.default_instance_type);
    if names_other_cluster(cluster_config, cluster) {
        Err(ConfigError::ClusterNameMismatch)
    } else if region is None {
        Err(ConfigError::MissingRegion)
    } else if key is None {
        Err(ConfigError::MissingSshPublicKeyPath)
    } else {
        Ok(seq![
            Some(cluster),
            region,
            key,
            Some(match itype { Some(t) => t, None => "t3.micro"@ }),
            layered(o.ami_id, b.ami_id),
            Some(join_of(cluster_dir_of(config_root, "ec2"@, cluster), "ssh_config"@)),
        ])
    }
}

/// The view of an effective EC2 configuration.
pub open spec fn aws_effective_view(c: AwsEffectiveConfig) -> Seq<Option<Seq<char>>> {
    seq![
        Some(c.cluster_name@),
        Some(c.region@),
        Some(c.ssh_public_key_path@),
        Some(c.default_instance_type@),
        opt_view(c.ami_id),
        Some(c.ssh_config_path@),
    ]
}

/// Builds the effective EC2 configuration of `cluster` from the global and
/// the cluster's configuration files, both already normalised.
pub fn load_aws_config(
    config_root: &str,
    cluster: &str,
    global: &GlobalConfig,
    cluster_config: &ClusterConfig,
) -> (r: Result<AwsEffectiveConfig, ConfigError>)
    ensures
        match r {
            Ok(c) => aws_effective(config_root@, cluster@, *global, *cluster_config) == Ok::<Seq<Option<Seq<char>>>, ConfigError>(aws_effective_view(c)),
            Err(e) => aws_effective(config_root@, cluster@, *global, *cluster_config) == Err::<Seq<Option<Seq<char>>>, ConfigError>(e),
        },
{
    if !check_cluster_name(cluster_config, cluster) {
        return Err(ConfigError::ClusterNameMismatch);
    }
    let merged = merge_aws_section(copy_aws_section(&global.ec2), copy_aws_section(&cluster_config.ec2));
    let region = match merged.region {
        Some(r) => r,
        None => return Err(ConfigError::MissingRegion),
    };
    let ssh_public_key_path = match merged.ssh_public_key_path {
        Some(k) => k,
        None => return Err(ConfigError::MissingSshPublicKeyPath),
    };
    let default_instance_type = match merged.default_instance_type {
        Some(t) => t,
        None => String::from_str("t3.micro"),
    };
    let ssh_config_path = ec2_cluster_ssh_config_path(config_root, cluster);
    let c = AwsEffectiveConfig {
        cluster_name: String::from_str(cluster),
        region,
        ssh_public_key_path,
        default_instance_type,
        ami_id: merged.ami_id,
        ssh_config_path,
    };
    assert(aws_effective_view(c) =~= aws_effective(config_root@, cluster@, *global, *cluster_config)->Ok_0);
    Ok(c)
}

/// The instance size to launch: the override where given, else the default.
pub fn resolve_instance_type(config: &AwsEffectiveConfig, override_value: Option<String>) -> (r: String)
    ensures
        r@ == match override_value {
            Some(v) => v@,
            None => config.default_instance_type@,
        },
{
    match override_value {
        Some(v) => v,
        None => config.default_instance_type.clone(),
    }
}

/// A `[lightsail]` section with no settings.
pub open spec fn empty_lightsail_spec() -> LightsailConfigSection {
    LightsailConfigSection { region: None, ssh_public_key_path: None, availability_zone: None, default_bundle_id: None, blueprint_id: None, key_pair_name: None }
}

fn empty_lightsail_section() -> (r: LightsailConfigSection)
    ensures
        r == empty_lightsail_spec(),
{
    LightsailConfigSection { region: None, ssh_public_key_path: None, availability_zone: None, default_bundle_id: None, blueprint_id: None, key_pair_name: None }
}

fn copy_lightsail_section(s: &Option<LightsailConfigSection>) -> (r: Option<LightsailConfigSection>)
    ensures
        match *s {
            Some(a) => r is Some && lightsail_view(r->Some_0) == lightsail_view(a),
            None => r is None,
        },
{
    match s {
        Some(a) => Some(
            LightsailConfigSection {
                region: a.region.clone(),
                ssh_public_key_path: a.ssh_public_key_path.clone(),
                availability_zone: a.availability_zone.clone(),
                default_bundle_id: a.default_bundle_id.clone(),
                blueprint_id: a.blueprint_id.clone(),
                key_pair_name: a.key_pair_name.clone(),
            },
        ),
        None => None,
    }
}

/// Layers a `[lightsail]` overlay over a base, setting by setting.
pub fn merge_lightsail_section(base: Option<LightsailConfigSection>, overlay: Option<LightsailConfigSection>) -> (r: LightsailConfigSection)
    ensures
        ({
            let b = match base { Some(b) => b, None => empty_lightsail_spec() };
            let o = match overlay { Some(o) => o, None => empty_lightsail_spec() };
            lightsail_view(r) == seq![
                layered(o.region, b.region),
                layered(o.ssh_public_key_path, b.ssh_public_key_path),
                layered(o.availability_zone, b.availability_zone),
                layered(o.default_bundle_id, b.default_bundle_id),
                layered(o.blueprint_id, b.blueprint_id),
                layered(o.key_pair_name, b.key_pair_name),
            ]
        }),
{
    let b = match base {
        Some(b) => b,
        None => empty_lightsail_section(),
    };
    let o = match overlay {
        Some(o) => o,
        None => empty_lightsail_section(),
    };
    let r = LightsailConfigSection {
        region: pick(o.region, b.region),
        ssh_public_key_path: pick(o.ssh_public_key_path, b.ssh_public_key_path),
        availability_zone: pick(o.availability_zone, b.availability_zone),
        default_bundle_id: pick(o.default_bundle_id, b.default_bundle_id),
        blueprint_id: pick(o.blueprint_id, b.blueprint_id),
        key_pair_name: pick(o.key_pair_name, b.key_pair_name),
    };
    assert(lightsail_view(r) =~= seq![
        layered(o.region, b.region),
        layered(o.ssh_public_key_path, b.ssh_public_key_path),
        layered(o.availability_zone, b.availability_zone),
        layered(o.default_bundle_id, b.default_bundle_id),
        layered(o.blueprint_id, b.blueprint_id),
        layered(o.key_pair_name, b.key_pair_name),
    ]);
    r
}

/// A `[gce]` section with no settings.
pub open spec fn empty_gce_spec() -> GceConfigSection {
    GceConfigSection { project: None, zone: None, ssh_public_key_path: None, default_machine_type: None, image_family: None, image_project: None, ssh_user: None }
}

fn empty_gce_section() -> (r: GceConfigSection)
    ensures
        r == empty_gce_spec(),
{
    GceConfigSection { project: None, zone: None, ssh_public_key_path: None, default_machine_type: None, image_family: None, image_project: None, ssh_user: None }
}

fn copy_gce_section(s: &Option<GceConfigSection>) -> (r: Option<GceConfigSection>)
    ensures
        match *s {
            Some(a) => r is Some && gce_view(r->Some_0) == gce_view(a),
            None => r is None,
        },
{
    match s {
        Some(a) => Some(
            GceConfigSection {
                project: a.project.clone(),
                zone: a.zone.clone(),
                ssh_public_key_path: a.ssh_public_key_path.clone(),
                default_machine_type: a.default_machine_type.clone(),
                image_family: a.image_family.clone(),
                image_project: a.image_project.clone(),
                ssh_user: a.ssh_user.clone(),
            },
        ),
        None => None,
    }
}

/// Layers a `[gce]` overlay over a base, setting by setting.
pub fn merge_gce_section(base: Option<GceConfigSection>, overlay: Option<GceConfigSection>) -> (r: GceConfigSection)
    ensures
        ({
            let b = match base { Some(b) => b, None => empty_gce_spec() };
            let o = match overlay { Some(o) => o, None => empty_gce_spec() };
            gce_view(r) == seq![
                layered(o.project, b.project),
                layered(o.zone, b.zone),
                layered(o.ssh_public_key_path, b.ssh_public_key_path),
                layered(o.default_machine_type, b.default_machine_type),
                layered(o.image_family, b.image_family),
                layered(o.image_project, b.image_project),
                layered(o.ssh_user, b.ssh_user),
            ]
        }),
{
    let b = match base {
        Some(b) => b,
        None => empty_gce_section(),
    };
    let o = match overlay {
        Some(o) => o,
        None => empty_gce_section(),
    };
    let r = GceConfigSection {
        project: pick(o.project, b.project),
        zone: pick(o.zone, b.zone),
        ssh_public_key_path: pick(o.ssh_public_key_path, b.ssh_public_key_path),
        default_machine_type: pick(o.default_machine_type, b.default_machine_type),
        image_family: pick(o.image_family, b.image_family),
        image_project: pick(o.image_project, b.image_project),
        ssh_user: pick(o.ssh_user, b.ssh_user),
    };
    assert(gce_view(r) =~= seq![
        layered(o.project, b.project),
        layered(o.zone, b.zone),
        layered(o.ssh_public_key_path, b.ssh_public_key_path),
        layered(o.default_machine_type, b.default_machine_type),
        layered(o.image_family, b.image_family),
        layered(o.image_project, b.image_project),
        layered(o.ssh_user, b.ssh_user),
    ]);
    r
}

/// A `[droplet]` section with no settings.
pub open spec fn empty_droplet_spec() -> DropletConfigSection {
    DropletConfigSection { region: None, ssh_public_key_path: None, default_size: None, image: None, ssh_key_fingerprint: None }
}

fn empty_droplet_section() -> (r: DropletConfigSection)
    ensures
        r == empty_droplet_spec(),
{
    DropletConfigSection { region: None, ssh_public_key_path: None, default_size: None, image: None, ssh_key_fingerprint: None }
}

fn copy_droplet_section(s: &Option<DropletConfigSection>) -> (r: Option<DropletConfigSection>)
    ensures
        match *s {
            Some(a) => r is Some && droplet_view(r->Some_0) == droplet_view(a),
            None => r is None,
        },
{
    match s {
        Some(a) => Some(
            DropletConfigSection {
                region: a.region.clone(),
                ssh_public_key_path: a.ssh_public_key_path.clone(),
                default_size: a.default_size.clone(),
                image: a.image.clone(),
                ssh_key_fingerprint: a.ssh_key_fingerprint.clone(),
            },
        ),
        None => None,
    }
}

/// Layers a `[droplet]` overlay over a base, setting by setting.
pub fn merge_droplet_section(base: Option<DropletConfigSection>, overlay: Option<DropletConfigSection>) -> (r: DropletConfigSection)
    ensures
        ({
            let b = match base { Some(b) => b, None => empty_droplet_spec() };
            let o = match overlay { Some(o) => o, None => empty_droplet_spec() };
            droplet_view(r) == seq![
                layered(o.region, b.region),
                layered(o.ssh_public_key_path, b.ssh_public_key_path),
                layered(o.default_size, b.default_size),
                layered(o.image, b.image),
                layered(o.ssh_key_fingerprint, b.ssh_key_fingerprint),
            ]
        }),
{
    let b = match base {
        Some(b) => b,
        None => empty_droplet_section(),
    };
    let o = match overlay {
        Some(o) => o,
        None => empty_droplet_section(),
    };
    let r = DropletConfigSection {
        region: pick(o.region, b.region),
        ssh_public_key_path: pick(o.ssh_public_key_path, b.ssh_public_key_path),
        default_size: pick(o.default_size, b.default_size),
        image: pick(o.image, b.image),
        ssh_key_fingerprint: pick(o.ssh_key_fingerprint, b.ssh_key_fingerprint),
    };
    assert(droplet_view(r) =~= seq![
        layered(o.region, b.region),
        layered(o.ssh_public_key_path, b.ssh_public_key_path),
        layered(o.default_size, b.default_size),
        layered(o.image, b.image),
        layered(o.ssh_key_fingerprint, b.ssh_key_fingerprint),
    ]);
    r
}

/// A setting, or its default.
pub open spec fn or_default(value: Option<Seq<char>>, default: Seq<char>) -> Seq<char> {
    match value {
        Some(v) => v,
        None => default,
    }
}

fn take_or(value: Option<String>, default: &str) -> (r: String)
    ensures
        r@ == or_default(opt_view(value), default@),
{
    match value {
        Some(v) => v,
        None => String::from_str(default),
    }
}

/// The effective Lightsail configuration of a cluster.
#[derive(Debug, Clone)]
pub struct LightsailEffectiveConfig {
    pub cluster_name: String,
    pub region: String,
    pub ssh_public_key_path: String,
    pub availability_zone: String,
    pub default_bundle_id: String,
    pub blueprint_id: String,
    pub key_pair_name: Option<String>,
    pub ssh_config_path: String,
}

/// The view of an effective Lightsail configuration.
pub open spec fn lightsail_effective_view(c: LightsailEffectiveConfig) -> Seq<Option<Seq<char>>> {
    seq![
        Some(c.cluster_name@),
        Some(c.region@),
        Some(c.ssh_public_key_path@),
        Some(c.availability_zone@),
        Some(c.default_bundle_id@),
        Some(c.blueprint_id@),
        opt_view(c.key_pair_name),
        Some(c.ssh_config_path@),
    ]
}

/// The effective Lightsail configuration: every setting has a default, the
/// zone being the region's `a` zone.
pub open spec fn lightsail_effective(
    config_root: Seq<char>,
    cluster: Seq<char>,
    global: GlobalConfig,
    cluster_config: ClusterConfig,
) -> Result<Seq<Option<Seq<char>>>, ConfigError> {
    let b = match global.lightsail { Some(b) => b, None => empty_lightsail_spec() };
    let o = match cluster_config.lightsail { Some(o) => o, None => empty_lightsail_spec() };
    let region = or_default(layered(o.region, b.region), "ap-northeast-1"@);
    if names_other_cluster(cluster_config, cluster) {
        Err(ConfigError::ClusterNameMismatch)
    } else {
        Ok(seq![
            Some(cluster),
            Some(region),
            Some(or_default(layered(o.ssh_public_key_path, b.ssh_public_key_path), join_of(config_root, "vmcli.pub"@))),
            Some(or_default(layered(o.availability_zone, b.availability_zone), region + "a"@)),
            Some(or_default(layered(o.default_bundle_id, b.default_bundle_id), "nano_3_0"@)),
            Some(or_default(layered(o.blueprint_id, b.blueprint_id), "ubuntu_24_04"@)),
            layered(o.key_pair_name, b.key_pair_name),
            Some(join_of(cluster_dir_of(config_root, "lightsail"@, cluster), "ssh_config"@)),
        ])
    }
}

/// Builds the effective Lightsail configuration of `cluster`.
pub fn load_lightsail_config(
    config_root: &str,
    cluster: &str,
    global: &GlobalConfig,
    cluster_config: &ClusterConfig,
) -> (r: Result<LightsailEffectiveConfig, ConfigError>)
    ensures
        match r {
            Ok(c) => lightsail_effective(config_root@, cluster@, *global, *cluster_config) == Ok::<Seq<Option<Seq<char>>>, ConfigError>(lightsail_effective_view(c)),
            Err(e) => lightsail_effective(config_root@, cluster@, *global, *cluster_config) == Err::<Seq<Option<Seq<char>>>, ConfigError>(e),
        },
{
    if !check_cluster_name(cluster_config, cluster) {
        return Err(ConfigError::ClusterNameMismatch);
    }
    let merged = merge_lightsail_section(copy_lightsail_section(&global.lightsail), copy_lightsail_section(&cluster_config.lightsail));
    let region = take_or(merged.region, "ap-northeast-1");
    let default_key = default_ssh_public_key_path(config_root);
    let ssh_public_key_path = take_or(merged.ssh_public_key_path, default_key.as_str());
    let mut default_zone = region.clone();
    default_zone.append("a");
    let availability_zone = take_or(merged.availability_zone, default_zone.as_str());
    let default_bundle_id = take_or(merged.default_bundle_id, "nano_3_0");
    let blueprint_id = take_or(merged.blueprint_id, "ubuntu_24_04");
    let ssh_config_path = lightsail_cluster_ssh_config_path(config_root, cluster);
    let c = LightsailEffectiveConfig {
        cluster_name: String::from_str(cluster),
        region,
        ssh_public_key_path,
        availability_zone,
        default_bundle_id,
        blueprint_id,
        key_pair_name: merged.key_pair_name,
        ssh_config_path,
    };
    assert(lightsail_effective_view(c) =~= lightsail_effective(config_root@, cluster@, *global, *cluster_config)->Ok_0);
    Ok(c)
}

/// The effective droplet configuration of a cluster.
#[derive(Debug, Clone)]
pub struct DropletEffectiveConfig {
    pub cluster_name: String,
    pub region: String,
    pub ssh_public_key_path: String,
    pub default_size: String,
    pub image: String,
    pub ssh_key_fingerprint: Option<String>,
    pub ssh_config_path: String,
}

/// The view of an effective droplet configuration.
pub open spec fn droplet_effective_view(c: DropletEffectiveConfig) -> Seq<Option<Seq<char>>> {
    seq![
        Some(c.cluster_name@),
        Some(c.region@),
        Some(c.ssh_public_key_path@),
        Some(c.default_size@),
        Some(c.image@),
        opt_view(c.ssh_key_fingerprint),
        Some(c.ssh_config_path@),
    ]
}

/// The effective droplet configuration: every setting has a default.
pub open spec fn droplet_effective(
    config_root: Seq<char>,
    cluster: Seq<char>,
    global: GlobalConfig,
    cluster_config: ClusterConfig,
) -> Result<Seq<Option<Seq<char>>>, ConfigError> {
    let b = match global.droplet { Some(b) => b, None => empty_droplet_spec() };
    let o = match cluster_config.droplet { Some(o) => o, None => empty_droplet_spec() };
    if names_other_cluster(cluster_config, cluster) {
        Err(ConfigError::ClusterNameMismatch)
    } else {
        Ok(seq![
            Some(cluster),
            Some(or_default(layered(o.region, b.region), "sfo3"@)),
            Some(or_default(layered(o.ssh_public_key_path, b.ssh_public_key_path), join_of(config_root, "vmcli.pub"@))),
            Some(or_default(layered(o.default_size, b.default_size), "s-1vcpu-1gb"@)),
            Some(or_default(layered(o.image, b.image), "ubuntu-24-04-x64"@)),
            layered(o.ssh_key_fingerprint, b.ssh_key_fingerprint),
            Some(join_of(cluster_dir_of(config_root, "droplet"@, cluster), "ssh_config"@)),
        ])
    }
}

/// Builds the effective droplet configuration of `cluster`.
pub fn load_droplet_config(
    config_root: &str,
    cluster: &str,
    global: &GlobalConfig,
    cluster_config: &ClusterConfig,
) -> (r: Result<DropletEffectiveConfig, ConfigError>)
    ensures
        match r {
            Ok(c) => droplet_effective(config_root@, cluster@, *global, *cluster_config) == Ok::<Seq<Option<Seq<char>>>, ConfigError>(droplet_effective_view(c)),
            Err(e) => droplet_effective(config_root@, cluster@, *global, *cluster_config) == Err::<Seq<Option<Seq<char>>>, ConfigError>(e),
        },
{
    if !check_cluster_name(cluster_config, cluster) {
        return Err(ConfigError::ClusterNameMismatch);
    }
    let merged = merge_droplet_section(copy_droplet_section(&global.droplet), copy_droplet_section(&cluster_config.droplet));
    let region = take_or(merged.region, "sfo3");
    let default_key = default_ssh_public_key_path(config_root);
    let ssh_public_key_path = take_or(merged.ssh_public_key_path, default_key.as_str());
    let default_size = take_or(merged.default_size, "s-1vcpu-1gb");
    let image = take_or(merged.image, "ubuntu-24-04-x64");
    let ssh_config_path = droplet_cluster_ssh_config_path(config_root, cluster);
    let c = DropletEffectiveConfig {
        cluster_name: String::from_str(cluster),
        region,
        ssh_public_key_path,
        default_size,
        image,
        ssh_key_fingerprint: merged.ssh_key_fingerprint,
        ssh_config_path,
    };
    assert(droplet_effective_view(c) =~= droplet_effective(config_root@, cluster@, *global, *cluster_config)->Ok_0);
    Ok(c)
}

/// The effective Compute Engine configuration of a cluster.
#[derive(Debug, Clone)]
pub struct GceEffectiveConfig {
    pub cluster_name: String,
    pub project: String,
    pub zone: String,
    pub ssh_public_key_path: String,
    pub default_machine_type: String,
    pub image_family: String,
    pub image_project: String,
    pub ssh_user: String,
    pub ssh_config_path: String,
}

/// The view of an effective Compute Engine configuration.
pub open spec fn gce_effective_view(c: GceEffectiveConfig) -> Seq<Option<Seq<char>>> {
    seq![
        Some(c.cluster_name@),
        Some(c.project@),
        Some(c.zone@),
        Some(c.ssh_public_key_path@),
        Some(c.default_machine_type@),
        Some(c.image_family@),
        Some(c.image_project@),
        Some(c.ssh_user@),
        Some(c.ssh_config_path@),
    ]
}

/// The effective Compute Engine configuration: the project is required, from
/// the files or else from `env_project` (what the environment names); the
/// other settings have defaults.
pub open spec fn gce_effective(
    config_root: Seq<char>,
    cluster: Seq<char>,
    global: GlobalConfig,
    cluster_config: ClusterConfig,
    env_project: Option<Seq<char>>,
) -> Result<Seq<Option<Seq<char>>>, ConfigError> {
    let b = match global.gce { Some(b) => b, None => empty_gce_spec() };
    let o = match cluster_config.gce { Some(o) => o, None => empty_gce_spec() };
    let project = match layered(o.project, b.project) {
        Some(p) => Some(p),
        None => env_project,
    };
    if names_other_cluster(cluster_config, cluster) {
        Err(ConfigError::ClusterNameMismatch)
    } else if project is None {
        Err(ConfigError::MissingProject)
    } else {
        Ok(seq![
            Some(cluster),
            project,
            Some(or_default(layered(o.zone, b.zone), "asia-northeast1-a"@)),
            Some(or_default(layered(o.ssh_public_key_path, b.ssh_public_key_path), join_of(config_root, "vmcli.pub"@))),
            Some(or_default(layered(o.default_machine_type, b.default_machine_type), "e2-micro"@)),
            Some(or_default(layered(o.image_family, b.image_family), "ubuntu-2404-lts-amd64"@)),
            Some(or_default(layered(o.image_project, b.image_project), "ubuntu-os-cloud"@)),
            Some(or_default(layered(o.ssh_user, b.ssh_user), "ubuntu"@)),
            Some(join_of(cluster_dir_of(config_root, "gce"@, cluster), "ssh_config"@)),
        ])
    }
}

/// Builds the effective Compute Engine configuration of `cluster`;
/// `env_project` is the project that the environment names, if any.
pub fn load_gce_config(
    config_root: &str,
    cluster: &str,
    global: &GlobalConfig,
    cluster_config: &ClusterConfig,
    env_project: Option<String>,
) -> (r: Result<GceEffectiveConfig, ConfigError>)
    ensures
        match r {
            Ok(c) => gce_effective(config_root@, cluster@, *global, *cluster_config, opt_view(env_project)) == Ok::<Seq<Option<Seq<char>>>, ConfigError>(gce_effective_view(c)),
            Err(e) => gce_effective(config_root@, cluster@, *global, *cluster_config, opt_view(env_project)) == Err::<Seq<Option<Seq<char>>>, ConfigError>(e),
        },
{
    if !check_cluster_name(cluster_config, cluster) {
        return Err(ConfigError::ClusterNameMismatch);
    }
    let merged = merge_gce_section(copy_gce_section(&global.gce), copy_gce_section(&cluster_config.gce));
    let project = match merged.project {
        Some(p) => p,
        None => match env_project {
            Some(p) => p,
            None => return Err(ConfigError::MissingProject),
        },
    };
    let zone = take_or(merged.zone, "asia-northeast1-a");
    let default_key = default_ssh_public_key_path(config_root);
    let ssh_public_key_path = take_or(merged.ssh_public_key_path, default_key.as_str());
    let default_machine_type = take_or(merged.default_machine_type, "e2-micro");
    let image_family = take_or(merged.image_family, "ubuntu-2404-lts-amd64");
    let image_project = take_or(merged.image_project, "ubuntu-os-cloud");
    let ssh_user = take_or(merged.ssh_user, "ubuntu");
    let ssh_config_path = gce_cluster_ssh_config_path(config_root, cluster);
    let c = GceEffectiveConfig {
        cluster_name: String::from_str(cluster),
        project,
        zone,
        ssh_public_key_path,
        default_machine_type,
        image_family,
        image_project,
        ssh_user,
        ssh_config_path,
    };
    assert(gce_effective_view(c) =~= gce_effective(config_root@, cluster@, *global, *cluster_config, opt_view(env_project))->Ok_0);
    Ok(c)
}

} // verus!
