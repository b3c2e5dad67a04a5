//! Status listing: the entries that a status report shows, and the SSH
//! client configuration generated from them.
use vstd::prelude::*;

verus! {

/// One instance of a status report.
#[derive(Debug, Clone)]
pub struct InstanceEntry {
    pub name: Option<String>,
    pub instance_id: String,
    pub state: String,
    pub public_ip: Option<String>,
}

/// The name shown for an entry: its own, or `N/A`.
pub open spec fn shown_name(e: InstanceEntry) -> Seq<char> {
    match e.name {
        Some(n) => n@,
        None => "N/A"@,
    }
}

impl InstanceEntry {
    pub fn display_name(&self) -> (r: &str)
        ensures
            r@ == shown_name(*self),
    {
        match &self.name {
            Some(n) => n.as_str(),
            None => "N/A",
        }
    }
}

/// The host stanza of an entry that has a name and a public address.
pub open spec fn host_stanza(e: InstanceEntry, identity_file: Seq<char>) -> Seq<char> {
    "\nHost "@ + e.name->Some_0@ + "\n  HostName "@ + e.public_ip->Some_0@ + "\n  User ubuntu\n  IdentitiesOnly yes\n  IdentityFile "@
        + identity_file + "\n"@
}

/// The host stanzas of the entries that have both a name and a public address.
pub open spec fn host_stanzas(entries: Seq<InstanceEntry>, identity_file: Seq<char>) -> Seq<char>
    decreases entries.len(),
{
    if entries.len() == 0 {
        Seq::empty()
    } else {
        let e = entries.last();
        host_stanzas(entries.drop_last(), identity_file) + if e.name is Some && e.public_ip is Some {
            host_stanza(e, identity_file)
        } else {
            Seq::empty()
        }
    }
}

/// An optional identifier, or `N/A`.
pub open spec fn or_na(o: Option<&str>) -> Seq<char> {
    match o {
        Some(s) => s@,
        None => "N/A"@,
    }
}

/// The SSH client configuration of a cluster: the network and firewall group
/// as header comments, then one host per named instance with a public address.
pub open spec fn ssh_config_text(
    entries: Seq<InstanceEntry>,
    vpc_id: Option<&str>,
    sg_id: Option<&str>,
    identity_file: Seq<char>,
) -> Seq<char> {
    "# vpc-id: "@ + or_na(vpc_id) + "\n# sg-id: "@ + or_na(sg_id) + "\n"@ + host_stanzas(entries, identity_file)
}

fn or_na_text(o: Option<&str>) -> (r: &str)
    ensures
        r@ == or_na(o),
{
    match o {
        Some(s) => s,
        None => "N/A",
    }
}

/// The text of the SSH client configuration.
pub fn ssh_config_contents(
    entries: &Vec<InstanceEntry>,
    vpc_id: Option<&str>,
    sg_id: Option<&str>,
    identity_file: &str,
) -> (r: String)
    ensures
        r@ == ssh_config_text(entries@, vpc_id, sg_id, identity_file@),
{
    let mut out = String::from_str("# vpc-id: ");
    out.append(or_na_text(vpc_id));
    out.append("\n# sg-id: ");
    out.append(or_na_text(sg_id));
    out.append("\n");
    let ghost head = out@;
    let mut i: usize = 0;
    while i < entries.len()
        invariant
            i <= entries@.len(),
            out@ == head + host_stanzas(entries@.subrange(0, i as int), identity_file@),
        decreases entries@.len() - i,
    {
        assert(entries@.subrange(0, i + 1).drop_last() =~= entries@.subrange(0, i as int));
        assert(entries@.subrange(0, i + 1).last() == entries@[i as int]);
        let e = &entries[i];
        match (&e.name, &e.public_ip) {
            (Some(n), Some(ip)) => {
                let ghost before = out@;
                out.append("\nHost ");
                out.append(n.as_str());
                out.append("\n  HostName ");
                out.append(ip.as_str());
                out.append("\n  User ubuntu\n  IdentitiesOnly yes\n  IdentityFile ");
                out.append(identity_file);
                out.append("\n");
                assert(out@ =~= before + host_stanza(*e, identity_file@));
            },
            _ => {},
        }
        assert(out@ =~= head + host_stanzas(entries@.subrange(0, i + 1), identity_file@));
        i = i + 1;
    }
    assert(entries@.subrange(0, entries@.len() as int) =~= entries@);
    out
}

} // verus!
