//! The remote reachability probe: whether it runs, the command it issues,
//! and how its reply becomes an outcome.
use vstd::prelude::*;
use crate::health::{
    access_denied, eic_send_key_skip_reason, is_access_denied_error, skip_reason, EicProbeResult,
    ProbeOutcome, SgPort22Status,
};
use crate::locator::{instance_availability_zone, Instance};
use crate::naming::{aws_args, texts};
use crate::provider::{aws_error_text, error_text, CommandOutput};
use crate::text::{str_eq, trim, trim_of};

verus! {

/// The instance has a public address that is not blank.
pub open spec fn has_public_ip(instance: Instance) -> bool {
    match instance.public_ip {
        Some(ip) => trim_of(ip@).len() > 0,
        None => false,
    }
}

/// The instance has a placement zone.
pub open spec fn has_zone(instance: Instance) -> bool {
    match instance.placement {
        Some(p) => p.availability_zone is Some,
        None => false,
    }
}

/// The instance's placement zone, where it has one.
pub open spec fn zone_of(instance: Instance) -> Seq<char> {
    instance.placement->Some_0.availability_zone->Some_0@
}

/// The command that injects the public key at `key_path` for `os_user`.
pub open spec fn send_key_command(instance: Instance, os_user: Seq<char>, key_path: Seq<char>) -> Seq<Seq<char>> {
    seq![
        "ec2-instance-connect"@,
        "send-ssh-public-key"@,
        "--instance-id"@,
        instance.instance_id@,
        "--instance-os-user"@,
        os_user,
        "--availability-zone"@,
        zone_of(instance),
        "--ssh-public-key"@,
        "file://"@ + key_path,
        "--output"@,
        "json"@,
    ]
}

/// The probe either stands decided, or waits on the key injection.
#[derive(Debug)]
pub enum ProbeStep {
    Done(EicProbeResult),
    Send(EicProbeResult, Vec<String>),
}

/// The inputs of the probe that its result records.
pub open spec fn records_inputs(
    r: EicProbeResult,
    instance: Instance,
    sg_port22: SgPort22Status,
    os_user: Seq<char>,
) -> bool {
    &&& r.os_user@ == os_user
    &&& r.instance_running == (instance.state.name@ == "running"@)
    &&& r.public_ip_present == has_public_ip(instance)
    &&& r.az_present == has_zone(instance)
    &&& r.sg_port22 == sg_port22
}

/// Starts the probe of `instance`: skipped, with the first reason that
/// applies, or ready to inject the key at `public_key_path`.
pub fn run_eic_probe(
    instance: &Instance,
    sg_port22: SgPort22Status,
    os_user: &str,
    public_key_path: &str,
    public_key_exists: bool,
) -> (r: ProbeStep)
    ensures
        match r {
            ProbeStep::Done(p) => {
                &&& records_inputs(p, *instance, sg_port22, os_user@)
                &&& p.send_ssh_public_key == ProbeOutcome::Skipped
                &&& skip_reason(p.instance_running, p.public_ip_present, p.az_present, public_key_exists)
                    == crate::locator::opt_text(p.send_ssh_public_key_reason)
                &&& p.send_ssh_public_key_reason is Some
            },
            ProbeStep::Send(p, a) => {
                &&& records_inputs(p, *instance, sg_port22, os_user@)
                &&& p.send_ssh_public_key == ProbeOutcome::Skipped
                &&& p.send_ssh_public_key_reason is None
                &&& skip_reason(p.instance_running, p.public_ip_present, p.az_present, public_key_exists) is None
                &&& texts(a@) == send_key_command(*instance, os_user@, public_key_path@)
            },
        },
{
    let instance_running = str_eq(instance.state.name.as_str(), "running");
    let public_ip_present = match &instance.public_ip {
        Some(ip) => trim(ip.as_str()).unicode_len() > 0,
        None => false,
    };
    let zone = instance_availability_zone(instance);
    let az_present = zone.is_some();
    let mut result = EicProbeResult {
        os_user: String::from_str(os_user),
        public_ip_present,
        instance_running,
        az_present,
        sg_port22,
        send_ssh_public_key: ProbeOutcome::Skipped,
        send_ssh_public_key_reason: None,
    };
    match eic_send_key_skip_reason(instance_running, public_ip_present, az_present, public_key_exists) {
        Some(reason) => {
            result.send_ssh_public_key_reason = Some(String::from_str(reason));
            return ProbeStep::Done(result);
        },
        None => {},
    }
    let az = match zone {
        Some(z) => z,
        None => "",
    };
    let mut key_arg = String::from_str("file://");
    key_arg.append(public_key_path);
    let v = aws_args(
        &[
            "ec2-instance-connect",
            "send-ssh-public-key",
            "--instance-id",
            instance.instance_id.as_str(),
            "--instance-os-user",
            os_user,
            "--availability-zone",
            az,
            "--ssh-public-key",
            key_arg.as_str(),
            "--output",
            "json",
        ],
    );
    assert(texts(v@) =~= send_key_command(*instance, os_user@, public_key_path@));
    ProbeStep::Send(result, v)
}

/// The probe after the reply to the key injection, or the fatal error where
/// the caller lacks the permission. `reported_success` is the `Success`
/// field of the reply's output.
pub open spec fn probe_reply_outcome(out: CommandOutput, reported_success: Option<bool>) -> Result<
    (ProbeOutcome, Option<Seq<char>>),
    Seq<char>,
> {
    if !out.success {
        if access_denied(error_text(out)) {
            Err("ec2-instance-connect send-ssh-public-key failed: "@ + error_text(out))
        } else {
            Ok((ProbeOutcome::Failed, Some(error_text(out))))
        }
    } else if reported_success == Some(true) {
        Ok((ProbeOutcome::Success, None))
    } else {
        Ok((ProbeOutcome::Failed, Some("success=false"@)))
    }
}

/// Records the reply to the key injection in the probe's result.
pub fn eic_probe_reply(result: EicProbeResult, output: &CommandOutput, reported_success: Option<bool>) -> (r: Result<
    EicProbeResult,
    String,
>)
    requires
        result.send_ssh_public_key_reason is None,
    ensures
        match r {
            Ok(p) => {
                &&& p.os_user == result.os_user
                &&& p.public_ip_present == result.public_ip_present
                &&& p.instance_running == result.instance_running
                &&& p.az_present == result.az_present
                &&& p.sg_port22 == result.sg_port22
                &&& probe_reply_outcome(*output, reported_success) == Ok::<(ProbeOutcome, Option<Seq<char>>), Seq<char>>(
                    (p.send_ssh_public_key, crate::locator::opt_text(p.send_ssh_public_key_reason)),
                )
            },
            Err(e) => probe_reply_outcome(*output, reported_success) == Err::<(ProbeOutcome, Option<Seq<char>>), Seq<char>>(e@),
        },
{
    let mut result = result;
    if !output.success {
        let message = aws_error_text(output);
        if is_access_denied_error(message.as_str()) {
            let mut e = String::from_str("ec2-instance-connect send-ssh-public-key failed: ");
            e.append(message.as_str());
            return Err(e);
        }
        result.send_ssh_public_key = ProbeOutcome::Failed;
        result.send_ssh_public_key_reason = Some(message);
        return Ok(result);
    }
    if reported_success == Some(true) {
        result.send_ssh_public_key = ProbeOutcome::Success;
    } else {
        result.send_ssh_public_key = ProbeOutcome::Failed;
        result.send_ssh_public_key_reason = Some(String::from_str("success=false"));
    }
    Ok(result)
}

} // verus!
