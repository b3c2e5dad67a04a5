//! The provider client boundary: the argument lists handed to a provider's
//! command-line tool, and how its raw reply is read.
use vstd::prelude::*;
use crate::naming::texts;
use crate::text::{trim, trim_of};

verus! {

/// What one run of a provider command gave back.
#[derive(Debug, Clone)]
pub struct CommandOutput {
    pub success: bool,
    pub stdout: String,
    pub stderr: String,
}

/// The words of `args` joined by single spaces.
pub open spec fn joined(args: Seq<Seq<char>>) -> Seq<char>
    decreases args.len(),
{
    if args.len() == 0 {
        Seq::empty()
    } else if args.len() == 1 {
        args[0]
    } else {
        joined(args.drop_last()) + " "@ + args.last()
    }
}

/// The words of `args` joined by single spaces.
pub fn join_args(args: &Vec<String>) -> (r: String)
    ensures
        r@ == joined(texts(args@)),
{
    let mut out = String::new();
    let mut i: usize = 0;
    while i < args.len()
        invariant
            i <= args@.len(),
            out@ == joined(texts(args@.subrange(0, i as int))),
        decreases args@.len() - i,
    {
        let ghost t = texts(args@.subrange(0, i + 1));
        assert(t.drop_last() =~= texts(args@.subrange(0, i as int)));
        assert(t.last() == args@[i as int]@);
        if i > 0 {
            out.append(" ");
        }
        out.append(args[i].as_str());
        proof {
            if i == 0 {
                assert(out@ =~= t[0]);
            }
        }
        i = i + 1;
    }
    assert(args@.subrange(0, args@.len() as int) =~= args@);
    out
}

/// The message of a failed provider command: what ran, then the trimmed
/// error stream and the trimmed output where they are not empty.
pub open spec fn failure_message(tool: Seq<char>, args: Seq<Seq<char>>, out: CommandOutput) -> Seq<char> {
    let err = trim_of(out.stderr@);
    let std = trim_of(out.stdout@);
    tool + " "@ + joined(args) + " failed"@ + (if err.len() > 0 {
        ": "@ + err
    } else {
        Seq::empty()
    }) + (if std.len() > 0 {
        "\n"@ + std
    } else {
        Seq::empty()
    })
}

/// How a reply to a command that must succeed is read: its trimmed output,
/// or the failure message.
pub open spec fn run_result(tool: Seq<char>, args: Seq<Seq<char>>, out: CommandOutput) -> Result<
    Seq<char>,
    Seq<char>,
> {
    if out.success {
        Ok(trim_of(out.stdout@))
    } else {
        Err(failure_message(tool, args, out))
    }
}

/// The view of a result that carries text either way.
pub open spec fn text_result(r: Result<String, String>) -> Result<Seq<char>, Seq<char>> {
    match r {
        Ok(s) => Ok(s@),
        Err(e) => Err(e@),
    }
}

/// Reads the reply of `tool` to `args`.
pub fn read_reply(tool: &str, args: &Vec<String>, output: &CommandOutput) -> (r: Result<String, String>)
    ensures
        text_result(r) == run_result(tool@, texts(args@), *output),
{
    if output.success {
        return Ok(String::from_str(trim(output.stdout.as_str())));
    }
    let stderr = trim(output.stderr.as_str());
    let stdout = trim(output.stdout.as_str());
    let mut message = String::from_str(tool);
    message.append(" ");
    let joined_args = join_args(args);
    message.append(joined_args.as_str());
    message.append(" failed");
    if stderr.unicode_len() > 0 {
        message.append(": ");
        message.append(stderr);
    }
    if stdout.unicode_len() > 0 {
        message.append("\n");
        message.append(stdout);
    }
    assert(message@ =~= failure_message(tool@, texts(args@), *output));
    Err(message)
}

/// A reply's error text: the trimmed error stream and output, joined by
/// ` | ` where both are present.
pub open spec fn error_text(out: CommandOutput) -> Seq<char> {
    let err = trim_of(out.stderr@);
    let std = trim_of(out.stdout@);
    if err.len() == 0 && std.len() == 0 {
        "unknown aws cli error"@
    } else if std.len() == 0 {
        err
    } else if err.len() == 0 {
        std
    } else {
        err + " | "@ + std
    }
}

/// The error text of a failed reply.
pub fn aws_error_text(output: &CommandOutput) -> (r: String)
    ensures
        r@ == error_text(*output),
{
    let stderr = trim(output.stderr.as_str());
    let stdout = trim(output.stdout.as_str());
    let e = stderr.unicode_len() == 0;
    let o = stdout.unicode_len() == 0;
    if e && o {
        String::from_str("unknown aws cli error")
    } else if o {
        String::from_str(stderr)
    } else if e {
        String::from_str(stdout)
    } else {
        let mut s = String::from_str(stderr);
        s.append(" | ");
        s.append(stdout);
        s
    }
}

/// A copy of an argument list.
pub fn copy_args(args: &Vec<String>) -> (r: Vec<String>)
    ensures
        texts(r@) == texts(args@),
{
    let mut v: Vec<String> = Vec::new();
    let mut i: usize = 0;
    while i < args.len()
        invariant
            i <= args@.len(),
            texts(v@) == texts(args@.subrange(0, i as int)),
        decreases args@.len() - i,
    {
        let ghost prev = v@;
        let item = args[i].clone();
        v.push(item);
        assert(texts(v@) =~= texts(prev).push(item@));
        assert(texts(args@.subrange(0, i + 1)) =~= texts(args@.subrange(0, i as int)).push(args@[i as int]@));
        i = i + 1;
    }
    assert(args@.subrange(0, args@.len() as int) =~= args@);
    v
}

/// The client of the EC2 command-line tool for one region.
pub struct AwsCli {
    pub region: String,
}

impl AwsCli {
    pub fn new(region: String) -> (r: AwsCli)
        ensures
            r.region == region,
    {
        AwsCli { region }
    }

    /// The full argument list of a command: `args`, then the region.
    pub fn command_args(&self, args: &Vec<String>) -> (r: Vec<String>)
        ensures
            texts(r@) == texts(args@) + seq!["--region"@, self.region@],
    {
        let mut v = copy_args(args);
        let ghost base = v@;
        let flag = String::from_str("--region");
        let region = self.region.clone();
        v.push(flag);
        v.push(region);
        assert(texts(v@) =~= texts(base) + seq![flag@, region@]);
        assert(texts(v@) =~= texts(args@) + seq!["--region"@, self.region@]);
        v
    }

    /// Reads the reply to `args`: its trimmed output, or the failure.
    pub fn run(&self, args: &Vec<String>, output: &CommandOutput) -> (r: Result<String, String>)
        ensures
            text_result(r) == run_result("aws"@, texts(args@), *output),
    {
        read_reply("aws", args, output)
    }
}

/// The client of the Compute Engine command-line tool for one project.
pub struct GcloudCli {
    pub project: String,
}

impl GcloudCli {
    pub fn new(project: String) -> (r: GcloudCli)
        ensures
            r.project == project,
    {
        GcloudCli { project }
    }

    /// The full argument list of a command: `args`, then the project, quietly.
    pub fn command_args(&self, args: &Vec<String>) -> (r: Vec<String>)
        ensures
            texts(r@) == texts(args@) + seq!["--project"@, self.project@, "--quiet"@],
    {
        let mut v = copy_args(args);
        let ghost base = v@;
        let flag = String::from_str("--project");
        let project = self.project.clone();
        let quiet = String::from_str("--quiet");
        v.push(flag);
        v.push(project);
        v.push(quiet);
        assert(texts(v@) =~= texts(base) + seq![flag@, project@, quiet@]);
        assert(texts(v@) =~= texts(args@) + seq!["--project"@, self.project@, "--quiet"@]);
        v
    }

    /// Reads the reply to `args`: its trimmed output, or the failure.
    pub fn run(&self, args: &Vec<String>, output: &CommandOutput) -> (r: Result<String, String>)
        ensures
            text_result(r) == run_result("gcloud"@, texts(args@), *output),
    {
        read_reply("gcloud", args, output)
    }
}

/// The client of the droplet command-line tool.
pub struct DoctlCli;

impl DoctlCli {
    pub fn new() -> (r: DoctlCli) {
        DoctlCli
    }

    /// Reads the reply to `args`: its trimmed output, or the failure.
    pub fn run(&self, args: &Vec<String>, output: &CommandOutput) -> (r: Result<String, String>)
        ensures
            text_result(r) == run_result("doctl"@, texts(args@), *output),
    {
        read_reply("doctl", args, output)
    }
}

} // verus!
