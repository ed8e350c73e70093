//! The massage task: fix, lint, format, check and test the packages of a
//! workspace.

use vstd::prelude::*;
use vstd::string::StringExecFns;

use crate::sh::{ShOptions, StreamMode};
use crate::text::{join, joined, texts};

verus! {

/// The command line of the massage task.
#[derive(Clone, Debug)]
pub struct MassageArgs {
    /// Work on the whole workspace.
    pub workspace: bool,
    /// The packages to work on; the whole workspace if empty.
    pub packages: Vec<String>,
    /// Show warnings.
    pub verbose: bool,
}

/// Each package as a `-p` flag.
pub open spec fn package_flags(packages: Seq<Seq<char>>) -> Seq<Seq<char>> {
    Seq::new(packages.len(), |i: int| "-p "@ + packages[i])
}

/// The cargo flags that select what the task works on: `--workspace` for
/// the whole workspace, else one `-p` flag for each package.
pub open spec fn spec_target_flags(workspace: bool, packages: Seq<Seq<char>>) -> Seq<char> {
    if workspace || packages.len() == 0 {
        "--workspace"@
    } else {
        joined(package_flags(packages), " "@)
    }
}

/// The cargo flags that select what the task works on.
pub fn target_flags(workspace: bool, packages: &Vec<String>) -> (flags: String)
    ensures
        flags@ == spec_target_flags(workspace, texts(packages@)),
{
    if workspace || packages.len() == 0 {
        return String::from_str("--workspace");
    }
    let mut each: Vec<String> = Vec::new();
    let mut i: usize = 0;
    while i < packages.len()
        invariant
            i <= packages.len(),
            each@.len() == i,
            forall|k: int| 0 <= k < i ==> (#[trigger] each@[k])@ == "-p "@ + packages@[k]@,
        decreases packages.len() - i,
    {
        let mut flag = String::from_str("-p ");
        flag.append(packages[i].as_str());
        each.push(flag);
        i += 1;
    }
    assert(texts(each@) =~= package_flags(texts(packages@)));
    join(&each, " ")
}

/// The script of the task: the five steps that fix, lint, format, check and
/// test, each but the formatter restricted by the flags.
pub open spec fn spec_massage_script(flags: Seq<char>) -> Seq<char> {
    "\nset -e\n\necho [1/5] Running cargo fix...\ncargo fix --allow-dirty --allow-staged --quiet "@
        + flags
        + "\n\necho [2/5] Running cargo clippy --fix...\ncargo clippy --fix --allow-dirty --allow-staged --quiet "@
        + flags
        + "\n\necho [3/5] Running cargo fmt...\ncargo fmt --all --quiet\n\necho [4/5] Running cargo check...\ncargo check --quiet "@
        + flags
        + "\n\necho [5/5] Running cargo test...\nRUST_BACKTRACE=1 cargo nextest run --no-tests pass "@
        + flags + "\n"@
}

/// The script of the task for the given target flags.
pub fn massage_script(flags: &str) -> (script: String)
    ensures
        script@ == spec_massage_script(flags@),
{
    let mut script = String::from_str(
        "\nset -e\n\necho [1/5] Running cargo fix...\ncargo fix --allow-dirty --allow-staged --quiet ",
    );
    script.append(flags);
    script.append(
        "\n\necho [2/5] Running cargo clippy --fix...\ncargo clippy --fix --allow-dirty --allow-staged --quiet ",
    );
    script.append(flags);
    script.append(
        "\n\necho [3/5] Running cargo fmt...\ncargo fmt --all --quiet\n\necho [4/5] Running cargo check...\ncargo check --quiet ",
    );
    script.append(flags);
    script.append(
        "\n\necho [5/5] Running cargo test...\nRUST_BACKTRACE=1 cargo nextest run --no-tests pass ",
    );
    script.append(flags);
    script.append("\n");
    script
}

/// The settings the script runs with: quiet unless the task is verbose.
pub fn massage_options(verbose: bool) -> (opts: ShOptions)
    ensures
        opts.stdout == StreamMode::Inherit,
        opts.stderr == StreamMode::Inherit,
        opts.cwd is None,
        opts.quiet == !verbose,
{
    ShOptions {
        stdout: StreamMode::Inherit,
        stderr: StreamMode::Inherit,
        cwd: None,
        quiet: !verbose,
    }
}

/// What the massage task runs: the script and the settings to run it with.
pub fn run(args: &MassageArgs) -> (plan: (String, ShOptions))
    ensures
        plan.0@ == spec_massage_script(spec_target_flags(args.workspace, texts(args.packages@))),
        plan.1.quiet == !args.verbose,
        plan.1.stdout == StreamMode::Inherit,
        plan.1.stderr == StreamMode::Inherit,
        plan.1.cwd is None,
{
    let flags = target_flags(args.workspace, &args.packages);
    (massage_script(flags.as_str()), massage_options(args.verbose))
}

} // verus!
