use vstd::prelude::*;
use crate::pipeline::{Base, Pipeline, PipelineModel};
use crate::stage::{strings, StageModel};

verus! {

/// A pkgx pipeline called `name` that provisions deno and then runs each of
/// `commands`, in order.
pub open spec fn deno_spec(name: Seq<char>, commands: Seq<Seq<Seq<char>>>) -> PipelineModel {
    PipelineModel {
        name,
        base: Base::Pkgx,
        stages: seq![StageModel::Provision(seq!["deno"@])] + Seq::new(
            commands.len(),
            |i: int| StageModel::Exec(commands[i]),
        ),
    }
}

/// A pkgx pipeline called `name` whose only stage provisions deno.
fn deno_base(name: &str) -> (p: Pipeline)
    ensures
        p@ == deno_spec(name@, Seq::empty()),
        p.wf(),
{
    let mut packages: Vec<String> = Vec::new();
    packages.push("deno".to_owned());
    assert(strings(packages@) =~= seq!["deno"@]);
    let p = Pipeline::new(name.to_owned()).pkgx().with_packages(packages);
    assert(p@.stages =~= deno_spec(name@, Seq::empty()).stages);
    p
}

/// `[program, subcommand, args]`.
fn command(program: &str, subcommand: &str, args: String) -> (r: Vec<String>)
    ensures
        strings(r@) == seq![program@, subcommand@, args@],
        r@.len() == 3,
{
    let mut r: Vec<String> = Vec::new();
    r.push(program.to_owned());
    r.push(subcommand.to_owned());
    r.push(args);
    assert(strings(r@) =~= seq![program@, subcommand@, args@]);
    r
}

/// Provisions deno, then runs `[deno, subcommand, args]`.
fn deno_command(name: &str, subcommand: &str, args: String) -> (p: Pipeline)
    ensures
        p@ == deno_spec(name@, seq![seq!["deno"@, subcommand@, args@]]),
        p.wf(),
{
    let argv = command("deno", subcommand, args);
    let p = deno_base(name).push_exec(argv);
    assert(p@.stages =~= deno_spec(name@, seq![seq!["deno"@, subcommand@, args@]]).stages);
    p
}

/// Runs a deno task: provisions deno, then runs `deno task <args>`.
pub fn task(args: String) -> (p: Pipeline)
    ensures
        p@ == deno_spec("task"@, seq![seq!["deno"@, "task"@, args@]]),
        p.wf(),
{
    deno_command("task", "task", args)
}

/// Runs a program with deno: provisions deno, then runs `deno run <args>`.
pub fn run(args: String) -> (p: Pipeline)
    ensures
        p@ == deno_spec("run"@, seq![seq!["deno"@, "run"@, args@]]),
        p.wf(),
{
    deno_command("run", "run", args)
}

/// Formats sources with deno: provisions deno, then runs `deno fmt <args>`.
pub fn fmt(args: String) -> (p: Pipeline)
    ensures
        p@ == deno_spec("fmt"@, seq![seq!["deno"@, "fmt"@, args@]]),
        p.wf(),
{
    deno_command("fmt", "fmt", args)
}

/// Lints sources with deno: provisions deno, then runs `deno lint <args>`.
pub fn lint(args: String) -> (p: Pipeline)
    ensures
        p@ == deno_spec("lint"@, seq![seq!["deno"@, "lint"@, args@]]),
        p.wf(),
{
    deno_command("lint", "lint", args)
}

/// Compiles a program into a self-contained executable with deno: provisions deno, then runs `deno compile <args>`.
pub fn compile(args: String) -> (p: Pipeline)
    ensures
        p@ == deno_spec("compile"@, seq![seq!["deno"@, "compile"@, args@]]),
        p.wf(),
{
    deno_command("compile", "compile", args)
}

/// Publishes a package with deno: provisions deno, then runs `deno publish <args>`.
pub fn publish(args: String) -> (p: Pipeline)
    ensures
        p@ == deno_spec("publish"@, seq![seq!["deno"@, "publish"@, args@]]),
        p.wf(),
{
    deno_command("publish", "publish", args)
}

/// Runs the tests with deno, recording coverage and writing the lock file.
pub fn test(args: String) -> (p: Pipeline)
    ensures
        p@ == deno_spec(
            "test"@,
            seq![seq!["deno"@, "test"@, "-A"@, "--coverage=coverage"@, "--lock-write"@, args@]],
        ),
        p.wf(),
{
    let mut argv: Vec<String> = Vec::new();
    argv.push("deno".to_owned());
    argv.push("test".to_owned());
    argv.push("-A".to_owned());
    argv.push("--coverage=coverage".to_owned());
    argv.push("--lock-write".to_owned());
    argv.push(args);
    let ghost expected = seq!["deno"@, "test"@, "-A"@, "--coverage=coverage"@, "--lock-write"@, args@];
    assert(strings(argv@) =~= expected);
    let p = deno_base("test").push_exec(argv);
    assert(p@.stages =~= deno_spec("test"@, seq![expected]).stages);
    p
}

/// Writes the coverage report as lcov. The command is one shell line, kept
/// whole as the only element of its argv; it takes no arguments.
pub fn coverage() -> (p: Pipeline)
    ensures
        p@ == deno_spec("coverage"@, seq![seq!["deno coverage ./coverage --lcov > coverage.lcov"@]]),
        p.wf(),
{
    let mut argv: Vec<String> = Vec::new();
    argv.push("deno coverage ./coverage --lcov > coverage.lcov".to_owned());
    let ghost expected = seq!["deno coverage ./coverage --lcov > coverage.lcov"@];
    assert(strings(argv@) =~= expected);
    let p = deno_base("coverage").push_exec(argv);
    assert(p@.stages =~= deno_spec("coverage"@, seq![expected]).stages);
    p
}

/// Deploys with deployctl: installs deployctl through deno, then runs
/// `deployctl deploy <args>`, which needs what the install left behind.
pub fn deploy(args: String) -> (p: Pipeline)
    ensures
        p@ == deno_spec("deploy"@, seq![deployctl_install_spec(), seq!["deployctl"@, "deploy"@, args@]]),
        p.wf(),
{
    let mut install: Vec<String> = Vec::new();
    install.push("deno".to_owned());
    install.push("install".to_owned());
    install.push("--allow-all".to_owned());
    install.push("--no-check".to_owned());
    install.push("-r".to_owned());
    install.push("-f".to_owned());
    install.push("--global".to_owned());
    install.push("https://deno.land/x/deploy/deployctl.ts".to_owned());
    assert(strings(install@) =~= deployctl_install_spec());
    let invoke = command("deployctl", "deploy", args);
    let p = deno_base("deploy").push_exec(install).push_exec(invoke);
    assert(p@.stages =~= deno_spec(
        "deploy"@,
        seq![deployctl_install_spec(), seq!["deployctl"@, "deploy"@, args@]],
    ).stages);
    p
}

/// The command that installs deployctl globally from its published URL.
pub open spec fn deployctl_install_spec() -> Seq<Seq<char>> {
    seq![
        "deno"@,
        "install"@,
        "--allow-all"@,
        "--no-check"@,
        "-r"@,
        "-f"@,
        "--global"@,
        "https://deno.land/x/deploy/deployctl.ts"@,
    ]
}

} // verus!
