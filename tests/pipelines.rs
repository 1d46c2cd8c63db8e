use deno_plugin::catalog::{compile, coverage, deploy, fmt, lint, publish, run, task};
use deno_plugin::environment::Environment;
use deno_plugin::pipeline::{Base, BuildError, Pipeline};
use deno_plugin::runner::{Action, Outcome, PipelineError, Runner, Status};
use deno_plugin::stage::Stage;

fn strs(v: &[&str]) -> Vec<String> {
    v.iter().map(|s| s.to_string()).collect()
}

/// A view of a stage that tests can compare.
fn describe(stage: &Stage) -> (bool, Vec<String>) {
    match stage {
        Stage::Provision { packages } => (true, packages.clone()),
        Stage::Exec { argv } => (false, argv.clone()),
    }
}

struct Probe {
    provisioned: Vec<Vec<String>>,
    executed: Vec<Vec<String>>,
}

/// Drives `p` to its end, asking `double` for the outcome of each stage, and
/// records every stage that was invoked.
fn drive_with<F: FnMut(&Action) -> Outcome>(
    p: Pipeline,
    mut double: F,
) -> (Result<String, PipelineError>, Probe) {
    let mut runner = Runner::new(p);
    let mut probe = Probe { provisioned: Vec::new(), executed: Vec::new() };
    loop {
        let action = runner.next_action();
        match &action {
            Action::Finish { stdout } => return (Ok(stdout.clone()), probe),
            Action::Abort { error } => return (Err(error.clone_error()), probe),
            Action::Provision { packages } => probe.provisioned.push(packages.clone()),
            Action::Exec { argv } => probe.executed.push(argv.clone()),
        }
        let outcome = double(&action);
        runner.step(outcome);
    }
}

fn all_succeed(action: &Action, stdout: &str) -> Outcome {
    match action {
        Action::Provision { .. } => Outcome::Provisioned,
        _ => Outcome::Completed { stdout: stdout.to_string() },
    }
}

#[test]
fn fmt_scenario_returns_command_output() {
    let p = fmt("src/".to_string());
    assert_eq!(p.name(), "fmt");
    assert_eq!(p.base(), Base::Pkgx);
    let (result, probe) = drive_with(p, |a| all_succeed(a, "ok\n"));
    assert_eq!(result.ok(), Some("ok\n".to_string()));
    assert_eq!(probe.provisioned, vec![strs(&["deno"])]);
    assert_eq!(probe.executed, vec![strs(&["deno", "fmt", "src/"])]);
}

#[test]
fn test_scenario_failure_carries_exact_argv() {
    let p = deno_plugin::catalog::test("--filter=foo".to_string());
    let (result, probe) = drive_with(p, |a| match a {
        Action::Provision { .. } => Outcome::Provisioned,
        _ => Outcome::ExecFailed { status: 1, stdout: "partial".to_string() },
    });
    let expected = strs(&["deno", "test", "-A", "--coverage=coverage", "--lock-write", "--filter=foo"]);
    match result {
        Err(PipelineError::Exec { argv, status, stdout }) => {
            assert_eq!(argv, expected);
            assert_eq!(status, 1);
            assert_eq!(stdout, "partial");
        }
        _ => panic!("expected an exec error"),
    }
    assert_eq!(probe.executed, vec![expected]);
}

#[test]
fn deploy_scenario_install_failure_stops_before_deploy() {
    let p = deploy("--project=x main.ts".to_string());
    let (result, probe) = drive_with(p, |a| match a {
        Action::Provision { .. } => Outcome::Provisioned,
        _ => Outcome::ExecFailed { status: 2, stdout: String::new() },
    });
    let install = strs(&[
        "deno",
        "install",
        "--allow-all",
        "--no-check",
        "-r",
        "-f",
        "--global",
        "https://deno.land/x/deploy/deployctl.ts",
    ]);
    match result {
        Err(PipelineError::Exec { argv, status, .. }) => {
            assert_eq!(argv, install);
            assert_eq!(status, 2);
        }
        _ => panic!("expected the install stage's exec error"),
    }
    assert_eq!(probe.executed, vec![install]);
}

#[test]
fn deploy_runs_both_commands_in_order() {
    let p = deploy("main.ts".to_string());
    let (result, probe) = drive_with(p, |a| match a {
        Action::Exec { argv } if argv[0] == "deployctl" => Outcome::Completed { stdout: "deployed".to_string() },
        _ => all_succeed(a, "installed"),
    });
    assert_eq!(result.ok(), Some("deployed".to_string()));
    assert_eq!(probe.executed.len(), 2);
    assert_eq!(probe.executed[1], strs(&["deployctl", "deploy", "main.ts"]));
}

#[test]
fn provision_failure_names_package_and_runs_no_command() {
    let p = Pipeline::new("x".to_string())
        .pkgx()
        .with_packages(strs(&["no-such-package"]))
        .with_exec(strs(&["no-such-package", "--version"]))
        .unwrap();
    let (result, probe) = drive_with(p, |a| match a {
        Action::Provision { packages } => Outcome::ProvisionFailed {
            package: packages[0].clone(),
            diagnostic: "not found".to_string(),
        },
        _ => Outcome::Completed { stdout: String::new() },
    });
    match result {
        Err(PipelineError::Provision { package, diagnostic }) => {
            assert_eq!(package, "no-such-package");
            assert_eq!(diagnostic, "not found");
        }
        _ => panic!("expected a provision error"),
    }
    assert!(probe.executed.is_empty());
}

#[test]
fn empty_argv_is_refused_when_building() {
    let r = Pipeline::new("x".to_string()).with_exec(Vec::new());
    assert!(matches!(r, Err(BuildError::EmptyArgv)));
    let r = Pipeline::new("x".to_string()).with_stages(vec![
        Stage::Provision { packages: strs(&["deno"]) },
        Stage::Exec { argv: Vec::new() },
    ]);
    assert!(matches!(r, Err(BuildError::EmptyArgv)));
}

#[test]
fn fail_fast_skips_later_stages() {
    let p = Pipeline::new("x".to_string())
        .with_stages(vec![
            Stage::Exec { argv: strs(&["a"]) },
            Stage::Exec { argv: strs(&["b"]) },
            Stage::Exec { argv: strs(&["c"]) },
        ])
        .unwrap();
    let (result, probe) = drive_with(p, |a| match a {
        Action::Exec { argv } if argv[0] == "b" => Outcome::ExecFailed { status: 3, stdout: "b-out".to_string() },
        _ => Outcome::Completed { stdout: "fine".to_string() },
    });
    assert!(matches!(result, Err(PipelineError::Exec { status: 3, .. })));
    assert_eq!(probe.executed, vec![strs(&["a"]), strs(&["b"])]);
}

#[test]
fn outcomes_after_a_failure_change_nothing() {
    let p = Pipeline::new("x".to_string())
        .with_exec(strs(&["a"]))
        .unwrap()
        .with_exec(strs(&["b"]))
        .unwrap();
    let mut runner = Runner::new(p);
    runner.step(Outcome::ExecFailed { status: 9, stdout: String::new() });
    assert_eq!(runner.status(), Status::Failed);
    runner.step(Outcome::Completed { stdout: "late".to_string() });
    runner.step(Outcome::Completed { stdout: "later".to_string() });
    assert_eq!(runner.status(), Status::Failed);
    assert!(matches!(runner.next_action(), Action::Abort { error: PipelineError::Exec { status: 9, .. } }));
    assert!(matches!(runner.result(), Some(Err(PipelineError::Exec { status: 9, .. }))));
}

#[test]
fn provisioning_twice_leaves_environment_unchanged() {
    let mut env = Environment::new();
    let packages = strs(&["deno", "node", "deno"]);
    env.ensure_packages(&packages);
    let first = env.packages();
    assert_eq!(first, strs(&["deno", "node"]));
    env.ensure_packages(&packages);
    assert_eq!(env.packages(), first);
    assert!(env.contains(&"node".to_string()));
    assert!(!env.contains(&"python".to_string()));
}

#[test]
fn runner_provisioning_same_package_twice_succeeds() {
    let p = Pipeline::new("x".to_string())
        .pkgx()
        .with_packages(strs(&["deno"]))
        .with_packages(strs(&["deno"]))
        .with_exec(strs(&["deno", "--version"]))
        .unwrap();
    let mut runner = Runner::new(p);
    runner.drive(vec![Outcome::Provisioned]);
    let after_first = runner.environment().packages();
    runner.drive(vec![Outcome::Provisioned]);
    assert_eq!(runner.environment().packages(), after_first);
    assert_eq!(after_first, strs(&["deno"]));
    assert_eq!(runner.status(), Status::Running);
}

#[test]
fn output_is_last_command_stdout_verbatim() {
    let p = Pipeline::new("x".to_string())
        .with_exec(strs(&["first"]))
        .unwrap()
        .with_exec(strs(&["second"]))
        .unwrap()
        .with_packages(strs(&["tool"]));
    let mut runner = Runner::new(p);
    runner.drive(vec![
        Outcome::Completed { stdout: "one".to_string() },
        Outcome::Completed { stdout: "  two \n\n".to_string() },
        Outcome::Provisioned,
    ]);
    assert_eq!(runner.status(), Status::Succeeded);
    assert!(matches!(runner.result(), Some(Ok(s)) if s == "  two \n\n"));
}

#[test]
fn appended_stages_run_in_append_order() {
    let p = Pipeline::new("x".to_string())
        .with_exec(strs(&["a"]))
        .unwrap()
        .with_stages(vec![Stage::Exec { argv: strs(&["b"]) }, Stage::Exec { argv: strs(&["c"]) }])
        .unwrap()
        .with_exec(strs(&["d"]))
        .unwrap();
    let (result, probe) = drive_with(p, |a| match a {
        Action::Exec { argv } => Outcome::Completed { stdout: argv[0].clone() },
        _ => Outcome::Provisioned,
    });
    assert_eq!(result.ok(), Some("d".to_string()));
    assert_eq!(probe.executed, vec![strs(&["a"]), strs(&["b"]), strs(&["c"]), strs(&["d"])]);
}

#[test]
fn mismatched_outcome_is_ignored() {
    let p = Pipeline::new("x".to_string()).with_exec(strs(&["a"])).unwrap();
    let mut runner = Runner::new(p);
    runner.step(Outcome::Provisioned);
    assert_eq!(runner.status(), Status::Running);
    assert!(runner.result().is_none());
    runner.step(Outcome::Completed { stdout: "done".to_string() });
    assert_eq!(runner.status(), Status::Succeeded);
}

#[test]
fn empty_pipeline_succeeds_with_empty_output() {
    let runner = Runner::new(Pipeline::new("empty".to_string()));
    assert_eq!(runner.status(), Status::Succeeded);
    assert!(matches!(runner.next_action(), Action::Finish { stdout } if stdout.is_empty()));
}

fn assert_pipeline(p: Pipeline, name: &str, argv: &[&str]) {
    assert_eq!(p.name(), name);
    assert_eq!(p.base(), Base::Pkgx);
    let stages: Vec<(bool, Vec<String>)> = p.stages().iter().map(describe).collect();
    assert_eq!(stages, vec![(true, strs(&["deno"])), (false, strs(argv))]);
}

#[test]
fn catalog_simple_pipelines() {
    assert_pipeline(task("build".to_string()), "task", &["deno", "task", "build"]);
    assert_pipeline(run("main.ts".to_string()), "run", &["deno", "run", "main.ts"]);
    assert_pipeline(lint("src/".to_string()), "lint", &["deno", "lint", "src/"]);
    assert_pipeline(compile("cli.ts".to_string()), "compile", &["deno", "compile", "cli.ts"]);
    assert_pipeline(publish("--dry-run".to_string()), "publish", &["deno", "publish", "--dry-run"]);
    assert_pipeline(
        deno_plugin::catalog::test("".to_string()),
        "test",
        &["deno", "test", "-A", "--coverage=coverage", "--lock-write", ""],
    );
}

#[test]
fn coverage_keeps_one_shell_line() {
    assert_pipeline(coverage(), "coverage", &["deno coverage ./coverage --lcov > coverage.lcov"]);
}

#[test]
fn plain_pipeline_has_plain_base() {
    let p = Pipeline::new("p".to_string());
    assert_eq!(p.base(), Base::Plain);
    assert!(p.stages().is_empty());
    assert!(p.into_stages().is_empty());
}

#[test]
fn is_last_marks_the_final_stage() {
    let mut runner = Runner::new(fmt("x".to_string()));
    assert!(!runner.is_last());
    runner.step(Outcome::Provisioned);
    assert!(runner.is_last());
    runner.step(Outcome::Completed { stdout: String::new() });
    assert!(!runner.is_last());
}
