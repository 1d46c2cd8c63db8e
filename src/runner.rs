use vstd::prelude::*;
use crate::environment::{ensure_spec, Environment};
use crate::pipeline::Pipeline;
use crate::stage::{clone_strings, stage_models, strings, Stage, StageModel};

verus! {

/// What happened when the pending action of a runner was carried out.
pub enum Outcome {
    /// Every package of a provisioning stage is available.
    Provisioned,
    /// A package could not be resolved or fetched.
    ProvisionFailed { package: String, diagnostic: String },
    /// A command ran and exited successfully, printing `stdout`.
    Completed { stdout: String },
    /// A command exited unsuccessfully, or could not be started.
    ExecFailed { status: i32, stdout: String },
}

/// The first failure of a run, as values.
pub enum ErrorModel {
    Provision { package: Seq<char>, diagnostic: Seq<char> },
    Exec { argv: Seq<Seq<char>>, status: i32, stdout: Seq<char> },
}

/// The first failure of a run, which ends it.
pub enum PipelineError {
    /// A requested package could not be made available.
    Provision { package: String, diagnostic: String },
    /// A command exited unsuccessfully, or could not be started.
    Exec { argv: Vec<String>, status: i32, stdout: String },
}

impl View for PipelineError {
    type V = ErrorModel;

    open spec fn view(&self) -> ErrorModel {
        match self {
            PipelineError::Provision { package, diagnostic } => ErrorModel::Provision {
                package: package@,
                diagnostic: diagnostic@,
            },
            PipelineError::Exec { argv, status, stdout } => ErrorModel::Exec {
                argv: strings(argv@),
                status: *status,
                stdout: stdout@,
            },
        }
    }
}

impl PipelineError {
    /// A copy of the error.
    pub fn clone_error(&self) -> (r: PipelineError)
        ensures
            r@ == self@,
    {
        match self {
            PipelineError::Provision { package, diagnostic } => PipelineError::Provision {
                package: package.clone(),
                diagnostic: diagnostic.clone(),
            },
            PipelineError::Exec { argv, status, stdout } => PipelineError::Exec {
                argv: clone_strings(argv),
                status: *status,
                stdout: stdout.clone(),
            },
        }
    }
}

/// Where a run stands.
#[derive(Clone, Copy, Debug, PartialEq, Eq, Structural)]
pub enum Status {
    Running,
    Succeeded,
    Failed,
}

/// The state of a run: the index of the next stage, the environment threaded
/// through the stages, the output of the most recent command, and the failure
/// that ended the run, if one did.
pub struct RunState {
    pub stage: nat,
    pub env: Seq<Seq<char>>,
    pub last: Seq<char>,
    pub error: Option<ErrorModel>,
}

/// The state before the first stage, from environment `env`.
pub open spec fn start_spec(env: Seq<Seq<char>>) -> RunState {
    RunState { stage: 0, env, last: Seq::empty(), error: None }
}

pub open spec fn status_spec(stages: Seq<StageModel>, s: RunState) -> Status {
    if s.error is Some {
        Status::Failed
    } else if s.stage >= stages.len() {
        Status::Succeeded
    } else {
        Status::Running
    }
}

/// One step of a run: the outcome of the pending stage moves the run to the
/// next stage or ends it. A finished run, and an outcome that does not answer
/// the pending stage, leave the state as it is.
pub open spec fn step_spec(stages: Seq<StageModel>, s: RunState, o: Outcome) -> RunState {
    if s.error is Some || s.stage >= stages.len() {
        s
    } else {
        match stages[s.stage as int] {
            StageModel::Provision(packages) => match o {
                Outcome::Provisioned => RunState {
                    stage: s.stage + 1,
                    env: ensure_spec(s.env, packages),
                    ..s
                },
                Outcome::ProvisionFailed { package, diagnostic } => RunState {
                    error: Some(ErrorModel::Provision { package: package@, diagnostic: diagnostic@ }),
                    ..s
                },
                _ => s,
            },
            StageModel::Exec(argv) => match o {
                Outcome::Completed { stdout } => RunState { stage: s.stage + 1, last: stdout@, ..s },
                Outcome::ExecFailed { status, stdout } => RunState {
                    error: Some(ErrorModel::Exec { argv, status, stdout: stdout@ }),
                    ..s
                },
                _ => s,
            },
        }
    }
}

/// The state after each of `outcomes`, in order.
pub open spec fn run_spec(stages: Seq<StageModel>, s: RunState, outcomes: Seq<Outcome>) -> RunState
    decreases outcomes.len(),
{
    if outcomes.len() == 0 {
        s
    } else {
        step_spec(stages, run_spec(stages, s, outcomes.drop_last()), outcomes.last())
    }
}

/// What a runner asks for next, as values.
pub enum ActionModel {
    Provision(Seq<Seq<char>>),
    Exec(Seq<Seq<char>>),
    Finish(Seq<char>),
    Abort(ErrorModel),
}

pub open spec fn next_action_spec(stages: Seq<StageModel>, s: RunState) -> ActionModel {
    if s.error is Some {
        ActionModel::Abort(s.error->Some_0)
    } else if s.stage >= stages.len() {
        ActionModel::Finish(s.last)
    } else {
        match stages[s.stage as int] {
            StageModel::Provision(packages) => ActionModel::Provision(packages),
            StageModel::Exec(argv) => ActionModel::Exec(argv),
        }
    }
}

/// What a runner asks for next.
pub enum Action {
    /// Make these packages available, then report `Provisioned` or `ProvisionFailed`.
    Provision { packages: Vec<String> },
    /// Run this command, then report `Completed` or `ExecFailed`.
    Exec { argv: Vec<String> },
    /// The run succeeded with this output.
    Finish { stdout: String },
    /// The run failed with this error.
    Abort { error: PipelineError },
}

impl View for Action {
    type V = ActionModel;

    open spec fn view(&self) -> ActionModel {
        match self {
            Action::Provision { packages } => ActionModel::Provision(strings(packages@)),
            Action::Exec { argv } => ActionModel::Exec(strings(argv@)),
            Action::Finish { stdout } => ActionModel::Finish(stdout@),
            Action::Abort { error } => ActionModel::Abort(error@),
        }
    }
}

/// Drives a pipeline stage by stage, strictly in order, and stops at the
/// first failure.
pub struct Runner {
    stages: Vec<Stage>,
    stage: usize,
    env: Environment,
    last: String,
    error: Option<PipelineError>,
}

impl Runner {
    /// The stages that the runner drives.
    pub closed spec fn plan(&self) -> Seq<StageModel> {
        stage_models(self.stages@)
    }

    pub closed spec fn state(&self) -> RunState {
        RunState {
            stage: self.stage as nat,
            env: self.env@,
            last: self.last@,
            error: match self.error {
                Some(e) => Some(e@),
                None => None,
            },
        }
    }

    pub closed spec fn wf(&self) -> bool {
        self.stage <= self.stages@.len() && self.env.wf()
    }

    /// Takes a built pipeline over, in a clean environment.
    pub fn new(pipeline: Pipeline) -> (r: Runner)
        ensures
            r.plan() == pipeline@.stages,
            r.state() == start_spec(Seq::empty()),
            r.wf(),
    {
        let stages = pipeline.into_stages();
        let r = Runner { stages, stage: 0, env: Environment::new(), last: String::new(), error: None };
        assert(r.state().last =~= Seq::<char>::empty());
        r
    }

    /// Where the run stands.
    pub fn status(&self) -> (r: Status)
        requires
            self.wf(),
        ensures
            r == status_spec(self.plan(), self.state()),
    {
        if self.error.is_some() {
            Status::Failed
        } else if self.stage >= self.stages.len() {
            Status::Succeeded
        } else {
            Status::Running
        }
    }

    /// What the runner asks for next.
    pub fn next_action(&self) -> (r: Action)
        requires
            self.wf(),
        ensures
            r@ == next_action_spec(self.plan(), self.state()),
    {
        match &self.error {
            Some(e) => Action::Abort { error: e.clone_error() },
            None => {
                if self.stage >= self.stages.len() {
                    Action::Finish { stdout: self.last.clone() }
                } else {
                    match &self.stages[self.stage] {
                        Stage::Provision { packages } => Action::Provision {
                            packages: clone_strings(packages),
                        },
                        Stage::Exec { argv } => Action::Exec { argv: clone_strings(argv) },
                    }
                }
            },
        }
    }

    /// Takes the outcome of the pending stage.
    pub fn step(&mut self, outcome: Outcome)
        requires
            old(self).wf(),
        ensures
            final(self).wf(),
            final(self).plan() == old(self).plan(),
            final(self).state() == step_spec(old(self).plan(), old(self).state(), outcome),
    {
        if self.error.is_some() || self.stage >= self.stages.len() {
            return;
        }
        let i = self.stage;
        assert(self.plan()[i as int] == self.stages@[i as int]@);
        match &self.stages[i] {
            Stage::Provision { packages } => match outcome {
                Outcome::Provisioned => {
                    self.env.ensure_packages(packages);
                    self.stage = i + 1;
                },
                Outcome::ProvisionFailed { package, diagnostic } => {
                    self.error = Some(PipelineError::Provision { package, diagnostic });
                },
                _ => {},
            },
            Stage::Exec { argv } => match outcome {
                Outcome::Completed { stdout } => {
                    self.last = stdout;
                    self.stage = i + 1;
                },
                Outcome::ExecFailed { status, stdout } => {
                    self.error = Some(
                        PipelineError::Exec { argv: clone_strings(argv), status, stdout },
                    );
                },
                _ => {},
            },
        }
    }

    /// Takes each of `outcomes`, in order.
    pub fn drive(&mut self, outcomes: Vec<Outcome>)
        requires
            old(self).wf(),
        ensures
            final(self).wf(),
            final(self).plan() == old(self).plan(),
            final(self).state() == run_spec(old(self).plan(), old(self).state(), outcomes@),
    {
        let ghost start = self.state();
        let ghost all = outcomes@;
        let n = outcomes.len();
        let mut rest = outcomes;
        let mut taken: usize = 0;
        while taken < n
            invariant
                self.wf(),
                self.plan() == old(self).plan(),
                start == old(self).state(),
                n == all.len(),
                taken <= n,
                rest@ == all.subrange(taken as int, n as int),
                self.state() == run_spec(self.plan(), start, all.subrange(0, taken as int)),
            decreases n - taken,
        {
            let o = rest.remove(0);
            assert(o == all[taken as int]);
            assert(rest@ =~= all.subrange(taken + 1, n as int));
            self.step(o);
            assert(all.subrange(0, taken + 1).drop_last() =~= all.subrange(0, taken as int));
            taken = taken + 1;
        }
        assert(all.subrange(0, taken as int) =~= all);
    }

    /// The result of a finished run: the output of its last command, or the
    /// error that ended it. `None` while stages remain.
    pub fn result(&self) -> (r: Option<Result<String, PipelineError>>)
        requires
            self.wf(),
        ensures
            status_spec(self.plan(), self.state()) == Status::Running <==> r is None,
            status_spec(self.plan(), self.state()) == Status::Succeeded <==> (r is Some
                && r->Some_0 is Ok),
            r is Some && r->Some_0 is Ok ==> r->Some_0->Ok_0@ == self.state().last,
            r is Some && r->Some_0 is Err ==> Some(r->Some_0->Err_0@) == self.state().error,
    {
        match &self.error {
            Some(e) => Some(Err(e.clone_error())),
            None => {
                if self.stage >= self.stages.len() {
                    Some(Ok(self.last.clone()))
                } else {
                    None
                }
            },
        }
    }

    /// Whether the pending stage is the last one of a run still going.
    pub fn is_last(&self) -> (r: bool)
        requires
            self.wf(),
        ensures
            r == (self.state().error is None && self.state().stage + 1 == self.plan().len()),
    {
        self.error.is_none() && self.stage < self.stages.len() && self.stage == self.stages.len() - 1
    }

    /// The packages installed so far.
    pub fn environment(&self) -> (r: &Environment)
        ensures
            r@ == self.state().env,
    {
        &self.env
    }
}

} // verus!
