use vstd::prelude::*;
use crate::stage::{clone_strings, stage_models, stage_ok, strings, Stage, StageModel};

verus! {

/// The base environment a pipeline starts from.
#[derive(Clone, Copy, Debug, PartialEq, Eq, Structural)]
pub enum Base {
    /// The host's default environment.
    Plain,
    /// An environment whose packages are installed through pkgx.
    Pkgx,
}

/// Why a pipeline could not be built.
#[derive(Clone, Copy, Debug, PartialEq, Eq, Structural)]
pub enum BuildError {
    /// A command stage was given no program to run.
    EmptyArgv,
}

/// What a pipeline is, as values.
pub struct PipelineModel {
    pub name: Seq<char>,
    pub base: Base,
    pub stages: Seq<StageModel>,
}

/// A named, ordered sequence of stages. Appending only records intent: no
/// stage runs until a runner drives the pipeline.
pub struct Pipeline {
    name: String,
    base: Base,
    stages: Vec<Stage>,
}

impl View for Pipeline {
    type V = PipelineModel;

    closed spec fn view(&self) -> PipelineModel {
        PipelineModel { name: self.name@, base: self.base, stages: stage_models(self.stages@) }
    }
}

impl Pipeline {
    /// Every command stage has a program to run.
    pub open spec fn wf(&self) -> bool {
        forall|i: int| 0 <= i < self@.stages.len() ==> #[trigger] stage_ok(self@.stages[i])
    }

    /// A pipeline with a name, the plain base environment and no stages.
    pub fn new(name: String) -> (p: Pipeline)
        ensures
            p@.name == name@,
            p@.base == Base::Plain,
            p@.stages == Seq::<StageModel>::empty(),
            p.wf(),
    {
        let p = Pipeline { name, base: Base::Plain, stages: Vec::new() };
        assert(p@.stages =~= Seq::<StageModel>::empty());
        p
    }

    /// The same pipeline, started from a pkgx environment.
    pub fn pkgx(self) -> (p: Pipeline)
        ensures
            p@ == (PipelineModel { base: Base::Pkgx, ..self@ }),
            p.wf() == self.wf(),
    {
        let p = Pipeline { name: self.name, base: Base::Pkgx, stages: self.stages };
        assert(p@.stages == self@.stages);
        p
    }

    /// Appends a stage that provisions `packages`.
    pub fn with_packages(self, packages: Vec<String>) -> (p: Pipeline)
        ensures
            p@ == (PipelineModel {
                stages: self@.stages.push(StageModel::Provision(strings(packages@))),
                ..self@
            }),
            self.wf() ==> p.wf(),
    {
        let mut stages = self.stages;
        let ghost before = stages@;
        stages.push(Stage::Provision { packages });
        assert(stage_models(stages@) =~= stage_models(before).push(
            StageModel::Provision(strings(packages@)),
        ));
        Pipeline { name: self.name, base: self.base, stages }
    }

    /// Appends a stage that runs `argv`; an empty `argv` is refused here, before
    /// anything runs.
    pub fn with_exec(self, argv: Vec<String>) -> (r: Result<Pipeline, BuildError>)
        ensures
            argv@.len() == 0 <==> r is Err,
            r is Err ==> r->Err_0 == BuildError::EmptyArgv,
            r is Ok ==> r->Ok_0@ == (PipelineModel {
                stages: self@.stages.push(StageModel::Exec(strings(argv@))),
                ..self@
            }),
            r is Ok && self.wf() ==> r->Ok_0.wf(),
    {
        if argv.len() == 0 {
            Err(BuildError::EmptyArgv)
        } else {
            Ok(self.push_exec(argv))
        }
    }

    /// Appends a command stage whose `argv` is known not to be empty.
    pub fn push_exec(self, argv: Vec<String>) -> (p: Pipeline)
        requires
            argv@.len() > 0,
        ensures
            p@ == (PipelineModel {
                stages: self@.stages.push(StageModel::Exec(strings(argv@))),
                ..self@
            }),
            self.wf() ==> p.wf(),
    {
        let mut stages = self.stages;
        let ghost before = stages@;
        stages.push(Stage::Exec { argv });
        assert(stage_models(stages@) =~= stage_models(before).push(
            StageModel::Exec(strings(argv@)),
        ));
        Pipeline { name: self.name, base: self.base, stages }
    }

    /// Appends each of `stages`, in order; a command stage without a program
    /// refuses the whole list.
    pub fn with_stages(self, stages: Vec<Stage>) -> (r: Result<Pipeline, BuildError>)
        ensures
            r is Err <==> exists|i: int| 0 <= i < stages@.len() && !stage_ok(#[trigger] stages@[i]@),
            r is Err ==> r->Err_0 == BuildError::EmptyArgv,
            r is Ok ==> r->Ok_0@ == (PipelineModel {
                stages: self@.stages + stage_models(stages@),
                ..self@
            }),
            r is Ok && self.wf() ==> r->Ok_0.wf(),
    {
        let mut i: usize = 0;
        while i < stages.len()
            invariant
                i <= stages@.len(),
                forall|j: int| 0 <= j < i ==> stage_ok(#[trigger] stages@[j]@),
            decreases stages.len() - i,
        {
            match &stages[i] {
                Stage::Exec { argv } => {
                    if argv.len() == 0 {
                        assert(!stage_ok(stages@[i as int]@));
                        return Err(BuildError::EmptyArgv);
                    }
                },
                Stage::Provision { .. } => {},
            }
            i = i + 1;
        }
        let mut all = self.stages;
        let ghost before = all@;
        let mut k: usize = 0;
        while k < stages.len()
            invariant
                k <= stages@.len(),
                stage_models(all@) == stage_models(before) + stage_models(stages@).subrange(
                    0,
                    k as int,
                ),
            decreases stages.len() - k,
        {
            let ghost prev = all@;
            let s = stages[k].clone_stage();
            all.push(s);
            assert(stage_models(all@) =~= stage_models(prev).push(stages@[k as int]@));
            assert(stage_models(all@) =~= stage_models(before) + stage_models(stages@).subrange(
                0,
                k + 1,
            ));
            k = k + 1;
        }
        assert(stage_models(stages@).subrange(0, k as int) =~= stage_models(stages@));
        let p = Pipeline { name: self.name, base: self.base, stages: all };
        assert(self.wf() ==> p.wf()) by {
            if self.wf() {
                assert forall|j: int| 0 <= j < p@.stages.len() implies #[trigger] stage_ok(
                    p@.stages[j],
                ) by {
                    if j >= self@.stages.len() {
                        assert(p@.stages[j] == stages@[j - self@.stages.len()]@);
                    }
                }
            }
        }
        Ok(p)
    }

    /// The pipeline's name.
    pub fn name(&self) -> (r: &String)
        ensures
            r@ == self@.name,
    {
        &self.name
    }

    /// The base environment the pipeline starts from.
    pub fn base(&self) -> (r: Base)
        ensures
            r == self@.base,
    {
        self.base
    }

    /// The stages, in the order in which they were appended.
    pub fn stages(&self) -> (r: &Vec<Stage>)
        ensures
            stage_models(r@) == self@.stages,
    {
        &self.stages
    }

    /// Gives up the pipeline for its stages.
    pub fn into_stages(self) -> (r: Vec<Stage>)
        ensures
            stage_models(r@) == self@.stages,
    {
        self.stages
    }
}

} // verus!
