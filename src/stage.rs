use vstd::prelude::*;

verus! {

/// The character sequences held by a list of strings.
pub open spec fn strings(v: Seq<String>) -> Seq<Seq<char>> {
    Seq::new(v.len(), |i: int| v[i]@)
}

/// Copies a list of strings element by element.
pub fn clone_strings(v: &Vec<String>) -> (r: Vec<String>)
    ensures
        r@ == v@,
{
    let mut r: Vec<String> = Vec::new();
    let mut i: usize = 0;
    while i < v.len()
        invariant
            i <= v.len(),
            r@ == v@.subrange(0, i as int),
        decreases v.len() - i,
    {
        r.push(v[i].clone());
        i = i + 1;
        assert(r@ =~= v@.subrange(0, i as int));
    }
    assert(r@ =~= v@);
    r
}

/// What a stage is, as values.
pub enum StageModel {
    Provision(Seq<Seq<char>>),
    Exec(Seq<Seq<char>>),
}

/// The atomic unit of work of a pipeline.
pub enum Stage {
    /// Makes each named package available in the environment.
    Provision { packages: Vec<String> },
    /// Runs a command (program and arguments) in the current environment.
    Exec { argv: Vec<String> },
}

impl View for Stage {
    type V = StageModel;

    open spec fn view(&self) -> StageModel {
        match self {
            Stage::Provision { packages } => StageModel::Provision(strings(packages@)),
            Stage::Exec { argv } => StageModel::Exec(strings(argv@)),
        }
    }
}

/// The models of a list of stages.
pub open spec fn stage_models(v: Seq<Stage>) -> Seq<StageModel> {
    Seq::new(v.len(), |i: int| v[i]@)
}

/// A stage that the builder accepts: a command has a program to run.
pub open spec fn stage_ok(s: StageModel) -> bool {
    match s {
        StageModel::Provision(_) => true,
        StageModel::Exec(argv) => argv.len() > 0,
    }
}

impl Stage {
    /// A copy of the stage.
    pub fn clone_stage(&self) -> (r: Stage)
        ensures
            r@ == self@,
    {
        match self {
            Stage::Provision { packages } => Stage::Provision { packages: clone_strings(packages) },
            Stage::Exec { argv } => Stage::Exec { argv: clone_strings(argv) },
        }
    }
}

} // verus!
