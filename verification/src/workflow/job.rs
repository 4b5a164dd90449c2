//! What a job of a workflow holds. Every field is a node of the value tree,
//! absent until its key is met.
use super::{Concurrency, Permission};
use crate::scavenge::ast::{PossumMap, PossumNode, PossumSeq};
use crate::scavenge::extraction::Number;
use vstd::prelude::*;

verus! {

/// One job of a workflow.
#[derive(Debug)]
pub struct Job {
    pub name: Option<PossumNode<String>>,
    pub permissions: Option<PossumNode<Permission>>,
    pub needs: Option<PossumNode<PossumSeq<String>>>,
    pub cond: Option<PossumNode<String>>,
    pub runs_on: Option<PossumNode<PossumSeq<String>>>,
    pub environment: Option<PossumNode<Environment>>,
    pub concurrency: Option<PossumNode<Concurrency>>,
    pub outputs: Option<PossumNode<PossumMap<String, String>>>,
    pub env: Option<PossumNode<PossumMap<String, String>>>,
    pub steps: Option<PossumNode<PossumSeq<Step>>>,
    pub timeout_minutes: Option<PossumNode<Number>>,
    pub continue_on_error: Option<PossumNode<bool>>,
    pub uses: Option<PossumNode<String>>,
    pub with: Option<PossumNode<PossumMap<String, String>>>,
    pub strategy: Option<PossumNode<Strategy>>,
}

impl Job {
    /// The job of which no field has been met.
    pub open spec fn blank() -> Job {
        Job {
            name: None,
            permissions: None,
            needs: None,
            cond: None,
            runs_on: None,
            environment: None,
            concurrency: None,
            outputs: None,
            env: None,
            steps: None,
            timeout_minutes: None,
            continue_on_error: None,
            uses: None,
            with: None,
            strategy: None,
        }
    }
}

impl Default for Job {
    fn default() -> (job: Job)
        ensures
            job == Job::blank(),
    {
        Job {
            name: None,
            permissions: None,
            needs: None,
            cond: None,
            runs_on: None,
            environment: None,
            concurrency: None,
            outputs: None,
            env: None,
            steps: None,
            timeout_minutes: None,
            continue_on_error: None,
            uses: None,
            with: None,
            strategy: None,
        }
    }
}

/// Where a job deploys to: a bare name, or a name with a URL.
#[derive(Debug)]
pub enum Environment {
    Bare(String),
    Env { name: Option<PossumNode<String>>, url: Option<PossumNode<String>> },
}

/// One step of a job.
#[derive(Debug)]
pub struct Step {
    pub id: Option<PossumNode<String>>,
    pub cond: Option<PossumNode<String>>,
    pub name: Option<PossumNode<String>>,
    pub uses: Option<PossumNode<String>>,
    pub run: Option<PossumNode<String>>,
    pub shell: Option<PossumNode<String>>,
    pub with: Option<PossumNode<PossumMap<String, String>>>,
    pub env: Option<PossumNode<PossumMap<String, String>>>,
}

impl Step {
    /// The step of which no field has been met.
    pub open spec fn blank() -> Step {
        Step {
            id: None,
            cond: None,
            name: None,
            uses: None,
            run: None,
            shell: None,
            with: None,
            env: None,
        }
    }
}

impl Default for Step {
    fn default() -> (step: Step)
        ensures
            step == Step::blank(),
    {
        Step {
            id: None,
            cond: None,
            name: None,
            uses: None,
            run: None,
            shell: None,
            with: None,
            env: None,
        }
    }
}

/// How a job is multiplied over a matrix, and how its copies are run.
#[derive(Debug)]
pub struct Strategy {
    pub matrix: Option<PossumNode<Matrix>>,
    pub fail_fast: Option<PossumNode<bool>>,
    pub max_parallel: Option<PossumNode<Number>>,
}

impl Strategy {
    /// The strategy of which no field has been met.
    pub open spec fn blank() -> Strategy {
        Strategy { matrix: None, fail_fast: None, max_parallel: None }
    }
}

impl Default for Strategy {
    fn default() -> (strategy: Strategy)
        ensures
            strategy == Strategy::blank(),
    {
        Strategy { matrix: None, fail_fast: None, max_parallel: None }
    }
}

/// A build matrix. What to add and what to leave out stand among the axes of the matrix
/// in the source, so the axes are kept as a map of their own and are no node.
#[derive(Debug)]
pub struct Matrix {
    pub entries: PossumMap<String, PossumSeq<MatrixInput>>,
    pub inclusions: Option<PossumNode<PossumSeq<PossumMap<String, MatrixInput>>>>,
    pub exclusions: Option<PossumNode<PossumSeq<PossumMap<String, MatrixInput>>>>,
}

impl Matrix {
    /// Whether nothing has been put into this matrix.
    pub open spec fn is_blank(self) -> bool {
        &&& self.entries@.len() == 0
        &&& self.inclusions is None
        &&& self.exclusions is None
    }
}

impl Default for Matrix {
    fn default() -> (matrix: Matrix)
        ensures
            matrix.is_blank(),
    {
        Matrix { entries: PossumMap::empty(), inclusions: None, exclusions: None }
    }
}

/// One value of a matrix axis.
#[derive(Debug)]
pub enum MatrixInput {
    Str(String),
    Number(Number),
    Bool(bool),
}

} // verus!
