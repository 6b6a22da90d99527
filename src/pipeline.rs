//! One deployment as a state machine: build the image, provision its network
//! and volume, register the function, report the outcome. The caller
//! performs each action and hands back its outcome.
use vstd::prelude::*;
use crate::container::{create_container_config, is_runtime_config_for};
use crate::errors::{DeployError, deploy_error_text};
use crate::function::{FunctionConfig, RunningFunction, image_name_of};
use crate::registry::DeployedFunctions;
use crate::status::DeploymentState;

verus! {

/// Where a deployment stands.
#[derive(Debug, Clone, Copy, PartialEq, Eq, Structural)]
pub enum Phase {
    Building,
    Provisioning,
    Registering,
    Finished,
    Failed,
}

pub open spec fn is_terminal(p: Phase) -> bool {
    p == Phase::Finished || p == Phase::Failed
}

/// The phase after a step of `p` that succeeded (`ok`) or failed. A
/// terminal phase stays as it is.
pub open spec fn next_phase(p: Phase, ok: bool) -> Phase {
    if is_terminal(p) {
        p
    } else if !ok {
        Phase::Failed
    } else {
        match p {
            Phase::Building => Phase::Provisioning,
            Phase::Provisioning => Phase::Registering,
            _ => Phase::Finished,
        }
    }
}

/// The phase after a run of steps with the given outcomes.
pub open spec fn run_steps(p: Phase, outcomes: Seq<bool>) -> Phase
    decreases outcomes.len(),
{
    if outcomes.len() == 0 {
        p
    } else {
        run_steps(next_phase(p, outcomes[0]), outcomes.drop_first())
    }
}

/// The state reported for a deployment in phase `p`.
pub open spec fn status_of(p: Phase) -> DeploymentState {
    match p {
        Phase::Finished => DeploymentState::Finished,
        Phase::Failed => DeploymentState::Failed,
        _ => DeploymentState::Running,
    }
}

/// What the caller is to do next for a deployment.
#[derive(Debug)]
pub enum PipelineAction {
    /// Build image `image_name` from the directory `context_path` with the
    /// Dockerfile `dockerfile`, relative to it.
    BuildImage { context_path: String, image_name: String, dockerfile: String },
    /// Make sure the network and the volume named `name` exist.
    Provision { name: String },
    /// Call `register` with the registry held exclusively.
    Register,
    /// Write the final state, and the error log if there is one, to the
    /// status store. Nothing follows.
    WriteStatus { state: DeploymentState, error_log: Option<String> },
}

/// One run of the deployment pipeline.
#[derive(Debug)]
pub struct Deployment {
    id: String,
    config: FunctionConfig,
    image_name: String,
    phase: Phase,
    error_log: String,
}

/// Relies on uuid::Uuid::now_v7, written by `Simple`'s `Display`: 32
/// lower-case hexadecimal digits.
#[verifier::external_body]
fn fresh_deployment_id() -> (r: String)
    ensures
        r@.len() == 32,
        forall|i: int|
            0 <= i < 32 ==> ('0' <= #[trigger] r@[i] <= '9' || 'a' <= r@[i] <= 'f'),
{
    uuid::Uuid::now_v7().simple().to_string()
}

impl Deployment {
    /// A failed deployment always has an error log.
    pub closed spec fn wf(&self) -> bool {
        &&& self.image_name@ == image_name_of(self.config.name@, self.config.version@)
        &&& self.phase == Phase::Failed ==> self.error_log@.len() > 0
    }

    pub closed spec fn spec_id(&self) -> Seq<char> {
        self.id@
    }

    /// The deployment's identifier.
    pub fn id(&self) -> (r: &String)
        ensures
            r@ == self.spec_id(),
    {
        &self.id
    }

    pub closed spec fn spec_phase(&self) -> Phase {
        self.phase
    }

    pub closed spec fn spec_config(&self) -> FunctionConfig {
        self.config
    }

    pub closed spec fn spec_error_log(&self) -> Seq<char> {
        self.error_log@
    }

    /// A deployment of `config` under the identifier `id`, before any step.
    pub fn new(id: String, config: FunctionConfig) -> (r: Deployment)
        ensures
            r.wf(),
            r.spec_id() == id@,
            r.spec_config() == config,
            r.spec_phase() == Phase::Building,
    {
        let image_name = config.image_name();
        Deployment { id, config, image_name, phase: Phase::Building, error_log: String::new() }
    }

    /// Accepts a deployment of `config` under a freshly generated identifier
    /// of 32 hexadecimal digits. No step of the pipeline has run yet.
    pub fn begin(config: FunctionConfig) -> (r: Deployment)
        ensures
            r.wf(),
            r.spec_id().len() == 32,
            r.spec_config() == config,
            r.spec_phase() == Phase::Building,
            status_of(r.spec_phase()) == DeploymentState::Running,
    {
        let id = fresh_deployment_id();
        Deployment::new(id, config)
    }

    pub fn phase(&self) -> (r: Phase)
        ensures
            r == self.spec_phase(),
    {
        self.phase
    }

    /// The state to report for this deployment now.
    pub fn status(&self) -> (r: DeploymentState)
        ensures
            r == status_of(self.spec_phase()),
    {
        match self.phase {
            Phase::Finished => DeploymentState::Finished,
            Phase::Failed => DeploymentState::Failed,
            _ => DeploymentState::Running,
        }
    }

    /// The action that the current phase calls for.
    pub fn next_action(&self) -> (r: PipelineAction)
        requires
            self.wf(),
        ensures
            self.spec_phase() == Phase::Building ==> (r matches PipelineAction::BuildImage {
                context_path,
                image_name,
                dockerfile,
            } && context_path@ == self.spec_config().build_context_path@ && image_name@
                == image_name_of(self.spec_config().name@, self.spec_config().version@)
                && dockerfile@ == self.spec_config().dockerfile@),
            self.spec_phase() == Phase::Provisioning ==> (r matches PipelineAction::Provision {
                name,
            } && name@ == image_name_of(self.spec_config().name@, self.spec_config().version@)),
            self.spec_phase() == Phase::Registering ==> r is Register,
            self.spec_phase() == Phase::Finished ==> (r matches PipelineAction::WriteStatus {
                state,
                error_log,
            } && state == DeploymentState::Finished && error_log is None),
            self.spec_phase() == Phase::Failed ==> (r matches PipelineAction::WriteStatus {
                state,
                error_log: Some(log),
            } && state == DeploymentState::Failed && log@ == self.spec_error_log() && log@.len()
                > 0),
    {
        match self.phase {
            Phase::Building => PipelineAction::BuildImage {
                context_path: self.config.build_context_path.clone(),
                image_name: self.image_name.clone(),
                dockerfile: self.config.dockerfile.clone(),
            },
            Phase::Provisioning => PipelineAction::Provision { name: self.image_name.clone() },
            Phase::Registering => PipelineAction::Register,
            Phase::Finished => PipelineAction::WriteStatus {
                state: DeploymentState::Finished,
                error_log: None,
            },
            Phase::Failed => PipelineAction::WriteStatus {
                state: DeploymentState::Failed,
                error_log: Some(self.error_log.clone()),
            },
        }
    }

    /// Takes in the outcome of the build or provisioning step. A failure
    /// ends the deployment with the error's text as its log; a deployment
    /// that has ended is left as it is.
    pub fn on_step(&mut self, outcome: Result<(), DeployError>)
        requires
            old(self).wf(),
            old(self).spec_phase() != Phase::Registering,
        ensures
            final(self).wf(),
            final(self).spec_id() == old(self).spec_id(),
            final(self).spec_config() == old(self).spec_config(),
            final(self).spec_phase() == next_phase(old(self).spec_phase(), outcome is Ok),
            !is_terminal(old(self).spec_phase()) ==> (outcome matches Err(e)
                ==> final(self).spec_error_log() == deploy_error_text(e)),
            is_terminal(old(self).spec_phase()) ==> final(self).spec_error_log()
                == old(self).spec_error_log(),
    {
        if self.phase == Phase::Finished || self.phase == Phase::Failed {
            return;
        }
        match outcome {
            Ok(()) => {
                self.phase = match self.phase {
                    Phase::Building => Phase::Provisioning,
                    Phase::Provisioning => Phase::Registering,
                    _ => Phase::Finished,
                };
            },
            Err(e) => {
                self.error_log = e.message();
                self.phase = Phase::Failed;
            },
        }
    }

    /// Registers the function, with no container yet, replacing any earlier
    /// entry of the same name, and moves on to reporting success.
    pub fn register(&mut self, functions: &mut DeployedFunctions)
        requires
            old(self).wf(),
            old(self).spec_phase() == Phase::Registering,
            old(functions).wf(),
        ensures
            final(self).wf(),
            final(self).spec_id() == old(self).spec_id(),
            final(self).spec_config() == old(self).spec_config(),
            final(self).spec_phase() == next_phase(Phase::Registering, true),
            final(functions).wf(),
            final(functions).view().dom() == old(functions).view().dom().insert(
                old(self).spec_config().name@,
            ),
            ({
                let name = old(self).spec_config().name@;
                let m = final(functions).view()[name];
                &&& final(functions).view() == old(functions).view().insert(name, m)
                &&& m.0 == old(self).spec_config()
                &&& is_runtime_config_for(
                    m.1,
                    image_name_of(old(self).spec_config().name@, old(self).spec_config().version@),
                )
                &&& m.2.len() == 0
            }),
    {
        let f = RunningFunction {
            config: self.config.duplicate(),
            container_config: create_container_config(self.image_name.as_str()),
            container_ids: Vec::new(),
        };
        let ghost fv = f@;
        functions.upsert(self.config.name.clone(), f);
        proof {
            assert(final(functions).view()[self.config.name@] == fv);
        }
        self.phase = Phase::Finished;
    }
}

/// A run in which building, provisioning and registering all succeed ends
/// in `Finished`, and any later outcome leaves it there.
pub proof fn lemma_successful_run_finishes(later: Seq<bool>)
    ensures
        status_of(run_steps(Phase::Building, seq![true, true, true] + later))
            == DeploymentState::Finished,
{
    let s = seq![true, true, true] + later;
    assert(s.drop_first() =~= seq![true, true] + later);
    assert(s.drop_first().drop_first() =~= seq![true] + later);
    assert(s.drop_first().drop_first().drop_first() =~= later);
    assert(run_steps(Phase::Building, s) == run_steps(Phase::Provisioning, s.drop_first()));
    assert(run_steps(Phase::Provisioning, s.drop_first()) == run_steps(
        Phase::Registering,
        s.drop_first().drop_first(),
    ));
    assert(run_steps(Phase::Registering, s.drop_first().drop_first()) == run_steps(
        Phase::Finished,
        later,
    ));
    lemma_terminal_is_permanent(Phase::Finished, later);
}

/// A run whose build fails ends in `Failed`, whatever comes after.
pub proof fn lemma_failed_build_fails(later: Seq<bool>)
    ensures
        status_of(run_steps(Phase::Building, seq![false] + later)) == DeploymentState::Failed,
{
    let s = seq![false] + later;
    assert(s.drop_first() =~= later);
    lemma_terminal_is_permanent(Phase::Failed, later);
}

/// Once a deployment has ended, no later step changes its phase.
pub proof fn lemma_terminal_is_permanent(p: Phase, later: Seq<bool>)
    requires
        is_terminal(p),
    ensures
        run_steps(p, later) == p,
    decreases later.len(),
{
    if later.len() > 0 {
        lemma_terminal_is_permanent(p, later.drop_first());
    }
}

} // verus!
