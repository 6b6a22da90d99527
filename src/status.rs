//! Deployment lifecycle states and the keys under which the status store
//! keeps them.
use vstd::prelude::*;

verus! {

/// Lifecycle state of one deployment.
#[derive(Debug, Clone, Copy, PartialEq, Eq, Structural)]
pub enum DeploymentState {
    Running,
    Failed,
    Finished,
}

/// The text under which a state is stored and reported.
pub open spec fn state_text(s: DeploymentState) -> Seq<char> {
    match s {
        DeploymentState::Running => "running"@,
        DeploymentState::Failed => "failed"@,
        DeploymentState::Finished => "finished"@,
    }
}

/// Whether some state is stored under the text `t`.
pub open spec fn is_state_text(t: Seq<char>) -> bool {
    exists|s: DeploymentState| state_text(s) == t
}

/// Distinct states have distinct texts.
pub proof fn lemma_state_text_injective(a: DeploymentState, b: DeploymentState)
    ensures
        state_text(a) == state_text(b) ==> a == b,
{
    reveal_strlit("running");
    reveal_strlit("failed");
    reveal_strlit("finished");
    if state_text(a) == state_text(b) {
        assert(state_text(a).len() == state_text(b).len());
    }
}

impl DeploymentState {
    /// A deployment in a terminal state is never revisited.
    pub open spec fn spec_is_terminal(self) -> bool {
        self != DeploymentState::Running
    }

    pub fn is_terminal(&self) -> (r: bool)
        ensures
            r == self.spec_is_terminal(),
    {
        !matches!(self, DeploymentState::Running)
    }

    /// The stored text of the state.
    pub fn to_string(&self) -> (r: String)
        ensures
            r@ == state_text(*self),
    {
        match self {
            DeploymentState::Running => String::from_str("running"),
            DeploymentState::Failed => String::from_str("failed"),
            DeploymentState::Finished => String::from_str("finished"),
        }
    }

    /// Reads a state back from its stored text.
    pub fn from_string(value: String) -> (r: Result<DeploymentState, String>)
        ensures
            forall|s: DeploymentState|
                #[trigger] state_text(s) == value@ <==> r == Ok::<DeploymentState, String>(s),
            r is Err <==> !is_state_text(value@),
            r matches Err(e) ==> e@ == "No such state"@,
    {
        proof {
            reveal_strlit("running");
            reveal_strlit("failed");
            reveal_strlit("finished");
        }
        if value == String::from_str("running") {
            assert(state_text(DeploymentState::Running) == value@);
            proof {
                assert forall|s: DeploymentState| #[trigger] state_text(s) == value@ implies s == DeploymentState::Running by {
                    lemma_state_text_injective(s, DeploymentState::Running);
                }
            }
            Ok(DeploymentState::Running)
        } else if value == String::from_str("failed") {
            assert(state_text(DeploymentState::Failed) == value@);
            proof {
                assert forall|s: DeploymentState| #[trigger] state_text(s) == value@ implies s == DeploymentState::Failed by {
                    lemma_state_text_injective(s, DeploymentState::Failed);
                }
            }
            Ok(DeploymentState::Failed)
        } else if value == String::from_str("finished") {
            assert(state_text(DeploymentState::Finished) == value@);
            proof {
                assert forall|s: DeploymentState| #[trigger] state_text(s) == value@ implies s == DeploymentState::Finished by {
                    lemma_state_text_injective(s, DeploymentState::Finished);
                }
            }
            Ok(DeploymentState::Finished)
        } else {
            proof {
                assert forall|s: DeploymentState| state_text(s) != value@ by {
                    match s {
                        DeploymentState::Running => {},
                        DeploymentState::Failed => {},
                        DeploymentState::Finished => {},
                    }
                }
            }
            Err(String::from_str("No such state"))
        }
    }
}

/// Key of a deployment's state in the status store.
pub open spec fn state_key_of(id: Seq<char>) -> Seq<char> {
    "deployment:"@ + id + ":state"@
}

/// Key of a deployment's error log in the status store.
pub open spec fn error_key_of(id: Seq<char>) -> Seq<char> {
    "deployment:"@ + id + ":error"@
}

pub fn state_key(deployment_id: &str) -> (r: String)
    ensures
        r@ == state_key_of(deployment_id@),
{
    let mut k = String::from_str("deployment:");
    k.append(deployment_id);
    k.append(":state");
    k
}

pub fn error_key(deployment_id: &str) -> (r: String)
    ensures
        r@ == error_key_of(deployment_id@),
{
    let mut k = String::from_str("deployment:");
    k.append(deployment_id);
    k.append(":error");
    k
}

} // verus!
