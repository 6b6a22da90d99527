//! Control plane of a small function-as-a-service host: the registry of
//! deployed functions, the deployment pipeline as a state machine, the
//! invocation router and the naming rules shared with the container engine
//! and the deployment status store.
pub mod status;
pub mod errors;
pub mod text;
pub mod function;
pub mod container;
pub mod registry;
pub mod router;
pub mod pipeline;
