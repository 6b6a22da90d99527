use faas::container::create_container_config;
use faas::errors::{serialize_err, DeployError, FunctionError, SerializableError};
use faas::function::{FunctionConfig, FunctionDescriptor, RunningFunction};
use faas::pipeline::{Deployment, Phase, PipelineAction};
use faas::registry::{retain_other_ids, DeployedFunctions};
use faas::router::{invocation_command, select_container, try_invoke};
use faas::status::DeploymentState;

fn config(name: &str, version: &str) -> FunctionConfig {
    let d = FunctionDescriptor {
        name: name.to_string(),
        inner_port: 3000,
        memory: 128,
        timeout: 5,
        version: version.to_string(),
        dockerfile: "Dockerfile".to_string(),
    };
    let path = format!("functions/{name}/function.json");
    FunctionConfig::from_descriptor(d, &path).unwrap()
}

fn running(name: &str, ids: &[&str]) -> RunningFunction {
    RunningFunction {
        config: config(name, "v1"),
        container_config: create_container_config(&format!("{name}:v1")),
        container_ids: ids.iter().map(|s| s.to_string()).collect(),
    }
}

#[test]
fn error_messages() {
    assert_eq!(FunctionError::FunctionNotDeployed.message(), "Function not deployed");
    assert_eq!(FunctionError::NoRunningContainers.message(), "No running containers");
    assert_eq!(DeployError::Build("boom".to_string()).message(), "Build failed: boom");
    assert_eq!(
        DeployError::Config("bad".to_string()).message(),
        "Invalid function descriptor: bad"
    );
    assert_eq!(
        DeployError::Runtime("x".to_string()).message(),
        "Container runtime error: x"
    );
    assert_eq!(DeployError::StatusStore("".to_string()).message(), "Status store error: ");
}

#[test]
fn undeployed_error_body() {
    let e = SerializableError::from(FunctionError::FunctionNotDeployed);
    let body = serialize_err(&e);
    assert_eq!(body, "{\"error\":\"Function not deployed\"}");
    assert!(body.contains("not deployed"));
}

#[test]
fn error_body_escapes_the_message() {
    let e = SerializableError::from(DeployError::Build("say \"hi\"\n".to_string()));
    assert_eq!(serialize_err(&e), "{\"error\":\"Build failed: say \\\"hi\\\"\\n\"}");
}

#[test]
fn invoking_an_unknown_function_fails() {
    let mut reg = DeployedFunctions::new();
    assert_eq!(try_invoke(&reg, "ghost"), Err(FunctionError::FunctionNotDeployed));
    reg.upsert("echo".to_string(), running("echo", &["c1"]));
    assert_eq!(try_invoke(&reg, "ghost"), Err(FunctionError::FunctionNotDeployed));
}

#[test]
fn invoking_without_containers_fails() {
    let mut reg = DeployedFunctions::new();
    reg.upsert("echo".to_string(), running("echo", &[]));
    assert_eq!(try_invoke(&reg, "echo"), Err(FunctionError::NoRunningContainers));
}

#[test]
fn invocation_goes_to_the_first_container() {
    let mut reg = DeployedFunctions::new();
    reg.upsert("echo".to_string(), running("echo", &["c1", "c2"]));
    assert_eq!(try_invoke(&reg, "echo"), Ok("c1".to_string()));
    let ids = vec!["a".to_string(), "b".to_string()];
    assert_eq!(select_container(&ids), Some(&"a".to_string()));
    assert_eq!(select_container(&Vec::new()), None);
}

#[test]
fn invocation_command_posts_json() {
    let c = invocation_command();
    assert_eq!(c.len(), 9);
    assert_eq!(c[0], "curl");
    assert_eq!(c[4], "http://localhost:3000/");
    assert_eq!(c[8], "{ \"name\": \"test\" }");
}

#[test]
fn upsert_replaces_the_entry() {
    let mut reg = DeployedFunctions::new();
    assert_eq!(reg.len(), 0);
    reg.upsert("echo".to_string(), running("echo", &["old"]));
    reg.upsert("other".to_string(), running("other", &[]));
    reg.upsert("echo".to_string(), running("echo", &["new"]));
    assert_eq!(reg.len(), 2);
    assert_eq!(reg.get_container_ids("echo"), Ok(vec!["new".to_string()]));
    assert_eq!(reg.get_container_ids("other"), Ok(vec![]));
    assert_eq!(
        reg.get_container_ids("missing"),
        Err(FunctionError::FunctionNotDeployed)
    );
    assert!(reg.get("echo").is_some());
    assert!(reg.get("missing").is_none());
}

#[test]
fn removing_a_container_id() {
    let mut reg = DeployedFunctions::new();
    reg.upsert("echo".to_string(), running("echo", &["a", "b", "a", "c"]));
    reg.remove_container_id("echo", "a");
    assert_eq!(
        reg.get_container_ids("echo"),
        Ok(vec!["b".to_string(), "c".to_string()])
    );
    reg.remove_container_id("echo", "zzz");
    assert_eq!(
        reg.get_container_ids("echo"),
        Ok(vec!["b".to_string(), "c".to_string()])
    );
    assert_eq!(
        retain_other_ids(&vec!["x".to_string(), "y".to_string()], "x"),
        vec!["y".to_string()]
    );
}

#[test]
fn snapshot_and_pairs() {
    let mut reg = DeployedFunctions::new();
    reg.upsert("echo".to_string(), running("echo", &["a", "b"]));
    reg.upsert("other".to_string(), running("other", &["c"]));
    reg.upsert("idle".to_string(), running("idle", &[]));
    let snap = reg.snapshot();
    assert_eq!(snap.len(), 3);
    let mut names: Vec<&str> = snap.iter().map(|(n, _)| n.as_str()).collect();
    names.sort();
    assert_eq!(names, vec!["echo", "idle", "other"]);
    let mut pairs = reg.container_pairs();
    pairs.sort();
    assert_eq!(
        pairs,
        vec![
            ("echo".to_string(), "a".to_string()),
            ("echo".to_string(), "b".to_string()),
            ("other".to_string(), "c".to_string()),
        ]
    );
    for (f, id) in pairs {
        reg.remove_container_id(&f, &id);
    }
    assert!(reg.container_pairs().is_empty());
    assert_eq!(reg.len(), 3);
    assert_eq!(snap[0].1.container_ids.len() + snap[1].1.container_ids.len() + snap[2].1.container_ids.len(), 3);
}

#[test]
fn deployment_starts_running_with_a_fresh_id() {
    let a = Deployment::begin(config("echo", "v1"));
    let b = Deployment::begin(config("echo", "v1"));
    assert_eq!(a.id().len(), 32);
    assert!(a.id().chars().all(|c| c.is_ascii_hexdigit() && !c.is_ascii_uppercase()));
    assert_ne!(a.id(), b.id());
    assert_eq!(a.phase(), Phase::Building);
    assert_eq!(a.status(), DeploymentState::Running);
}

#[test]
fn successful_pipeline_registers_echo() {
    let mut reg = DeployedFunctions::new();
    let mut d = Deployment::new("id1".to_string(), config("echo", "v1"));
    match d.next_action() {
        PipelineAction::BuildImage { context_path, image_name, dockerfile } => {
            assert_eq!(context_path, "functions/echo");
            assert_eq!(image_name, "echo:v1");
            assert_eq!(dockerfile, "Dockerfile");
        }
        other => panic!("unexpected {other:?}"),
    }
    d.on_step(Ok(()));
    match d.next_action() {
        PipelineAction::Provision { name } => assert_eq!(name, "echo:v1"),
        other => panic!("unexpected {other:?}"),
    }
    d.on_step(Ok(()));
    assert!(matches!(d.next_action(), PipelineAction::Register));
    d.register(&mut reg);
    assert_eq!(d.status(), DeploymentState::Finished);
    match d.next_action() {
        PipelineAction::WriteStatus { state, error_log } => {
            assert_eq!(state, DeploymentState::Finished);
            assert_eq!(error_log, None);
        }
        other => panic!("unexpected {other:?}"),
    }
    let f = reg.get("echo").unwrap();
    assert!(f.container_ids.is_empty());
    assert_eq!(f.container_config.image, "echo:v1");
    assert_eq!(f.config.inner_port, 3000);
    assert_eq!(try_invoke(&reg, "echo"), Err(FunctionError::NoRunningContainers));
    d.on_step(Err(DeployError::Build("late".to_string())));
    assert_eq!(d.status(), DeploymentState::Finished);
}

#[test]
fn failed_build_is_reported_with_its_log() {
    let mut d = Deployment::new("id2".to_string(), config("echo", "v1"));
    d.on_step(Err(DeployError::Build("no Dockerfile".to_string())));
    assert_eq!(d.status(), DeploymentState::Failed);
    match d.next_action() {
        PipelineAction::WriteStatus { state, error_log } => {
            assert_eq!(state, DeploymentState::Failed);
            assert_eq!(error_log, Some("Build failed: no Dockerfile".to_string()));
        }
        other => panic!("unexpected {other:?}"),
    }
    d.on_step(Ok(()));
    assert_eq!(d.status(), DeploymentState::Failed);
}

#[test]
fn failed_provisioning_is_reported() {
    let mut reg = DeployedFunctions::new();
    let mut d = Deployment::new("id3".to_string(), config("echo", "v1"));
    d.on_step(Ok(()));
    d.on_step(Err(DeployError::Runtime(String::new())));
    assert_eq!(d.phase(), Phase::Failed);
    match d.next_action() {
        PipelineAction::WriteStatus { error_log: Some(log), .. } => assert!(!log.is_empty()),
        other => panic!("unexpected {other:?}"),
    }
    assert_eq!(reg.len(), 0);
    reg.upsert("x".to_string(), running("x", &[]));
    assert_eq!(reg.len(), 1);
}

#[test]
fn two_deployments_of_one_name_leave_one_entry() {
    let mut reg = DeployedFunctions::new();
    let mut a = Deployment::new("a".to_string(), config("echo", "v1"));
    let mut b = Deployment::new("b".to_string(), config("echo", "v2"));
    a.on_step(Ok(()));
    b.on_step(Ok(()));
    a.on_step(Ok(()));
    b.on_step(Ok(()));
    a.register(&mut reg);
    b.register(&mut reg);
    assert_eq!(reg.len(), 1);
    assert_eq!(reg.get("echo").unwrap().config.version, "v2");
    assert_eq!(reg.get("echo").unwrap().container_config.image, "echo:v2");
}
