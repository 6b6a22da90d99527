use faas::container::{
    container_name_from_image_name, create_container_config, create_container_spec,
    image_name_from_container_id, memory_limit_bytes, MB_TO_BYTES,
};
use faas::errors::DeployError;
use faas::function::{descriptor_path, FunctionConfig, FunctionDescriptor};
use faas::status::{error_key, state_key, DeploymentState};
use faas::text::{parent_dir, replace_colons};

fn echo_descriptor() -> FunctionDescriptor {
    FunctionDescriptor {
        name: "echo".to_string(),
        inner_port: 3000,
        memory: 128,
        timeout: 5,
        version: "v1".to_string(),
        dockerfile: "Dockerfile".to_string(),
    }
}

#[test]
fn state_text_round_trip() {
    for s in [DeploymentState::Running, DeploymentState::Failed, DeploymentState::Finished] {
        assert_eq!(DeploymentState::from_string(s.to_string()), Ok(s));
    }
    assert_eq!(DeploymentState::Running.to_string(), "running");
    assert_eq!(DeploymentState::Failed.to_string(), "failed");
    assert_eq!(DeploymentState::Finished.to_string(), "finished");
}

#[test]
fn unknown_state_text_is_rejected() {
    assert_eq!(
        DeploymentState::from_string("done".to_string()),
        Err("No such state".to_string())
    );
    assert_eq!(
        DeploymentState::from_string("Running".to_string()),
        Err("No such state".to_string())
    );
}

#[test]
fn terminal_states() {
    assert!(!DeploymentState::Running.is_terminal());
    assert!(DeploymentState::Failed.is_terminal());
    assert!(DeploymentState::Finished.is_terminal());
}

#[test]
fn status_store_keys() {
    assert_eq!(state_key("abc"), "deployment:abc:state");
    assert_eq!(error_key("abc"), "deployment:abc:error");
}

#[test]
fn colons_become_dashes() {
    assert_eq!(replace_colons("echo:v1"), "echo-v1");
    assert_eq!(replace_colons("a:b:c"), "a-b-c");
    assert_eq!(replace_colons(""), "");
    assert_eq!(replace_colons("plain"), "plain");
}

#[test]
fn parent_directory() {
    assert_eq!(parent_dir("functions/echo/function.json"), "functions/echo");
    assert_eq!(parent_dir("function.json"), "");
    assert_eq!(parent_dir("a/"), "a");
    assert_eq!(parent_dir(""), "");
}

#[test]
fn descriptor_location() {
    assert_eq!(descriptor_path("echo"), "functions/echo/function.json");
}

#[test]
fn descriptor_becomes_config() {
    let c = FunctionConfig::from_descriptor(echo_descriptor(), "functions/echo/function.json")
        .unwrap();
    assert_eq!(c.name, "echo");
    assert_eq!(c.inner_port, 3000);
    assert_eq!(c.memory, 128);
    assert_eq!(c.timeout, 5);
    assert_eq!(c.version, "v1");
    assert_eq!(c.dockerfile, "Dockerfile");
    assert_eq!(c.build_context_path, "functions/echo");
    assert_eq!(c.image_name(), "echo:v1");
}

#[test]
fn out_of_range_port_is_a_config_error() {
    let mut d = echo_descriptor();
    d.inner_port = 65536;
    let r = FunctionConfig::from_descriptor(d, "functions/echo/function.json");
    assert!(matches!(r, Err(DeployError::Config(_))));
    let mut d = echo_descriptor();
    d.inner_port = -1;
    assert!(FunctionConfig::from_descriptor(d, "x/function.json").is_err());
    let mut d = echo_descriptor();
    d.inner_port = 65535;
    assert!(FunctionConfig::from_descriptor(d, "x/function.json").is_ok());
}

#[test]
fn out_of_range_timeout_is_a_config_error() {
    let mut d = echo_descriptor();
    d.timeout = 4294967296;
    let r = FunctionConfig::from_descriptor(d, "functions/echo/function.json");
    assert!(matches!(r, Err(DeployError::Config(_))));
    let mut d = echo_descriptor();
    d.timeout = 4294967295;
    assert!(FunctionConfig::from_descriptor(d, "x/function.json").is_ok());
}

#[test]
fn runtime_config_is_named_after_the_image() {
    let c = create_container_config("echo:v1");
    assert_eq!(c.image, "echo:v1");
    assert_eq!(c.network_mode, "echo:v1");
    assert_eq!(c.volume_name, "echo:v1");
    assert_eq!(c.mount_target, "/shared_data");
}

#[test]
fn container_names() {
    assert_eq!(image_name_from_container_id("echo:v1", "42"), "function-echo-v1-42");
    let a = container_name_from_image_name("echo:v1");
    let b = container_name_from_image_name("echo:v1");
    assert!(a.starts_with("function-echo-v1-"));
    assert_eq!(a.len(), "function-echo-v1-".len() + 36);
    assert_ne!(a, b);
}

#[test]
fn memory_in_bytes() {
    assert_eq!(MB_TO_BYTES, 1048576);
    assert_eq!(memory_limit_bytes(128), Some(134217728));
    assert_eq!(memory_limit_bytes(0), Some(0));
    assert_eq!(memory_limit_bytes(8796093022207), Some(8796093022207 * 1048576));
    assert_eq!(memory_limit_bytes(8796093022208), None);
    assert_eq!(memory_limit_bytes(-8796093022208), Some(i64::MIN));
    assert_eq!(memory_limit_bytes(-8796093022209), None);
}

#[test]
fn container_spec_binds_ports_and_memory() {
    let c = FunctionConfig::from_descriptor(echo_descriptor(), "functions/echo/function.json")
        .unwrap();
    let s = create_container_spec(&c, "echo:v1", 9090, "n".to_string()).unwrap();
    assert_eq!(s.name, "n");
    assert_eq!(s.image, "echo:v1");
    assert_eq!(s.inner_port, 3000);
    assert_eq!(s.host_port, 9090);
    assert_eq!(s.memory_bytes, 128 * 1024 * 1024);
    let mut big = echo_descriptor();
    big.memory = i64::MAX;
    let c = FunctionConfig::from_descriptor(big, "functions/echo/function.json").unwrap();
    let r = create_container_spec(&c, "echo:v1", 9090, "n".to_string());
    assert!(matches!(r, Err(DeployError::Runtime(_))));
}
