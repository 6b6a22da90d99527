//! What the control plane asks of the container engine: image and container
//! names, the per-function runtime configuration and container parameters.
use vstd::prelude::*;
use crate::errors::DeployError;
use crate::function::FunctionConfig;
use crate::text::{colons_to_dashes, replace_colons};

verus! {

/// Bytes in a megabyte.
pub const MB_TO_BYTES: i64 = 1024 * 1024;

/// Path inside every container where the function's shared volume is mounted.
pub open spec fn shared_data_path() -> Seq<char> {
    "/shared_data"@
}

/// The runtime configuration of a function's containers: the image, the
/// network they join and the volume they share.
#[derive(Debug)]
pub struct ContainerRuntimeConfig {
    pub image: String,
    pub network_mode: String,
    pub volume_name: String,
    pub mount_target: String,
}

impl ContainerRuntimeConfig {
    /// A copy equal to this one.
    pub fn duplicate(&self) -> (r: ContainerRuntimeConfig)
        ensures
            r == *self,
    {
        ContainerRuntimeConfig {
            image: self.image.clone(),
            network_mode: self.network_mode.clone(),
            volume_name: self.volume_name.clone(),
            mount_target: self.mount_target.clone(),
        }
    }
}

/// `c` is the configuration for containers of image `image`: a network and a
/// volume both named after the image, the volume mounted at the shared path.
pub open spec fn is_runtime_config_for(c: ContainerRuntimeConfig, image: Seq<char>) -> bool {
    &&& c.image@ == image
    &&& c.network_mode@ == image
    &&& c.volume_name@ == image
    &&& c.mount_target@ == shared_data_path()
}

/// The runtime configuration of an image, once its network and volume exist.
pub fn create_container_config(image_name: &str) -> (r: ContainerRuntimeConfig)
    ensures
        is_runtime_config_for(r, image_name@),
{
    ContainerRuntimeConfig {
        image: String::from_str(image_name),
        network_mode: String::from_str(image_name),
        volume_name: String::from_str(image_name),
        mount_target: String::from_str("/shared_data"),
    }
}

/// Name of a container of image `image` with unique part `suffix`.
pub open spec fn container_name_of(image: Seq<char>, suffix: Seq<char>) -> Seq<char> {
    "function-"@ + colons_to_dashes(image) + "-"@ + suffix
}

pub fn image_name_from_container_id(image_name: &str, container_id: &str) -> (r: String)
    ensures
        r@ == container_name_of(image_name@, container_id@),
{
    let mut n = String::from_str("function-");
    let img = replace_colons(image_name);
    n.append(img.as_str());
    n.append("-");
    n.append(container_id);
    n
}

/// Relies on uuid::Uuid::now_v7, written by `Uuid`'s `Display` in the
/// hyphenated form of 36 characters.
#[verifier::external_body]
fn fresh_uuid() -> (r: String)
    ensures
        r@.len() == 36,
{
    uuid::Uuid::now_v7().to_string()
}

/// A fresh container name for image `image_name`: the image's name and a
/// newly generated unique identifier.
pub fn container_name_from_image_name(image_name: &str) -> (r: String)
    ensures
        exists|u: Seq<char>| u.len() == 36 && r@ == container_name_of(image_name@, u),
{
    let u = fresh_uuid();
    image_name_from_container_id(image_name, u.as_str())
}

/// `m` megabytes fit in bytes as an `i64`.
pub open spec fn memory_fits(m: i64) -> bool {
    i64::MIN <= m * MB_TO_BYTES <= i64::MAX
}

/// A memory limit in bytes, from megabytes; `None` where it overflows.
pub fn memory_limit_bytes(memory: i64) -> (r: Option<i64>)
    ensures
        r is Some <==> memory_fits(memory),
        r matches Some(b) ==> b == memory * MB_TO_BYTES,
{
    if memory > 8796093022207 || memory < -8796093022208 {
        None
    } else {
        Some(memory * MB_TO_BYTES)
    }
}

/// Parameters of one container to create.
#[derive(Debug)]
pub struct ContainerSpec {
    pub name: String,
    pub image: String,
    /// Port inside the container, bound to `host_port` on all host addresses.
    pub inner_port: u16,
    pub host_port: u16,
    pub memory_bytes: i64,
}

/// The parameters of a container named `container_name` running image
/// `image_name` for `config`, its inner port bound to `host_port`.
pub fn create_container_spec(
    config: &FunctionConfig,
    image_name: &str,
    host_port: u16,
    container_name: String,
) -> (r: Result<ContainerSpec, DeployError>)
    ensures
        r is Ok <==> memory_fits(config.memory),
        r matches Ok(s) ==> {
            &&& s.name == container_name
            &&& s.image@ == image_name@
            &&& s.inner_port == config.inner_port
            &&& s.host_port == host_port
            &&& s.memory_bytes == config.memory * MB_TO_BYTES
        },
        r matches Err(e) ==> e is Runtime,
{
    match memory_limit_bytes(config.memory) {
        Some(b) => Ok(
            ContainerSpec {
                name: container_name,
                image: String::from_str(image_name),
                inner_port: config.inner_port,
                host_port,
                memory_bytes: b,
            },
        ),
        None => Err(DeployError::Runtime(String::from_str("memory limit overflows"))),
    }
}

} // verus!
