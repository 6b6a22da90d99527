//! Function descriptors, the configuration loaded from them, and the state
//! of a deployed function.
use vstd::prelude::*;
use crate::container::ContainerRuntimeConfig;
use crate::errors::DeployError;
use crate::text::{is_parent_of, parent_dir};

verus! {

/// The fields of a function descriptor file as read, before validation.
#[derive(Debug)]
pub struct FunctionDescriptor {
    pub name: String,
    pub inner_port: i64,
    pub memory: i64,
    pub timeout: i64,
    pub version: String,
    pub dockerfile: String,
}

/// A function's configuration, fixed once loaded.
#[derive(Debug)]
pub struct FunctionConfig {
    pub name: String,
    /// Port the function listens on inside its container.
    pub inner_port: u16,
    /// Memory limit in megabytes.
    pub memory: i64,
    /// Timeout in seconds.
    pub timeout: u32,
    pub version: String,
    /// Dockerfile path, relative to the build context.
    pub dockerfile: String,
    /// Directory holding the build context: that of the descriptor file.
    pub build_context_path: String,
}

/// The descriptor's numbers fit the configuration's types.
pub open spec fn descriptor_valid(d: FunctionDescriptor) -> bool {
    0 <= d.inner_port <= u16::MAX && 0 <= d.timeout <= u32::MAX
}

/// `c` holds the descriptor's fields as they were read.
pub open spec fn config_matches(c: FunctionConfig, d: FunctionDescriptor) -> bool {
    &&& c.name@ == d.name@
    &&& c.inner_port as int == d.inner_port as int
    &&& c.memory == d.memory
    &&& c.timeout as int == d.timeout as int
    &&& c.version@ == d.version@
    &&& c.dockerfile@ == d.dockerfile@
}

/// Name of the image built for a function: `name:version`.
pub open spec fn image_name_of(name: Seq<char>, version: Seq<char>) -> Seq<char> {
    name + ":"@ + version
}

/// Where the descriptor of the named function lives.
pub open spec fn descriptor_path_of(function_name: Seq<char>) -> Seq<char> {
    "functions/"@ + function_name + "/function.json"@
}

pub fn descriptor_path(function_name: &str) -> (r: String)
    ensures
        r@ == descriptor_path_of(function_name@),
{
    let mut p = String::from_str("functions/");
    p.append(function_name);
    p.append("/function.json");
    p
}

impl FunctionConfig {
    /// Validates a descriptor read from `descriptor_path` and takes the build
    /// context to be the descriptor's directory.
    pub fn from_descriptor(d: FunctionDescriptor, descriptor_path: &str) -> (r: Result<
        FunctionConfig,
        DeployError,
    >)
        ensures
            r is Ok <==> descriptor_valid(d),
            r matches Ok(c) ==> config_matches(c, d) && is_parent_of(
                c.build_context_path@,
                descriptor_path@,
            ),
            r matches Err(e) ==> e is Config,
    {
        if d.inner_port < 0 || d.inner_port > 65535 {
            return Err(DeployError::Config(String::from_str("innerPort is not a port number")));
        }
        if d.timeout < 0 || d.timeout > 4294967295 {
            return Err(DeployError::Config(String::from_str("timeout is out of range")));
        }
        let build_context_path = parent_dir(descriptor_path);
        Ok(FunctionConfig {
            name: d.name,
            inner_port: d.inner_port as u16,
            memory: d.memory,
            timeout: d.timeout as u32,
            version: d.version,
            dockerfile: d.dockerfile,
            build_context_path,
        })
    }

    /// The image built for this function.
    pub fn image_name(&self) -> (r: String)
        ensures
            r@ == image_name_of(self.name@, self.version@),
    {
        let mut n = self.name.clone();
        n.append(":");
        n.append(self.version.as_str());
        n
    }

    /// A copy equal to this one.
    pub fn duplicate(&self) -> (r: FunctionConfig)
        ensures
            r == *self,
    {
        FunctionConfig {
            name: self.name.clone(),
            inner_port: self.inner_port,
            memory: self.memory,
            timeout: self.timeout,
            version: self.version.clone(),
            dockerfile: self.dockerfile.clone(),
            build_context_path: self.build_context_path.clone(),
        }
    }
}

/// A copy of a list of container identifiers.
pub fn copy_ids(ids: &Vec<String>) -> (r: Vec<String>)
    ensures
        r@ == ids@,
{
    let mut r: Vec<String> = Vec::new();
    let mut i: usize = 0;
    while i < ids.len()
        invariant
            i <= ids.len(),
            r@ == ids@.subrange(0, i as int),
        decreases ids.len() - i,
    {
        r.push(ids[i].clone());
        assert(r@ =~= ids@.subrange(0, i + 1));
        i = i + 1;
    }
    assert(r@ =~= ids@);
    r
}

/// A deployed function: its configuration, its container configuration and
/// the identifiers of its live containers (possibly none).
#[derive(Debug)]
pub struct RunningFunction {
    pub config: FunctionConfig,
    pub container_config: ContainerRuntimeConfig,
    pub container_ids: Vec<String>,
}

impl View for RunningFunction {
    type V = (FunctionConfig, ContainerRuntimeConfig, Seq<String>);

    open spec fn view(&self) -> Self::V {
        (self.config, self.container_config, self.container_ids@)
    }
}

impl RunningFunction {
    /// A copy equal to this one.
    pub fn duplicate(&self) -> (r: RunningFunction)
        ensures
            r@ == self@,
    {
        RunningFunction {
            config: self.config.duplicate(),
            container_config: self.container_config.duplicate(),
            container_ids: copy_ids(&self.container_ids),
        }
    }
}

} // verus!
