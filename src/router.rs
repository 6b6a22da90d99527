//! Resolving an invocation to a container.
use vstd::prelude::*;
use crate::errors::FunctionError;
use crate::registry::DeployedFunctions;

verus! {

/// The container that serves an invocation: the first one listed.
pub fn select_container(ids: &Vec<String>) -> (r: Option<&String>)
    ensures
        r is None <==> ids@.len() == 0,
        r matches Some(id) ==> *id == ids@[0],
{
    if ids.len() == 0 {
        None
    } else {
        Some(&ids[0])
    }
}

/// Resolves `function_name` to the container that is to run the
/// invocation.
pub fn try_invoke(functions: &DeployedFunctions, function_name: &str) -> (r: Result<
    String,
    FunctionError,
>)
    requires
        functions.wf(),
    ensures
        r == Err::<String, FunctionError>(FunctionError::FunctionNotDeployed) <==> !functions.view().contains_key(function_name@),
        r == Err::<String, FunctionError>(FunctionError::NoRunningContainers) <==> functions.view().contains_key(function_name@)
            && functions.view()[function_name@].2.len() == 0,
        r matches Ok(id) ==> functions.view().contains_key(function_name@)
            && functions.view()[function_name@].2.len() > 0
            && id == functions.view()[function_name@].2[0],
{
    let f = match functions.get(function_name) {
        Some(f) => f,
        None => {
            return Err(FunctionError::FunctionNotDeployed);
        },
    };
    match select_container(&f.container_ids) {
        Some(id) => Ok(id.clone()),
        None => Err(FunctionError::NoRunningContainers),
    }
}

/// The command run inside a container to invoke its function: a JSON POST
/// to the function's port.
pub open spec fn invocation_command_of() -> Seq<Seq<char>> {
    seq![
        "curl"@,
        "-s"@,
        "-X"@,
        "POST"@,
        "http://localhost:3000/"@,
        "-H"@,
        "Content-Type: application/json"@,
        "-d"@,
        "{ \"name\": \"test\" }"@,
    ]
}

pub fn invocation_command() -> (r: Vec<String>)
    ensures
        r@.map_values(|s: String| s@) == invocation_command_of(),
{
    let r = vec![
        String::from_str("curl"),
        String::from_str("-s"),
        String::from_str("-X"),
        String::from_str("POST"),
        String::from_str("http://localhost:3000/"),
        String::from_str("-H"),
        String::from_str("Content-Type: application/json"),
        String::from_str("-d"),
        String::from_str("{ \"name\": \"test\" }"),
    ];
    assert(r@.map_values(|s: String| s@) =~= invocation_command_of());
    r
}

} // verus!
