//! The values the initialization op computes: the engine's resource
//! directory, the URL of the first view, the outcome it reports, and the
//! registration data of the plugin's extension.

use vstd::prelude::*;
use vstd::string::StringExecFns;

verus! {

/// What the initialization op reports back to the host runtime.
pub struct InitializationResult {
    pub success: bool,
    pub message: String,
}

/// The directory the engine reads its resources from, under the given
/// working directory.
pub fn resources_path(cwd: &str) -> (r: String)
    ensures
        r@ == cwd@ + "/servo/resources"@,
{
    let mut r = String::from_str(cwd);
    r.append("/servo/resources");
    r
}

/// The URL the freshly created view is pointed at.
pub fn initial_url() -> (r: String)
    ensures
        r@ == "about:blank"@,
{
    "about:blank".to_string()
}

/// The outcome the op builds once the engine is up: success, with a fixed
/// message.
pub fn initialization_result() -> (r: InitializationResult)
    ensures
        r.success,
        r.message@ == "Servo initialized successfully"@,
{
    InitializationResult { success: true, message: "Servo initialized successfully".to_string() }
}

/// The name under which the extension registers with the host runtime.
pub fn extension_name() -> (r: String)
    ensures
        r@ == "servo_deno_plugin"@,
{
    "servo_deno_plugin".to_string()
}

/// The ops the extension registers, in order.
pub fn op_names() -> (r: Vec<String>)
    ensures
        r@.len() == 1,
        r@[0]@ == "op_initialize_servo"@,
{
    let mut v: Vec<String> = Vec::new();
    v.push("op_initialize_servo".to_string());
    v
}

} // verus!
