//! The identification strings the embedder answers the engine with.

use vstd::prelude::*;

verus! {

/// The user-agent string the embedder reports, when asked for one.
pub fn user_agent() -> (r: Option<String>)
    ensures
        r matches Some(ua) && ua@ == "Servo/Deno Embedder (like Firefox/Gecko)"@,
{
    Some("Servo/Deno Embedder (like Firefox/Gecko)".to_string())
}

/// The version string the embedder reports, when asked for one.
pub fn version() -> (r: Option<String>)
    ensures
        r matches Some(v) && v@ == "0.1.0"@,
{
    Some("0.1.0".to_string())
}

} // verus!
