//! A verified screen-capture pipeline: enumerate displays, snapshot the
//! primary one, validate and crop the captured frame against a caller-given
//! rectangle, and derive the artifact name and encoded bytes to persist.
use vstd::prelude::*;
use vstd::string::StringExecFns;

pub mod artifact;
pub mod capture;
pub mod codec;
pub mod errors;
pub mod frame;
pub mod geometry;
pub mod pipeline;

verus! {

/// Builds the greeting returned to the caller boundary.
pub fn greet(name: &str) -> (r: String)
    ensures
        r@ == "Hello, "@ + name@ + "! You've been greeted from Rust!"@,
{
    let mut s = "Hello, ".to_owned();
    s.append(name);
    s.append("! You've been greeted from Rust!");
    proof {
        assert(s@ =~= "Hello, "@ + name@ + "! You've been greeted from Rust!"@);
    }
    s
}

} // verus!
