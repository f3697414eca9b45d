//! Bootstrap constants: the fixed bind address and the startup log line.

use vstd::prelude::*;

verus! {

/// The fixed address the server listens on. It is not configurable.
pub fn bind_address() -> (r: &'static str)
    ensures
        r@ == "0.0.0.0:8080"@,
{
    "0.0.0.0:8080"
}

/// The log line announcing the bound address, emitted once at startup.
pub fn startup_log_line(addr: &str) -> (r: String)
    ensures
        r@ == "Starting user-management on "@ + addr@,
{
    let mut line = String::from_str("Starting user-management on ");
    line.append(addr);
    line
}

} // verus!
