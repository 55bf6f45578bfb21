use vstd::prelude::*;
use vstd::string::*;

verus! {

/// The liveness report of the service.
#[derive(Debug, Clone)]
pub struct Health {
    pub version: String,
    pub status: String,
}

impl Health {
    /// A liveness report for the given build version.
    pub fn new(version: String) -> (r: Health)
        ensures
            r.version@ == version@,
            r.status@ == "ok"@,
    {
        Health { version, status: String::from_str("ok") }
    }
}

} // verus!
