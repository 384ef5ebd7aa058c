//! Settings naming one binary distribution: host to fetch from, operating
//! system, architecture and version. Only the naming logic lives here; the
//! network fetch itself is a collaborator outside this library.

use vstd::prelude::*;
use vstd::string::StringExecFns;
use crate::pg_enums::{Architecture, OperationSystem};

verus! {

/// Which binary distribution to acquire, and from where.
#[derive(Debug, Clone)]
pub struct PgFetchSettings {
    /// Host to download the distribution package from
    pub host: String,
    /// Operation system of the distribution
    pub operating_system: OperationSystem,
    /// Cpu architecture of the distribution
    pub architecture: Architecture,
    /// PostgreSQL version of the distribution
    pub version: String,
}

impl PgFetchSettings {
    /// The platform string naming this distribution: operating system and
    /// architecture, joined by a dash.
    pub open spec fn spec_platform(self) -> Seq<char> {
        self.operating_system.spec_name() + "-"@ + self.architecture.spec_name()
    }

    pub fn platform(&self) -> (r: String)
        ensures
            r@ == self.spec_platform(),
    {
        let mut s = String::from_str(self.operating_system.name());
        s.append("-");
        s.append(self.architecture.name());
        s
    }
}

} // verus!
