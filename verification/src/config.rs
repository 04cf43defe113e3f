//! The service's configuration: built once, then handed to whoever needs it.

use vstd::prelude::*;
use vstd::string::StringExecFns;

verus! {

/// The address that the service binds to when none is given.
pub open spec fn default_bind_addr() -> Seq<char> {
    "0.0.0.0:8080"@
}

/// The service's settings. The address is kept as text; the program that
/// opens the socket parses it.
#[derive(Debug, Clone, PartialEq, Eq)]
pub struct Config {
    /// Address the server should bind to.
    pub bind_addr: String,
}

impl Config {
    /// A configuration that binds to `bind_addr`.
    pub fn new(bind_addr: String) -> (r: Config)
        ensures
            r.bind_addr == bind_addr,
    {
        Config { bind_addr }
    }

    /// The configuration for a setting that may be absent from the
    /// environment: the value where there is one, the default address
    /// otherwise.
    pub fn from_setting(bind_addr: Option<String>) -> (r: Config)
        ensures
            r.bind_addr@ == (match bind_addr {
                Some(value) => value@,
                None => default_bind_addr(),
            }),
    {
        match bind_addr {
            Some(value) => Config { bind_addr: value },
            None => Config { bind_addr: String::from_str("0.0.0.0:8080") },
        }
    }
}

impl Default for Config {
    fn default() -> (r: Config)
        ensures
            r.bind_addr@ == default_bind_addr(),
    {
        Config { bind_addr: String::from_str("0.0.0.0:8080") }
    }
}

} // verus!
