//! Service configuration: the greeting name, its default, and the length
//! rule it must satisfy before the service may start.

use vstd::prelude::*;
use vstd::string::StringExecFns;
use vstd::string::StrSliceExecFns;

use crate::response::ValidationFailure;

verus! {

/// Inclusive bounds on the character count of the configured greeting name.
pub const CONFIG_NAME_MIN_LEN: usize = 2;

pub const CONFIG_NAME_MAX_LEN: usize = 100;

/// A configured greeting name is acceptable when its character count lies
/// within the inclusive bounds.
pub open spec fn valid_config_name(name: Seq<char>) -> bool {
    CONFIG_NAME_MIN_LEN <= name.len() <= CONFIG_NAME_MAX_LEN
}

/// The greeting name used when a configuration document names none.
pub fn default_hello_name() -> (name: String)
    ensures
        name@ == "World"@,
{
    String::from_str("World")
}

/// What the route handlers read from the configuration.
#[derive(Debug, Clone)]
pub struct ServiceConfig {
    pub hello_name: String,
}

/// Carries a `ServiceConfig` extracted from the service section of a
/// configuration document.
#[derive(Debug)]
pub struct ServiceConfigWrapper(pub ServiceConfig);

impl ServiceConfig {
    /// Builds the configuration from the optional greeting-name entry of a
    /// configuration document; a missing entry falls back to the default.
    pub fn from_raw(hello_name: Option<String>) -> (c: Self)
        ensures
            c.hello_name@ == match hello_name {
                Some(n) => n@,
                None => "World"@,
            },
    {
        match hello_name {
            Some(n) => Self { hello_name: n },
            None => Self { hello_name: default_hello_name() },
        }
    }

    /// Checks the configuration against the greeting-name length rule.
    pub fn validate(&self) -> (r: Result<(), ValidationFailure>)
        ensures
            r is Ok <==> valid_config_name(self.hello_name@),
            r matches Err(f) ==> f.field@ == "hello_name"@ && f.min == CONFIG_NAME_MIN_LEN
                && f.max == CONFIG_NAME_MAX_LEN && f.actual == self.hello_name@.len(),
    {
        let n: usize = self.hello_name.as_str().unicode_len();
        if CONFIG_NAME_MIN_LEN <= n && n <= CONFIG_NAME_MAX_LEN {
            Ok(())
        } else {
            Err(ValidationFailure {
                field: String::from_str("hello_name"),
                min: CONFIG_NAME_MIN_LEN,
                max: CONFIG_NAME_MAX_LEN,
                actual: n,
            })
        }
    }
}

impl Default for ServiceConfig {
    /// The default configuration greets the default name.
    fn default() -> (c: Self)
        ensures
            c.hello_name@ == "World"@,
    {
        Self { hello_name: default_hello_name() }
    }
}

} // verus!
