//! Environment suffixes for broker object names, keeping staging and debug
//! deployments from colliding with production queues.

use vstd::prelude::*;
use vstd::string::StringExecFns;

verus! {

/// Failure to derive a queue name from a suffix.
#[derive(Debug, Clone, Copy, PartialEq, Eq, Structural)]
pub enum SuffixError {
    /// A production name was requested without a debug or staging suffix in
    /// a non-production build.
    InvalidQueueType,
}

impl SuffixError {
    /// A human-readable description of the failure.
    pub fn message(&self) -> (r: &'static str)
        ensures
            r@ == "Debug builds must specify a unique debug suffix for all AMQP names"@,
    {
        "Debug builds must specify a unique debug suffix for all AMQP names"
    }
}

/// A suffix for a broker object name, to avoid collisions between
/// environments.
#[derive(Debug, Clone)]
pub enum Suffix {
    /// A production name.
    Production,
    /// A staging name, treated like production.
    Staging,
    /// A debug name, identified further with a unique token.
    Debug(String),
    /// Always a production name, even in a non-production build.  Should
    /// only be used if you know what you're doing.
    ProductionUnchecked,
}

impl Suffix {
    /// Whether this is a debug suffix.
    pub open spec fn spec_is_debug(&self) -> bool {
        self matches Suffix::Debug(_)
    }

    /// The name obtained by appending this suffix to a prefix.
    pub open spec fn spec_format(&self, prefix: Seq<char>) -> Seq<char> {
        match self {
            Suffix::Production | Suffix::ProductionUnchecked => prefix,
            Suffix::Staging => prefix + ".staging"@,
            Suffix::Debug(s) => prefix + ".debug."@ + s@,
        }
    }

    /// Whether this is a debug suffix.
    pub fn is_debug(&self) -> (r: bool)
        ensures
            r == self.spec_is_debug(),
    {
        match self {
            Suffix::Debug(_) => true,
            _ => false,
        }
    }

    /// Append this suffix to the given name prefix.  In a non-production
    /// build (`debug_build`), a plain production name is rejected: every
    /// name must then carry a debug or staging suffix, except for the
    /// unchecked production variant.
    pub fn format(&self, prefix: String, debug_build: bool) -> (r: Result<String, SuffixError>)
        ensures
            (r is Ok) == !(self is Production && debug_build),
            match r {
                Ok(s) => s@ == self.spec_format(prefix@),
                Err(e) => e == SuffixError::InvalidQueueType,
            },
    {
        let mut prefix = prefix;
        match self {
            Suffix::Production => {
                if debug_build {
                    return Err(SuffixError::InvalidQueueType);
                }
            },
            Suffix::ProductionUnchecked => (),
            Suffix::Staging => prefix.append(".staging"),
            Suffix::Debug(s) => {
                prefix.append(".debug.");
                prefix.append(s.as_str());
            },
        }
        Ok(prefix)
    }
}

} // verus!
