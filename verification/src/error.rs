//! What can go wrong while a configuration is loaded.

use vstd::prelude::*;
use vstd::string::*;

verus! {

/// A failure to load the configuration.
#[derive(Debug, PartialEq, Eq)]
pub enum ConfigError {
    /// The file was read, but its text is not valid in its format. Holds the
    /// parser's description of the fault.
    Malformed(String),
    /// The regular expression engine did not accept the placeholder pattern,
    /// so no placeholder could be looked for. The engine's syntax rules this
    /// out, and no function of this library returns it.
    PatternRejected,
}

impl ConfigError {
    /// The text of `message`.
    pub open spec fn message_text(self) -> Seq<char> {
        match self {
            ConfigError::Malformed(reason) => reason@,
            ConfigError::PatternRejected => "the placeholder pattern was not accepted"@,
        }
    }

    /// A description of the failure for the user.
    pub fn message(&self) -> (text: String)
        ensures
            text@ == self.message_text(),
    {
        match self {
            ConfigError::Malformed(reason) => reason.clone(),
            ConfigError::PatternRejected => "the placeholder pattern was not accepted".to_owned(),
        }
    }
}

} // verus!
