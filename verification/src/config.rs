//! The configuration record and how it comes to be: from what became of the
//! configuration file, through substitution, to the value handed to the tool.

use crate::environment::Environment;
use crate::error::ConfigError;
use crate::placeholder::placeholder_name;
use crate::substitution::{substitute_text, substituted_text};
use crate::text::{same_text, text_of};
use vstd::prelude::*;
use vstd::string::*;

verus! {

/// The user's settings. Each is optional on its own; one that is unset is
/// left to the tool's built-in default.
#[derive(Debug, Clone, PartialEq, Eq)]
pub struct Config {
    pub enable_nightly_info: Option<bool>,
    pub enable_release_build: Option<bool>,
    pub downloads_location: Option<String>,
    pub installation_location: Option<String>,
    pub version_sync_file_location: Option<String>,
    pub github_mirror: Option<String>,
    pub rollback_limit: Option<u8>,
    pub enable_manpage_mirror: Option<bool>,
}

/// A `Config` with its texts as character sequences.
pub struct ConfigView {
    pub enable_nightly_info: Option<bool>,
    pub enable_release_build: Option<bool>,
    pub downloads_location: Option<Seq<char>>,
    pub installation_location: Option<Seq<char>>,
    pub version_sync_file_location: Option<Seq<char>>,
    pub github_mirror: Option<Seq<char>>,
    pub rollback_limit: Option<u8>,
    pub enable_manpage_mirror: Option<bool>,
}

impl View for Config {
    type V = ConfigView;

    open spec fn view(&self) -> ConfigView {
        ConfigView {
            enable_nightly_info: self.enable_nightly_info,
            enable_release_build: self.enable_release_build,
            downloads_location: text_of(self.downloads_location),
            installation_location: text_of(self.installation_location),
            version_sync_file_location: text_of(self.version_sync_file_location),
            github_mirror: text_of(self.github_mirror),
            rollback_limit: self.rollback_limit,
            enable_manpage_mirror: self.enable_manpage_mirror,
        }
    }
}

impl ConfigView {
    /// The configuration in which nothing is set.
    pub open spec fn unset() -> ConfigView {
        ConfigView {
            enable_nightly_info: None,
            enable_release_build: None,
            downloads_location: None,
            installation_location: None,
            version_sync_file_location: None,
            github_mirror: None,
            rollback_limit: None,
            enable_manpage_mirror: None,
        }
    }

    /// The configuration after substitution: the four texts substituted, each
    /// on its own, and the switches and the limit as they were.
    pub open spec fn substituted(self, env: Map<Seq<char>, Seq<char>>) -> ConfigView {
        ConfigView {
            downloads_location: substituted_field(self.downloads_location, env),
            github_mirror: substituted_field(self.github_mirror, env),
            installation_location: substituted_field(self.installation_location, env),
            version_sync_file_location: substituted_field(self.version_sync_file_location, env),
            ..self
        }
    }

    /// Whether no placeholder stands in any of the four texts.
    pub open spec fn has_no_placeholder(self) -> bool {
        &&& without_placeholder(self.downloads_location)
        &&& without_placeholder(self.github_mirror)
        &&& without_placeholder(self.installation_location)
        &&& without_placeholder(self.version_sync_file_location)
    }
}

/// A setting after substitution: unset stays unset, a text is substituted.
pub open spec fn substituted_field(
    field: Option<Seq<char>>,
    env: Map<Seq<char>, Seq<char>>,
) -> Option<Seq<char>> {
    match field {
        Some(value) => Some(substituted_text(value, env)),
        None => None,
    }
}

/// Whether a setting is unset or holds a text without a placeholder.
pub open spec fn without_placeholder(field: Option<Seq<char>>) -> bool {
    match field {
        Some(value) => placeholder_name(value) is None,
        None => true,
    }
}

/// Substitution never alters the switches and the limit, whatever they hold.
pub proof fn lemma_substitution_keeps_switches(c: ConfigView, env: Map<Seq<char>, Seq<char>>)
    ensures
        c.substituted(env).enable_nightly_info == c.enable_nightly_info,
        c.substituted(env).enable_release_build == c.enable_release_build,
        c.substituted(env).rollback_limit == c.rollback_limit,
        c.substituted(env).enable_manpage_mirror == c.enable_manpage_mirror,
{
}

/// Substitution changes nothing in a configuration whose texts hold no
/// placeholder.
pub proof fn lemma_substitution_of_settled_config(c: ConfigView, env: Map<Seq<char>, Seq<char>>)
    requires
        c.has_no_placeholder(),
    ensures
        c.substituted(env) == c,
{
}

/// Where a substitution leaves no placeholder in the configuration,
/// substituting once more changes nothing.
pub proof fn lemma_substitution_twice(c: ConfigView, env: Map<Seq<char>, Seq<char>>)
    requires
        c.substituted(env).has_no_placeholder(),
    ensures
        c.substituted(env).substituted(env) == c.substituted(env),
{
    lemma_substitution_of_settled_config(c.substituted(env), env);
}

impl Default for Config {
    /// The configuration in which nothing is set.
    fn default() -> (config: Config)
        ensures
            config@ == ConfigView::unset(),
    {
        Config {
            enable_nightly_info: None,
            enable_release_build: None,
            downloads_location: None,
            installation_location: None,
            version_sync_file_location: None,
            github_mirror: None,
            rollback_limit: None,
            enable_manpage_mirror: None,
        }
    }
}

/// The format that a configuration file is read in.
#[derive(Debug, Clone, Copy, PartialEq, Eq, Structural)]
pub enum Format {
    Toml,
    Json,
}

impl Format {
    /// The format for a file with the given extension: TOML for `toml`, JSON
    /// for every other extension and for none.
    pub open spec fn of_extension(extension: Option<Seq<char>>) -> Format {
        if extension == Some("toml"@) {
            Format::Toml
        } else {
            Format::Json
        }
    }

    /// The format for a file with the given extension.
    pub fn from_extension(extension: Option<&str>) -> (format: Format)
        ensures
            format == Format::of_extension(
                match extension {
                    Some(e) => Some(e@),
                    None => None,
                },
            ),
    {
        match extension {
            Some(e) => if same_text(e, "toml") {
                Format::Toml
            } else {
                Format::Json
            },
            None => Format::Json,
        }
    }
}

/// What became of the configuration file.
#[derive(Debug, PartialEq, Eq)]
pub enum FileOutcome {
    /// It could not be read: it is missing, or reading it failed.
    Unreadable,
    /// It was read, and its text is not valid in its format. Holds the
    /// parser's description of the fault.
    Malformed(String),
    /// It was read and parsed into these settings.
    Parsed(Config),
}

/// Substitutes in one setting, in place. An unset setting stays unset. Never
/// fails: a variable that is not set leaves its notice in the text.
pub fn handle_envar(item: &mut Option<String>, env: &Environment) -> (r: Result<(), ConfigError>)
    ensures
        r is Ok,
        text_of(*final(item)) == substituted_field(text_of(*old(item)), env@),
{
    match substituted_setting(item, env) {
        Ok(new) => {
            *item = new;
            Ok(())
        },
        Err(e) => Err(e),
    }
}

/// One setting after substitution.
fn substituted_setting(item: &Option<String>, env: &Environment) -> (r: Result<
    Option<String>,
    ConfigError,
>)
    ensures
        r matches Ok(new) && text_of(new) == substituted_field(text_of(*item), env@),
{
    match item {
        None => Ok(None),
        Some(value) => match substitute_text(value.as_str(), env) {
            Ok(new) => Ok(Some(new)),
            Err(e) => Err(e),
        },
    }
}

/// Substitutes in the four texts of `config` that take placeholders, in
/// place, each on its own. The switches and the limit are never touched.
/// Never fails, for any configuration and any environment.
pub fn handle_envars(config: &mut Config, env: &Environment) -> (r: Result<(), ConfigError>)
    ensures
        r is Ok,
        final(config)@ == old(config)@.substituted(env@),
        final(config).enable_nightly_info == old(config).enable_nightly_info,
        final(config).enable_release_build == old(config).enable_release_build,
        final(config).rollback_limit == old(config).rollback_limit,
        final(config).enable_manpage_mirror == old(config).enable_manpage_mirror,
{
    let downloads = match substituted_setting(&config.downloads_location, env) {
        Ok(new) => new,
        Err(e) => { return Err(e); },
    };
    let mirror = match substituted_setting(&config.github_mirror, env) {
        Ok(new) => new,
        Err(e) => { return Err(e); },
    };
    let installation = match substituted_setting(&config.installation_location, env) {
        Ok(new) => new,
        Err(e) => { return Err(e); },
    };
    let version_sync = match substituted_setting(&config.version_sync_file_location, env) {
        Ok(new) => new,
        Err(e) => { return Err(e); },
    };
    config.downloads_location = downloads;
    config.github_mirror = mirror;
    config.installation_location = installation;
    config.version_sync_file_location = version_sync;
    Ok(())
}

/// The configuration to run with, given what became of the configuration
/// file: nothing set where the file could not be read, the parser's fault
/// where its text is malformed, and the parsed settings after substitution
/// otherwise. It fails exactly where the file is malformed.
pub fn handle_config(outcome: FileOutcome, env: &Environment) -> (r: Result<Config, ConfigError>)
    ensures
        match outcome {
            FileOutcome::Unreadable => r matches Ok(config) && config@ == ConfigView::unset(),
            FileOutcome::Malformed(reason) => r == Err::<Config, ConfigError>(
                ConfigError::Malformed(reason),
            ),
            FileOutcome::Parsed(parsed) => r matches Ok(config) && config@
                == parsed@.substituted(env@),
        },
        r is Err <==> outcome is Malformed,
{
    match outcome {
        FileOutcome::Unreadable => Ok(Config::default()),
        FileOutcome::Malformed(reason) => Err(ConfigError::Malformed(reason)),
        FileOutcome::Parsed(parsed) => {
            let mut config = parsed;
            match handle_envars(&mut config, env) {
                Ok(_) => Ok(config),
                Err(e) => Err(e),
            }
        },
    }
}

} // verus!
