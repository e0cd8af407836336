//! The exporter's configuration file, as decoded, and the checks it must pass.
use crate::text::{is_blank, is_blank_str};
use vstd::prelude::*;

verus! {

/// How often the Freebox is polled.
#[derive(Clone, Debug)]
pub struct ApiConfiguration {
    /// Seconds between two refreshes (5 when absent).
    pub refresh: Option<u64>,
}

/// Where the exporter keeps its data and listens.
#[derive(Clone, Debug)]
pub struct CoreConfiguration {
    pub data_directory: Option<String>,
    pub port: Option<u16>,
}

/// Which metric maps are enabled, and the prefix of every metric name.
#[derive(Clone, Debug)]
pub struct CapabilitiesConfiguration {
    pub connection: Option<bool>,
    pub system: Option<bool>,
    pub lan: Option<bool>,
    pub lan_browser: Option<bool>,
    pub switch: Option<bool>,
    pub wifi: Option<bool>,
    pub dhcp: Option<bool>,
    pub prefix: Option<String>,
}

/// How much is logged and for how long logs are kept.
#[derive(Clone, Debug)]
pub struct LogConfiguration {
    pub level: Option<String>,
    pub retention: Option<usize>,
}

/// What to do with stations whose host name is not resolved.
#[derive(Clone, Debug)]
pub struct PoliciesConfiguration {
    pub unresolved_station_hostnames: Option<String>,
}

/// The whole configuration file.
#[derive(Clone, Debug)]
pub struct Configuration {
    pub api: ApiConfiguration,
    pub metrics: CapabilitiesConfiguration,
    pub core: CoreConfiguration,
    pub log: LogConfiguration,
    pub policies: Option<PoliciesConfiguration>,
}

/// The metric prefix is usable: present, and not only white space.
pub open spec fn prefix_is_usable(c: Configuration) -> bool {
    match c.metrics.prefix {
        Some(p) => !is_blank(p@),
        None => false,
    }
}

impl Configuration {
    /// Fails when the metric prefix is absent or only white space.
    pub fn assert_metrics_prefix_is_not_empty(&self) -> (r: Result<(), ()>)
        ensures
            r is Ok <==> prefix_is_usable(*self),
    {
        match &self.metrics.prefix {
            None => Err(()),
            Some(p) => if is_blank_str(p.as_str()) {
                Err(())
            } else {
                Ok(())
            },
        }
    }
}

/// Why a configuration is refused.
#[derive(Clone, Copy, Debug, PartialEq, Eq, Structural)]
pub enum ConfigurationError {
    /// The data directory does not exist or cannot be written.
    DataDirectory,
    /// The metric prefix is absent or blank.
    EmptyPrefix,
    /// No data directory is given.
    MissingDataDirectory,
}

impl ConfigurationError {
    /// The message the exporter reports for this error.
    pub fn describe(&self) -> (s: String)
        ensures
            *self == ConfigurationError::DataDirectory ==> s@ == "data dir does not exist or access is denied"@,
            *self == ConfigurationError::EmptyPrefix ==> s@ == "metrics prefix cannot be empty"@,
            *self == ConfigurationError::MissingDataDirectory ==> s@ == "data directory is missing in configuration file"@,
    {
        match self {
            ConfigurationError::DataDirectory => String::from_str("data dir does not exist or access is denied"),
            ConfigurationError::EmptyPrefix => String::from_str("metrics prefix cannot be empty"),
            ConfigurationError::MissingDataDirectory => String::from_str("data directory is missing in configuration file"),
        }
    }
}

/// Checks a decoded configuration, in order: the data directory (whose check, made on
/// the file system, gave `data_dir_usable`), the metric prefix, then that a data
/// directory is named.
pub fn assert_configuration_is_valid(c: &Configuration, data_dir_usable: bool) -> (r: Result<Configuration, ConfigurationError>)
    ensures
        !data_dir_usable ==> r == Err::<Configuration, ConfigurationError>(ConfigurationError::DataDirectory),
        data_dir_usable && !prefix_is_usable(*c) ==> r == Err::<Configuration, ConfigurationError>(ConfigurationError::EmptyPrefix),
        data_dir_usable && prefix_is_usable(*c) && c.core.data_directory is None
            ==> r == Err::<Configuration, ConfigurationError>(ConfigurationError::MissingDataDirectory),
        data_dir_usable && prefix_is_usable(*c) && c.core.data_directory is Some ==> (r matches Ok(k) && k == *c),
{
    if !data_dir_usable {
        return Err(ConfigurationError::DataDirectory);
    }
    if c.assert_metrics_prefix_is_not_empty().is_err() {
        return Err(ConfigurationError::EmptyPrefix);
    }
    if c.core.data_directory.is_none() {
        return Err(ConfigurationError::MissingDataDirectory);
    }
    Ok(copy_configuration(c))
}

/// A field-by-field copy of a configuration.
fn copy_configuration(c: &Configuration) -> (r: Configuration)
    ensures
        r == *c,
{
    Configuration {
        api: ApiConfiguration { refresh: c.api.refresh },
        metrics: CapabilitiesConfiguration {
            connection: c.metrics.connection,
            system: c.metrics.system,
            lan: c.metrics.lan,
            lan_browser: c.metrics.lan_browser,
            switch: c.metrics.switch,
            wifi: c.metrics.wifi,
            dhcp: c.metrics.dhcp,
            prefix: copy_text(&c.metrics.prefix),
        },
        core: CoreConfiguration { data_directory: copy_text(&c.core.data_directory), port: c.core.port },
        log: LogConfiguration { level: copy_text(&c.log.level), retention: c.log.retention },
        policies: match &c.policies {
            Some(p) => Some(PoliciesConfiguration { unresolved_station_hostnames: copy_text(&p.unresolved_station_hostnames) }),
            None => None,
        },
    }
}

/// A copy of an optional text.
fn copy_text(o: &Option<String>) -> (r: Option<String>)
    ensures
        r == *o,
{
    match o {
        Some(s) => Some(s.clone()),
        None => None,
    }
}

}
