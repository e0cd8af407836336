use freebox_exporter::configuration::{
    assert_configuration_is_valid, ApiConfiguration, CapabilitiesConfiguration, Configuration,
    ConfigurationError, CoreConfiguration, LogConfiguration, PoliciesConfiguration,
};

fn sample_configuration(prefix: Option<String>, data_directory: Option<String>) -> Configuration {
    Configuration {
        api: ApiConfiguration { refresh: None },
        core: CoreConfiguration { data_directory, port: None },
        log: LogConfiguration { level: None, retention: None },
        metrics: CapabilitiesConfiguration {
            connection: None,
            system: None,
            prefix,
            lan_browser: None,
            lan: None,
            switch: None,
            wifi: None,
            dhcp: None,
        },
        policies: Some(PoliciesConfiguration { unresolved_station_hostnames: None }),
    }
}

#[test]
fn assert_metrics_prefix_is_not_empty_tests() {
    let conf = Configuration {
        api: ApiConfiguration { refresh: None },
        core: CoreConfiguration { data_directory: None, port: None },
        log: LogConfiguration { level: None, retention: None },
        metrics: CapabilitiesConfiguration {
            connection: None,
            system: None,
            prefix: None,
            lan_browser: None,
            lan: None,
            switch: None,
            wifi: None,
            dhcp: None,
        },
        policies: Some(PoliciesConfiguration { unresolved_station_hostnames: None }),
    };

    let conf2 = Configuration {
        api: ApiConfiguration { refresh: None },
        core: CoreConfiguration { data_directory: None, port: None },
        log: LogConfiguration { level: None, retention: None },
        metrics: CapabilitiesConfiguration {
            connection: None,
            system: None,
            prefix: Some(" ".to_string()),
            lan_browser: None,
            lan: None,
            switch: None,
            wifi: None,
            dhcp: None,
        },
        policies: Some(PoliciesConfiguration { unresolved_station_hostnames: None }),
    };

    let conf3 = Configuration {
        api: ApiConfiguration { refresh: None },
        core: CoreConfiguration { data_directory: None, port: None },
        log: LogConfiguration { level: None, retention: None },
        metrics: CapabilitiesConfiguration {
            connection: None,
            system: None,
            prefix: Some("fbx_exporter".to_string()),
            lan_browser: None,
            lan: None,
            switch: None,
            wifi: None,
            dhcp: None,
        },
        policies: Some(PoliciesConfiguration { unresolved_station_hostnames: None }),
    };

    assert_eq!(Err(()), conf.assert_metrics_prefix_is_not_empty());
    assert_eq!(Err(()), conf2.assert_metrics_prefix_is_not_empty());
    assert_eq!(Ok(()), conf3.assert_metrics_prefix_is_not_empty());
}

#[test]
fn prefix_of_tabs_and_newlines_is_refused() {
    let conf = sample_configuration(Some("\t\n \u{3000}".to_string()), None);
    assert_eq!(Err(()), conf.assert_metrics_prefix_is_not_empty());
    let conf = sample_configuration(Some("  fbx ".to_string()), None);
    assert_eq!(Ok(()), conf.assert_metrics_prefix_is_not_empty());
}

#[test]
fn configuration_checks_come_in_order() {
    let good = sample_configuration(Some("fbx".to_string()), Some(".".to_string()));
    let r = assert_configuration_is_valid(&good, false);
    assert!(matches!(r, Err(ConfigurationError::DataDirectory)));

    let blank = sample_configuration(Some(" ".to_string()), Some(".".to_string()));
    let r = assert_configuration_is_valid(&blank, true);
    assert!(matches!(r, Err(ConfigurationError::EmptyPrefix)));

    let no_dir = sample_configuration(Some("fbx".to_string()), None);
    let r = assert_configuration_is_valid(&no_dir, true);
    assert!(matches!(r, Err(ConfigurationError::MissingDataDirectory)));

    let r = assert_configuration_is_valid(&good, true).unwrap();
    assert_eq!(r.metrics.prefix.as_deref(), Some("fbx"));
    assert_eq!(r.core.data_directory.as_deref(), Some("."));
}

#[test]
fn configuration_error_messages() {
    assert_eq!(ConfigurationError::DataDirectory.describe(), "data dir does not exist or access is denied");
    assert_eq!(ConfigurationError::EmptyPrefix.describe(), "metrics prefix cannot be empty");
    assert_eq!(ConfigurationError::MissingDataDirectory.describe(), "data directory is missing in configuration file");
}
