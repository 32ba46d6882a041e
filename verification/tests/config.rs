use figment::providers::Serialized;
use figment::Figment;
use opensovd_cda::config::com_params::{find_unknown_keys, EcuComParams, EcuComParamsError};
use opensovd_cda::config::configfile::{
    ComponentsConfig, Configuration, EcuConfig, SdMappingsTruthyValue, ServerConfig, StrictConfig,
};
use opensovd_cda::config::vehicle::{VehicleConfig, VehicleConfigFromConfiguration};
use opensovd_cda::string_map::StringMap;
use opensovd_cda::text::{decimal_text, join};
use opensovd_cda::webserver::launch_base_uri_path;
use std::collections::HashMap;

type Config = Configuration<u16, String, (), u32, bool, Vec<String>, (), (), String>;

fn table(text: &str) -> toml::Table {
    toml::from_str(text).expect("test input is TOML")
}

fn value(text: &str) -> toml::Value {
    toml::Value::Table(table(text))
}

/// Communication parameters as they serialise with their defaults.
const REFERENCE: &str = r#"
[uds.timeout_default]
name = "CP_P6Max"
precedence = "Database"

[uds.timeout_default.value]
secs = 1
nanos = 0

[doip.logical_gateway_address]
name = "CP_DoIPLogicalGatewayAddress"
precedence = "Database"
value = 0

[doip.logical_functional_address]
name = "CP_DoIPLogicalFunctionalAddress"
precedence = "Database"
value = 0
"#;

/// Checks overrides against parameters that keep only the keys of the reference.
fn parse_ecu_com_params(text: &str) -> Result<EcuComParams, EcuComParamsError> {
    let defaults = Figment::from(Serialized::defaults(table(REFERENCE)));
    EcuComParams::checked(table(text), defaults, |layers| {
        layers
            .extract::<toml::Table>()
            .map_err(|e| e.to_string())
            .map(|_| value(REFERENCE))
    })
}

#[test]
fn strict_config_master_switch_enables_all() {
    let cfg = StrictConfig {
        enabled: true,
        parameter_validation: false,
        ecu_config: false,
    };
    assert!(cfg.parameter_validation());
    assert!(cfg.ecu_config());
}

#[test]
fn strict_config_individual_flags_work_independently() {
    let cfg = StrictConfig {
        enabled: false,
        parameter_validation: true,
        ecu_config: false,
    };
    assert!(cfg.parameter_validation());
    assert!(!cfg.ecu_config());
}

#[test]
fn strict_config_defaults_to_all_disabled() {
    let cfg = StrictConfig::default();
    assert!(!cfg.parameter_validation());
    assert!(!cfg.ecu_config());
}

#[test]
fn ecu_com_params_rejects_unknown_field() {
    // timeout_daefault is spelled wrong, should be timeout_default
    let typo_toml = r#"
[uds.timeout_daefault]
name = "CP_P6Max"
precedence = "Config"

[uds.timeout_daefault.default]
secs = 5
nanos = 0
"#;
    let result = parse_ecu_com_params(typo_toml);
    assert!(
        result.is_err(),
        "should reject unknown field 'timeout_daefault'"
    );
    let err = result.unwrap_err().message();
    assert!(
        err.contains("timeout_daefault"),
        "error should name the offending field, got: {err}"
    );
    assert_eq!(
        err,
        "unknown com_param field(s) (possible typo): uds.timeout_daefault"
    );
}

#[test]
fn ecu_com_params_rejects_leaf_typo() {
    let typo_toml = r"
[uds.timeout_default.value]
secnds = 5
nanos = 0
";
    let result = parse_ecu_com_params(typo_toml);
    assert!(result.is_err(), "should reject unknown leaf key 'secss'");
    let err = result.unwrap_err().message();
    assert!(
        err.contains("secnds"),
        "error should name the offending key, got: {err}"
    );
}

#[test]
fn every_unknown_key_is_named() {
    let input = table("[uds]\nother = 1\n[uds.timeout_default]\nnam = 2\n[wlan]\nssid = 'x'\n");
    let unknown = find_unknown_keys(&input, &table(REFERENCE), "");
    assert_eq!(unknown, vec!["uds.other", "uds.timeout_default.nam", "wlan"]);
    let below = find_unknown_keys(&input, &table(""), "com_params");
    assert_eq!(below, vec!["com_params.uds", "com_params.wlan"]);
    match EcuComParams::validated(input, Ok(value(REFERENCE))) {
        Err(e @ EcuComParamsError::UnknownFields(_)) => assert_eq!(
            e.message(),
            "unknown com_param field(s) (possible typo): uds.other, uds.timeout_default.nam, wlan"
        ),
        other => panic!("unexpected result: {other:?}"),
    }
}

#[test]
fn a_known_key_with_a_value_in_place_of_a_table_is_accepted() {
    let input = table("[uds]\ntimeout_default = 5\n");
    assert!(find_unknown_keys(&input, &table(REFERENCE), "").is_empty());
    assert!(EcuComParams::validated(input, Ok(value(REFERENCE))).is_ok());
}

#[test]
fn a_table_has_no_unknown_keys_of_its_own() {
    let reference = table(REFERENCE);
    assert!(find_unknown_keys(&reference, &reference, "").is_empty());
}

#[test]
fn valid_overrides_are_kept_as_written() {
    let input = table("[doip.logical_gateway_address]\nvalue = 12288\n");
    let params = EcuComParams::validated(input.clone(), Ok(value(REFERENCE))).unwrap();
    assert_eq!(params.0, input);
    assert_eq!(params.clone().0, input);
}

#[test]
fn overrides_are_checked_against_what_is_read() {
    let overrides = "[doip.logical_gateway_address]\nvalue = 12288\n";
    let accepted = parse_ecu_com_params(overrides).unwrap();
    assert_eq!(accepted.0, table(overrides));
    let defaults = Figment::from(Serialized::defaults(table(REFERENCE)));
    let mut read = None;
    let rejected = EcuComParams::checked(table(overrides), defaults, |layers| {
        read = Some(layers.extract::<toml::Table>().unwrap());
        Err("cannot be read".to_owned())
    });
    assert_eq!(rejected.unwrap_err().message(), "cannot be read");
    let read = read.unwrap();
    assert_eq!(
        address(&read, "logical_gateway_address", "value").as_integer(),
        Some(12288)
    );
    assert_eq!(
        read["uds"]["timeout_default"]["name"].as_str(),
        Some("CP_P6Max")
    );
}

#[test]
fn fully_typed_overrides_replace_everything() {
    let full = EcuComParams::try_from(Ok(value(REFERENCE))).unwrap();
    let global = Figment::from(Serialized::defaults(table(
        "[uds.timeout_default]\nname = 'other'\nvalue = { secs = 9, nanos = 9 }\n",
    )));
    let layers = EcuComParams::layered_over(&full.0, global).unwrap();
    assert_eq!(layers.extract::<toml::Table>().unwrap(), table(REFERENCE));
}

#[test]
fn written_tables_are_read_back_at_their_places() {
    let overrides = r#"
"a.b" = 1
"quoted \" key" = [1, [2, "x"], { c = 3 }]
text = "line\nline\u001b"
flag = true

[[list]]
x = 1

[[list]]
[list.y]
z = 2

[empty]

[outer.inner.innermost]
"" = -5
"#;
    assert_eq!(layered("", &table(overrides)), table(overrides));
}

#[test]
fn load_config_toml_additional_fields_ignore_case_lowercases_values() {
    let mapping = |values: &[&str], ignore_case| SdMappingsTruthyValue {
        values: values.iter().map(|value| (*value).to_owned()).collect(),
        ignore_case,
    };
    let flux_mapping = mapping(
        &["Flux Capacitor Mark II", "Flux Capacitor Mark III", "yes"],
        true,
    );
    assert!(
        flux_mapping.contains("flux capacitor mark ii"),
        "Should match lowercase"
    );
    assert!(
        flux_mapping.contains("Flux Capacitor Mark II"),
        "Should match original case"
    );
    assert!(
        flux_mapping.contains("FLUX CAPACITOR MARK II"),
        "Should match uppercase"
    );
    assert!(flux_mapping.contains("yes"), "Should match lowercase 'yes'");
    assert!(flux_mapping.contains("YES"), "Should match uppercase 'YES'");
    assert!(!flux_mapping.contains("Flux Capacitor"));

    let power_mapping = mapping(&["Plutonium", "Mr. Fusion"], true);
    assert!(power_mapping.contains("Plutonium"));
    assert!(power_mapping.contains("plutonium"));
    assert!(power_mapping.contains("Mr. Fusion"));
    assert!(power_mapping.contains("mr. fusion"));

    let exact = mapping(&["Plutonium"], false);
    assert!(exact.contains("Plutonium"));
    assert!(!exact.contains("plutonium"));
}

/// Settings with other settings on top of them.
fn layered(lower: &str, upper: &toml::Table) -> toml::Table {
    let global = Figment::from(Serialized::defaults(table(lower)));
    EcuComParams::layered_over(upper, global)
        .expect("overrides can be written as TOML")
        .extract()
        .expect("layers can be read")
}

/// Communication parameters with overrides that were accepted on top of them.
fn effective(parameters: &str, overrides: &str) -> toml::Table {
    let accepted = parse_ecu_com_params(overrides).expect("overrides are accepted");
    layered(parameters, &accepted.0)
}

fn address<'a>(parameters: &'a toml::Table, name: &str, field: &str) -> &'a toml::Value {
    &parameters["doip"][name][field]
}

const GLOBAL: &str = r#"
[doip.logical_gateway_address]
name = "CP_DoIPLogicalGatewayAddress"
precedence = "Database"
value = 0x1234

[doip.logical_functional_address]
name = "CP_DoIPLogicalFunctionalAddress"
precedence = "Database"
value = 0
"#;

#[test]
fn ecu_com_params_override_replaces_global_field() {
    let ecu_toml = r"
[doip.logical_gateway_address]
value = 12288
";
    assert_eq!(
        address(&effective(REFERENCE, ecu_toml), "logical_gateway_address", "value").as_integer(),
        Some(12288)
    );
}

#[test]
fn ecu_com_params_unset_field_retains_global_value() {
    let ecu_toml = r"
[doip.logical_functional_address]
value = 9999
";
    let effective = effective(GLOBAL, ecu_toml);
    assert_eq!(
        address(&effective, "logical_gateway_address", "value").as_integer(),
        Some(0x1234),
        "unset per-ECU field should retain global value"
    );
    assert_eq!(
        address(&effective, "logical_functional_address", "value").as_integer(),
        Some(9999),
        "set per-ECU field should override global"
    );
}

#[test]
fn ecu_com_params_precedence_config_survives_figment_merge() {
    let ecu_toml = r#"
[doip.logical_gateway_address]
value = 12288
precedence = "Config"
"#;
    assert_eq!(
        address(&effective(REFERENCE, ecu_toml), "logical_gateway_address", "precedence").as_str(),
        Some("Config")
    );
}

#[test]
fn ecu_com_params_precedence_defaults_to_database_when_unset() {
    let ecu_toml = r"
[doip.logical_gateway_address]
value = 12288
";
    assert_eq!(
        address(&effective(REFERENCE, ecu_toml), "logical_gateway_address", "precedence").as_str(),
        Some("Database")
    );
}

#[test]
fn figment_extraction_fails_on_incompatible_type_in_ecu_table() {
    // A plain scalar where the parameters have a section.
    let bad_toml = r"
[doip]
logical_gateway_address = 9999
";
    let global = Figment::from(Serialized::defaults(table(
        "[doip.logical_gateway_address]\nvalue = 0\n",
    )));
    let layers = EcuComParams::layered_over(&table(bad_toml), global).unwrap();
    let result = layers.extract::<HashMap<String, HashMap<String, HashMap<String, u16>>>>();
    assert!(result.is_err());
}

#[test]
fn an_empty_layer_changes_nothing() {
    assert_eq!(effective(GLOBAL, ""), table(GLOBAL));
}

#[test]
fn arrays_are_replaced_as_a_whole() {
    assert_eq!(
        layered("a = [1, 2, 3]\nb = 1\n", &table("a = [4]\n")),
        table("a = [4]\nb = 1\n")
    );
}

#[test]
fn failed_round_trips_are_reported() {
    let rejected = EcuComParams::validated(table(""), Err("invalid type".to_owned()));
    assert_eq!(rejected.unwrap_err().message(), "invalid type");
    let no_table = EcuComParams::validated(table(""), Ok(toml::Value::Integer(3)));
    assert_eq!(
        no_table.unwrap_err().message(),
        "Serialized ComParams is not a table"
    );
}

#[test]
fn typed_parameters_become_overrides() {
    let params = EcuComParams::try_from(Ok(value(REFERENCE))).unwrap();
    assert_eq!(params.0, table(REFERENCE));
    assert!(EcuComParams::validated(params.0, Ok(value(REFERENCE))).is_ok());
    assert!(matches!(
        EcuComParams::try_from(Ok(toml::Value::Boolean(true))),
        Err(EcuComParamsError::NotATable)
    ));
    assert!(matches!(
        EcuComParams::try_from(Err("no".to_owned())),
        Err(EcuComParamsError::Rejected(text)) if text == "no"
    ));
    assert!(EcuComParams::default().0.is_empty());
}

#[test]
fn server_defaults() {
    let server = ServerConfig::default();
    assert_eq!(server.address, "0.0.0.0");
    assert_eq!(server.port, 20002);
    assert_eq!(server.exve_manufacturer_specific, "vehicle");
    assert_eq!(server.sovd_version_identifier, "v15");
    assert_eq!(server.clone().port, 20002);
}

fn yes_values(components: &ComponentsConfig, field: &str, key: &str) -> Vec<String> {
    let mapping = components.additional_fields.get(field).unwrap();
    let truthy = mapping.get(key).unwrap();
    assert!(truthy.ignore_case);
    truthy.values.clone()
}

#[test]
fn configuration_defaults() {
    let config = Config::default();
    assert_eq!(config.flash_files_path, ".");
    assert_eq!(config.doip.tester_address, "10.2.1.240");
    assert_eq!(config.doip.transport, 0);
    assert_eq!(config.server.port, 20002);
    assert!(config.ecu.entries().is_empty());
    assert!(!config.strict.parameter_validation());
    assert_eq!(config.components.additional_fields.entries().len(), 2);
    assert_eq!(
        yes_values(&config.components, "x-sovd2uds-can-ecus", "CAN"),
        vec!["yes"]
    );
    assert_eq!(
        yes_values(&config.components, "x-sovd2uds-lin-ecus", "LIN"),
        vec!["yes"]
    );
}

#[test]
fn the_first_sanity_error_counts() {
    let config = Config::default();
    assert_eq!(config.validate_sanity::<&str>(Ok(()), Ok(())), Ok(()));
    assert_eq!(
        config.validate_sanity(Err("naming"), Err("doip")),
        Err("naming")
    );
    assert_eq!(config.validate_sanity(Ok(()), Err("doip")), Err("doip"));
}

#[test]
fn vehicle_config_is_taken_from_the_configuration() {
    let mut config = Config::default();
    config.functional_description = vec!["functional_groups".to_owned()];
    config.flash_files_path = "/app/flash".to_owned();
    let vehicle: VehicleConfig<Vec<String>> = VehicleConfig::from_config(&config);
    assert_eq!(vehicle.flash_files_path, "/app/flash");
    assert_eq!(vehicle.functional_group_config, vec!["functional_groups"]);
    assert_eq!(vehicle.base_uri_path.as_str(), "/vehicle/v15");
    assert_eq!(vehicle.base_uri_path.as_str(), launch_base_uri_path().as_str());
    assert_eq!(
        yes_values(&vehicle.components_config, "x-sovd2uds-lin-ecus", "LIN"),
        vec!["yes"]
    );
    config.server.exve_manufacturer_specific = "oem".to_owned();
    config.server.sovd_version_identifier = "v2".to_owned();
    let other: VehicleConfig<Vec<String>> = VehicleConfig::from_config(&config.clone());
    assert_eq!(other.base_uri_path.as_str(), "/oem/v2");
    assert_eq!(other.flash_files_path, "/app/flash");
}

#[test]
fn string_map_keeps_one_value_for_each_key() {
    let mut ecus: StringMap<EcuConfig> = StringMap::new();
    assert!(ecus.get("TMCC3000").is_none());
    ecus.insert("TMCC3000".to_owned(), EcuConfig::default());
    ecus.insert("HOVR4000".to_owned(), EcuConfig::default());
    ecus.insert(
        "TMCC3000".to_owned(),
        EcuConfig {
            ignore_protocol: Some(true),
            ..EcuConfig::default()
        },
    );
    assert_eq!(ecus.entries().len(), 2);
    assert_eq!(ecus.get("TMCC3000").unwrap().ignore_protocol, Some(true));
    assert_eq!(ecus.get("HOVR4000").unwrap().ignore_protocol, None);
    let copy = ecus.clone();
    assert_eq!(copy.get("TMCC3000").unwrap().ignore_protocol, Some(true));
    assert!(copy.get("tmcc3000").is_none());
}

#[test]
fn numbers_and_lists_as_text() {
    assert_eq!(decimal_text(0), "0");
    assert_eq!(decimal_text(10), "10");
    assert_eq!(decimal_text(20002), "20002");
    assert_eq!(decimal_text(u64::MAX), "18446744073709551615");
    assert_eq!(join(&vec![], ", "), "");
    assert_eq!(join(&vec!["a".to_owned()], ", "), "a");
    assert_eq!(
        join(&vec!["a".to_owned(), "b".to_owned(), "c".to_owned()], ", "),
        "a, b, c"
    );
}
