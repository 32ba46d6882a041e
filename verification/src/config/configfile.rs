//! The configuration file's contents.

use vstd::prelude::*;
use vstd::utf8::*;
use crate::config::com_params::EcuComParams;
use crate::string_map::StringMap;
use crate::text::{ascii_lowercased, lowercased, text_eq, texts, to_lowercase};

verus! {

/// Strict-mode flags that opt in to stricter runtime validation.
///
/// When `enabled` is `true`, every individual check is activated regardless of its own
/// value. Individual flags can also be turned on independently.
#[derive(Clone, Copy, Debug)]
pub struct StrictConfig {
    /// Master switch - when `true`, all individual strict checks are enabled.
    pub enabled: bool,
    /// Reject requests containing parameters not defined in the diagnostic service.
    pub parameter_validation: bool,
    /// Exit with an error if the configuration names an ECU that no loaded database has.
    pub ecu_config: bool,
}

impl StrictConfig {
    #[must_use]
    pub fn parameter_validation(&self) -> (r: bool)
        ensures
            r == (self.enabled || self.parameter_validation),
    {
        self.enabled || self.parameter_validation
    }

    #[must_use]
    pub fn ecu_config(&self) -> (r: bool)
        ensures
            r == (self.enabled || self.ecu_config),
    {
        self.enabled || self.ecu_config
    }
}

impl Default for StrictConfig {
    /// All checks are off.
    fn default() -> (r: Self)
        ensures
            !r.enabled,
            !r.parameter_validation,
            !r.ecu_config,
    {
        StrictConfig { enabled: false, parameter_validation: false, ecu_config: false }
    }
}

/// SOVD HTTP server bind configuration.
#[derive(Debug)]
pub struct ServerConfig {
    /// IP address the server listens on.
    pub address: String,
    /// TCP port the server listens on.
    pub port: u16,
    /// Path element that avoids clashes in the URIs of in-vehicle HTTP servers.
    pub exve_manufacturer_specific: String,
    /// SOVD version name to use in URLs.
    pub sovd_version_identifier: String,
}

impl ServerConfig {
    /// The server settings that hold where nothing else is configured.
    pub open spec fn is_default(self) -> bool {
        &&& self.address@ == "0.0.0.0"@
        &&& self.port == 20002
        &&& self.exve_manufacturer_specific@ == "vehicle"@
        &&& self.sovd_version_identifier@ == "v15"@
    }
}

impl Default for ServerConfig {
    fn default() -> (r: Self)
        ensures
            r.is_default(),
            r.address@ == "0.0.0.0"@,
            r.port == 20002,
            r.exve_manufacturer_specific@ == "vehicle"@,
            r.sovd_version_identifier@ == "v15"@,
    {
        ServerConfig {
            address: "0.0.0.0".to_owned(),
            port: 20002,
            exve_manufacturer_specific: "vehicle".to_owned(),
            sovd_version_identifier: "v15".to_owned(),
        }
    }
}

impl Clone for ServerConfig {
    fn clone(&self) -> (r: Self)
        ensures
            r == *self,
    {
        ServerConfig {
            address: self.address.clone(),
            port: self.port,
            exve_manufacturer_specific: self.exve_manufacturer_specific.clone(),
            sovd_version_identifier: self.sovd_version_identifier.clone(),
        }
    }
}

/// Per-ECU configuration block.
#[derive(Debug)]
pub struct EcuConfig {
    /// Communication parameter overrides. Only the fields that are set here override
    /// the global values.
    pub com_params: Option<EcuComParams>,
    /// Overrides, for this ECU only, whether the protocol is ignored.
    pub ignore_protocol: Option<bool>,
    /// Overrides the protocol short name for this ECU.
    pub protocol: Option<String>,
}

impl Default for EcuConfig {
    /// Nothing is overridden.
    fn default() -> (r: Self)
        ensures
            r.com_params is None,
            r.ignore_protocol is None,
            r.protocol is None,
    {
        EcuConfig { com_params: None, ignore_protocol: None, protocol: None }
    }
}

impl Clone for EcuConfig {
    fn clone(&self) -> (r: Self)
        ensures
            r == *self,
    {
        EcuConfig {
            com_params: match &self.com_params {
                Some(params) => Some(params.clone()),
                None => None,
            },
            ignore_protocol: self.ignore_protocol,
            protocol: match &self.protocol {
                Some(name) => Some(name.clone()),
                None => None,
            },
        }
    }
}

/// The texts that count as true for a field, and whether their case matters.
#[derive(Debug)]
pub struct SdMappingsTruthyValue {
    pub values: Vec<String>,
    pub ignore_case: bool,
}

/// The contents of [`SdMappingsTruthyValue`].
pub struct TruthyValue {
    pub values: Seq<Seq<char>>,
    pub ignore_case: bool,
}

impl TruthyValue {
    /// A text is one of the values, or, where case does not matter, the same in lower
    /// case.
    pub open spec fn is_value(self, i: int, text: Seq<char>) -> bool {
        ||| self.values[i] == text
        ||| self.ignore_case && lowercased(self.values[i]) == lowercased(text)
    }

    /// A text counts as true.
    pub open spec fn holds(self, text: Seq<char>) -> bool {
        exists|i: int| 0 <= i < self.values.len() && #[trigger] self.is_value(i, text)
    }

    /// An ASCII text is one of the values, but for the case of its letters.
    pub open spec fn is_value_in_some_case(self, i: int, text: Seq<char>) -> bool {
        is_ascii_chars(self.values[i]) && is_ascii_chars(text) && ascii_lowercased(self.values[i])
            == ascii_lowercased(text)
    }
}

impl View for SdMappingsTruthyValue {
    type V = TruthyValue;

    open spec fn view(&self) -> TruthyValue {
        TruthyValue { values: texts(self.values@), ignore_case: self.ignore_case }
    }
}

impl SdMappingsTruthyValue {
    /// Whether a text counts as true. Where case does not matter, and text and values
    /// are ASCII, the letters `A` to `Z` count as `a` to `z`.
    pub fn contains(&self, text: &str) -> (r: bool)
        ensures
            r == self@.holds(text@),
            r <==> exists|i: int|
                0 <= i < self.values@.len() && ((#[trigger] self.values@[i])@ == text@
                    || self.ignore_case && lowercased(self.values@[i]@) == lowercased(text@)),
            self.ignore_case ==> forall|i: int|
                0 <= i < self@.values.len() && #[trigger] self@.is_value_in_some_case(i, text@)
                    ==> r,
            r && self.ignore_case && is_ascii_chars(text@) && (forall|i: int|
                0 <= i < self@.values.len() ==> is_ascii_chars(#[trigger] self@.values[i]))
                ==> exists|i: int|
                0 <= i < self@.values.len() && #[trigger] self@.is_value_in_some_case(i, text@),
    {
        let wanted = to_lowercase(text);
        let mut i: usize = 0;
        while i < self.values.len()
            invariant
                i <= self.values.len(),
                wanted@ == lowercased(text@),
                is_ascii_chars(text@) ==> wanted@ == ascii_lowercased(text@),
                forall|j: int| 0 <= j < i ==> !#[trigger] self@.is_value(j, text@),
                forall|j: int|
                    0 <= j < i ==> (#[trigger] self.values@[j])@ != text@ && !(self.ignore_case
                        && lowercased(self.values@[j]@) == lowercased(text@)),
                self.ignore_case ==> forall|j: int|
                    0 <= j < i ==> !#[trigger] self@.is_value_in_some_case(j, text@),
            decreases self.values.len() - i,
        {
            let value = self.values[i].as_str();
            assert(self@.values[i as int] == value@);
            if text_eq(value, text) || (self.ignore_case && text_eq(
                to_lowercase(value).as_str(),
                wanted.as_str(),
            )) {
                proof {
                    assert(self@.is_value(i as int, text@));
                    assert(self.values@[i as int]@ == value@);
                    if is_ascii_chars(value@) && is_ascii_chars(text@) {
                        assert(self@.is_value_in_some_case(i as int, text@));
                    }
                }
                return true;
            }
            i = i + 1;
        }
        false
    }
}

impl Clone for SdMappingsTruthyValue {
    fn clone(&self) -> (r: Self)
        ensures
            r@ == self@,
            r.values@ == self.values@,
            r.ignore_case == self.ignore_case,
    {
        let mut values: Vec<String> = Vec::new();
        let mut i: usize = 0;
        while i < self.values.len()
            invariant
                i <= self.values.len(),
                values@ =~= self.values@.take(i as int),
            decreases self.values.len() - i,
        {
            values.push(self.values[i].clone());
            i = i + 1;
        }
        let r = SdMappingsTruthyValue { values, ignore_case: self.ignore_case };
        assert(texts(r.values@) =~= texts(self.values@));
        r
    }
}

/// The truthy values of each diagnostic field.
pub type SdBoolMappings = StringMap<SdMappingsTruthyValue>;

/// Component response customization.
#[derive(Debug)]
pub struct ComponentsConfig {
    /// Additional response fields, with the values that make each of them true.
    pub additional_fields: StringMap<SdBoolMappings>,
}

impl View for ComponentsConfig {
    type V = Map<Seq<char>, Map<Seq<char>, TruthyValue>>;

    open spec fn view(&self) -> Map<Seq<char>, Map<Seq<char>, TruthyValue>> {
        self.additional_fields@.map_values(
            |mappings: SdBoolMappings| mappings@.map_values(|value: SdMappingsTruthyValue| value@),
        )
    }
}

impl Clone for ComponentsConfig {
    fn clone(&self) -> (r: Self)
        ensures
            r@ == self@,
    {
        let r = ComponentsConfig { additional_fields: self.additional_fields.clone() };
        proof {
            let a = self.additional_fields@;
            let b = r.additional_fields@;
            assert forall|key: Seq<char>| #[trigger] b.contains_key(key) implies r@[key]
                == self@[key] by {
                assert(cloned(a[key], b[key]));
                let m = a[key]@;
                let n = b[key]@;
                assert(n.dom() == m.dom());
                assert forall|field: Seq<char>| #[trigger] n.contains_key(field) implies n[field]@
                    == m[field]@ by {
                    assert(cloned(m[field], n[field]));
                }
                assert(r@[key] =~= self@[key]);
            }
            assert(r@ =~= self@);
        }
        r
    }
}

/// "yes", in any case.
pub open spec fn yes_in_any_case() -> TruthyValue {
    TruthyValue { values: seq!["yes"@], ignore_case: true }
}

/// The additional fields that hold where nothing else is configured: whether a
/// component is a CAN ECU, and whether it is a LIN ECU.
pub open spec fn default_additional_fields() -> Map<Seq<char>, Map<Seq<char>, TruthyValue>> {
    map![
        "x-sovd2uds-can-ecus"@ => map!["CAN"@ => yes_in_any_case()],
        "x-sovd2uds-lin-ecus"@ => map!["LIN"@ => yes_in_any_case()],
    ]
}

fn yes_mapping(field: &str) -> (r: SdBoolMappings)
    ensures
        r@.map_values(|value: SdMappingsTruthyValue| value@) == map![field@ => yes_in_any_case()],
{
    let mut values: Vec<String> = Vec::new();
    values.push("yes".to_owned());
    let yes = SdMappingsTruthyValue { values, ignore_case: true };
    assert(texts(yes.values@) =~= seq!["yes"@]);
    let mut r: SdBoolMappings = StringMap::new();
    r.insert(field.to_owned(), yes);
    assert(r@.map_values(|value: SdMappingsTruthyValue| value@) =~= map![
        field@ => yes_in_any_case(),
    ]);
    r
}

/// What a customization comes to: for each field and key, the contents of the values and
/// whether their case matters.
pub proof fn lemma_components_contents(
    components: ComponentsConfig,
    field: Seq<char>,
    key: Seq<char>,
)
    ensures
        components@.contains_key(field) <==> components.additional_fields@.contains_key(field),
        components@.contains_key(field) ==> {
            let mappings = components.additional_fields@[field]@;
            &&& components@[field].contains_key(key) <==> mappings.contains_key(key)
            &&& mappings.contains_key(key) ==> {
                &&& components@[field][key].ignore_case == mappings[key].ignore_case
                &&& components@[field][key].values.len() == mappings[key].values@.len()
                &&& forall|i: int|
                    0 <= i < mappings[key].values@.len() ==> components@[field][key].values[i] == (
                    #[trigger] mappings[key].values@[i])@
            }
        },
{
}

/// The additional fields by default are one for CAN and one for LIN, each with one key, for
/// which "yes" counts as true in any case.
pub proof fn lemma_default_additional_fields(field: Seq<char>, key: Seq<char>)
    ensures
        default_additional_fields().contains_key(field) <==> field == "x-sovd2uds-can-ecus"@
            || field == "x-sovd2uds-lin-ecus"@,
        default_additional_fields()["x-sovd2uds-can-ecus"@].contains_key(key) <==> key == "CAN"@,
        default_additional_fields()["x-sovd2uds-lin-ecus"@].contains_key(key) <==> key == "LIN"@,
        default_additional_fields()["x-sovd2uds-can-ecus"@]["CAN"@].values == seq!["yes"@],
        default_additional_fields()["x-sovd2uds-can-ecus"@]["CAN"@].ignore_case,
        default_additional_fields()["x-sovd2uds-lin-ecus"@]["LIN"@].values == seq!["yes"@],
        default_additional_fields()["x-sovd2uds-lin-ecus"@]["LIN"@].ignore_case,
{
    reveal_strlit("x-sovd2uds-can-ecus");
    reveal_strlit("x-sovd2uds-lin-ecus");
    assert("x-sovd2uds-can-ecus"@[11] != "x-sovd2uds-lin-ecus"@[11]);
}

/// Where case does not matter, a text counts as true no matter in which case it is
/// written.
pub proof fn lemma_case_does_not_matter(value: TruthyValue, a: Seq<char>, b: Seq<char>)
    requires
        value.ignore_case,
        lowercased(a) == lowercased(b),
    ensures
        value.holds(a) == value.holds(b),
{
    assert forall|i: int| value.is_value(i, a) == #[trigger] value.is_value(i, b) by {}
    assert forall|i: int| #[trigger] value.is_value(i, a) == value.is_value(i, b) by {}
}

fn default_components() -> (r: ComponentsConfig)
    ensures
        r@ == default_additional_fields(),
{
    let mut fields: StringMap<SdBoolMappings> = StringMap::new();
    let can = yes_mapping("CAN");
    let lin = yes_mapping("LIN");
    fields.insert("x-sovd2uds-can-ecus".to_owned(), can);
    fields.insert("x-sovd2uds-lin-ecus".to_owned(), lin);
    let r = ComponentsConfig { additional_fields: fields };
    assert(r@ =~= default_additional_fields());
    r
}

/// `DoIP` transport settings: the tester address, and what the transport itself
/// configures.
#[derive(Debug)]
pub struct DoipConfig<Transport> {
    pub tester_address: String,
    pub transport: Transport,
}

impl<Transport: Clone> Clone for DoipConfig<Transport> {
    fn clone(&self) -> (r: Self)
        ensures
            r.tester_address == self.tester_address,
            cloned(self.transport, r.transport),
    {
        DoipConfig {
            tester_address: self.tester_address.clone(),
            transport: self.transport.clone(),
        }
    }
}

/// Top-level application configuration.
///
/// The sections that belong to other components are carried as they are; their types
/// are parameters.
#[derive(Debug)]
pub struct Configuration<
    Transport,
    Database,
    Logging,
    ComParams,
    FlatBuf,
    Functional,
    Health,
    Faults,
    RuntimeUpdate,
> {
    /// SOVD HTTP server bind settings.
    pub server: ServerConfig,
    /// `DoIP` (Diagnostics over IP) transport layer settings.
    pub doip: DoipConfig<Transport>,
    /// Diagnostic database loading and naming settings.
    pub database: Database,
    /// Logging, file output, and tracing backend settings.
    pub logging: Logging,
    /// Path to the directory containing flash files.
    pub flash_files_path: String,
    /// Default communication parameters for UDS and `DoIP` protocols.
    pub com_params: ComParams,
    /// `FlatBuffers` verification settings for database parsing.
    pub flat_buf: FlatBuf,
    /// Functional group description and lookup settings.
    pub functional_description: Functional,
    /// Component response customization.
    pub components: ComponentsConfig,
    /// Health check endpoint settings.
    pub health: Health,
    /// Fault memory settings.
    pub faults: Faults,
    /// Per-ECU configuration blocks keyed by ECU short name.
    pub ecu: StringMap<EcuConfig>,
    /// Settings of the update plugin, i.e. storage paths.
    pub runtime_update_config: RuntimeUpdate,
    /// Strict-mode validation flags.
    pub strict: StrictConfig,
}

impl<
    Transport: Default,
    Database: Default,
    Logging: Default,
    ComParams: Default,
    FlatBuf: Default,
    Functional: Default,
    Health: Default,
    Faults: Default,
    RuntimeUpdate: Default,
> Default for Configuration<
    Transport,
    Database,
    Logging,
    ComParams,
    FlatBuf,
    Functional,
    Health,
    Faults,
    RuntimeUpdate,
> {
    /// The configuration that holds where nothing else is configured.
    fn default() -> (r: Self)
        ensures
            r.server.is_default(),
            r.server.address@ == "0.0.0.0"@,
            r.server.port == 20002,
            r.server.exve_manufacturer_specific@ == "vehicle"@,
            r.server.sovd_version_identifier@ == "v15"@,
            r.doip.tester_address@ == "10.2.1.240"@,
            call_ensures(Transport::default, (), r.doip.transport),
            call_ensures(Database::default, (), r.database),
            call_ensures(Logging::default, (), r.logging),
            r.flash_files_path@ == "."@,
            call_ensures(ComParams::default, (), r.com_params),
            call_ensures(FlatBuf::default, (), r.flat_buf),
            call_ensures(Functional::default, (), r.functional_description),
            r.components@ == default_additional_fields(),
            call_ensures(Health::default, (), r.health),
            call_ensures(Faults::default, (), r.faults),
            r.ecu@ == Map::<Seq<char>, EcuConfig>::empty(),
            call_ensures(RuntimeUpdate::default, (), r.runtime_update_config),
            !r.strict.enabled,
            !r.strict.parameter_validation,
            !r.strict.ecu_config,
    {
        Configuration {
            server: ServerConfig::default(),
            doip: DoipConfig {
                tester_address: "10.2.1.240".to_owned(),
                transport: Transport::default(),
            },
            database: Database::default(),
            logging: Logging::default(),
            flash_files_path: ".".to_owned(),
            com_params: ComParams::default(),
            flat_buf: FlatBuf::default(),
            functional_description: Functional::default(),
            components: default_components(),
            health: Health::default(),
            faults: Faults::default(),
            ecu: StringMap::new(),
            runtime_update_config: RuntimeUpdate::default(),
            strict: StrictConfig::default(),
        }
    }
}

impl<
    Transport: Clone,
    Database: Clone,
    Logging: Clone,
    ComParams: Clone,
    FlatBuf: Clone,
    Functional: Clone,
    Health: Clone,
    Faults: Clone,
    RuntimeUpdate: Clone,
> Clone for Configuration<
    Transport,
    Database,
    Logging,
    ComParams,
    FlatBuf,
    Functional,
    Health,
    Faults,
    RuntimeUpdate,
> {
    /// The same settings, with a clone of each section that belongs to another
    /// component.
    fn clone(&self) -> (r: Self)
        ensures
            r.server == self.server,
            r.doip.tester_address == self.doip.tester_address,
            cloned(self.doip.transport, r.doip.transport),
            cloned(self.database, r.database),
            cloned(self.logging, r.logging),
            r.flash_files_path == self.flash_files_path,
            cloned(self.com_params, r.com_params),
            cloned(self.flat_buf, r.flat_buf),
            cloned(self.functional_description, r.functional_description),
            r.components@ == self.components@,
            cloned(self.health, r.health),
            cloned(self.faults, r.faults),
            r.ecu@ == self.ecu@,
            cloned(self.runtime_update_config, r.runtime_update_config),
            r.strict == self.strict,
    {
        let ecu = self.ecu.clone();
        assert(ecu@ =~= self.ecu@);
        Configuration {
            server: self.server.clone(),
            doip: self.doip.clone(),
            database: self.database.clone(),
            logging: self.logging.clone(),
            flash_files_path: self.flash_files_path.clone(),
            com_params: self.com_params.clone(),
            flat_buf: self.flat_buf.clone(),
            functional_description: self.functional_description.clone(),
            components: self.components.clone(),
            health: self.health.clone(),
            faults: self.faults.clone(),
            ecu,
            runtime_update_config: self.runtime_update_config.clone(),
            strict: self.strict,
        }
    }
}

impl<
    Transport,
    Database,
    Logging,
    ComParams,
    FlatBuf,
    Functional,
    Health,
    Faults,
    RuntimeUpdate,
> Configuration<
    Transport,
    Database,
    Logging,
    ComParams,
    FlatBuf,
    Functional,
    Health,
    Faults,
    RuntimeUpdate,
> {
    /// Whether the configuration is sane, from the findings on the sections that have
    /// checks of their own: the naming convention of the database first, then the
    /// `DoIP` settings. The first error counts.
    pub fn validate_sanity<E>(&self, naming_convention: Result<(), E>, doip: Result<(), E>) -> (r:
        Result<(), E>)
        ensures
            r == (match naming_convention {
                Err(e) => Err(e),
                Ok(_) => doip,
            }),
    {
        match naming_convention {
            Err(e) => Err(e),
            Ok(_) => doip,
        }
    }
}

} // verus!
