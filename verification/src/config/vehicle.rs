//! The settings of the vehicle routes, taken from the configuration.

use vstd::prelude::*;
use crate::config::configfile::{ComponentsConfig, Configuration};
use crate::text::concat;
use crate::webserver::BaseUriPath;

verus! {

/// Static configuration for vehicle SOVD routes.
#[derive(Debug)]
pub struct VehicleConfig<Functional> {
    pub flash_files_path: String,
    pub functional_group_config: Functional,
    pub components_config: ComponentsConfig,
    pub base_uri_path: BaseUriPath,
}

/// Settings that are taken from a configuration of type `C`.
pub trait VehicleConfigFromConfiguration<C> {
    fn from_config(config: &C) -> Self where Self: Sized;
}

/// The base path of the vehicle routes: the two path elements of the server
/// configuration, each after a slash.
pub open spec fn vehicle_base(manufacturer: Seq<char>, version: Seq<char>) -> Seq<char> {
    "/"@ + manufacturer + "/"@ + version
}

impl<
    Transport,
    Database,
    Logging,
    ComParams,
    FlatBuf,
    Functional: Clone,
    Health,
    Faults,
    RuntimeUpdate,
> VehicleConfigFromConfiguration<
    Configuration<
        Transport,
        Database,
        Logging,
        ComParams,
        FlatBuf,
        Functional,
        Health,
        Faults,
        RuntimeUpdate,
    >,
> for VehicleConfig<Functional> {
    fn from_config(
        config: &Configuration<
            Transport,
            Database,
            Logging,
            ComParams,
            FlatBuf,
            Functional,
            Health,
            Faults,
            RuntimeUpdate,
        >,
    ) -> (r: Self)
        ensures
            r.flash_files_path == config.flash_files_path,
            cloned(config.functional_description, r.functional_group_config),
            r.components_config@ == config.components@,
            r.base_uri_path@ == vehicle_base(
                config.server.exve_manufacturer_specific@,
                config.server.sovd_version_identifier@,
            ),
            r.base_uri_path@ == seq!['/'] + config.server.exve_manufacturer_specific@ + seq!['/']
                + config.server.sovd_version_identifier@,
    {
        proof {
            reveal_strlit("/");
            assert("/"@ =~= seq!['/']);
        }
        let mut base: String = concat("/", config.server.exve_manufacturer_specific.as_str());
        base.append("/");
        base.append(config.server.sovd_version_identifier.as_str());
        VehicleConfig {
            flash_files_path: config.flash_files_path.clone(),
            functional_group_config: config.functional_description.clone(),
            components_config: config.components.clone(),
            base_uri_path: BaseUriPath::new(base),
        }
    }
}

} // verus!
