//! Reloading the configuration and the diagnostic databases at run time.

use vstd::prelude::*;
use crate::config::configfile::ComponentsConfig;
use crate::config::vehicle::VehicleConfig;
use crate::text::concat;
use crate::webserver::BaseUriPath;

verus! {

/// Why a reload failed.
#[derive(Debug)]
pub struct ReloadError(pub String);

/// What came of loading a configuration file.
#[derive(Debug)]
pub enum ConfigLoad<C> {
    /// The file could not be read, with this cause.
    Unreadable(String),
    /// The contents are not a configuration, with this cause.
    Unparsable(String),
    /// The configuration in the file.
    Loaded(C),
}

/// The configuration that was loaded, or the error that tells why there is none.
pub fn loaded_configuration<C>(load: ConfigLoad<C>) -> (r: Result<C, ReloadError>)
    ensures
        match load {
            ConfigLoad::Loaded(loaded) => r == Ok::<C, ReloadError>(loaded),
            ConfigLoad::Unreadable(cause) => r matches Err(e) && e.0@ == "Failed to read config: "@
                + cause@,
            ConfigLoad::Unparsable(cause) => r matches Err(e) && e.0@
                == "Failed to parse config: "@ + cause@,
        },
{
    match load {
        ConfigLoad::Unreadable(cause) => Err(
            ReloadError(concat("Failed to read config: ", cause.as_str())),
        ),
        ConfigLoad::Unparsable(cause) => Err(
            ReloadError(concat("Failed to parse config: ", cause.as_str())),
        ),
        ConfigLoad::Loaded(loaded) => Ok(loaded),
    }
}

/// Puts a configuration that was loaded in place of `config`. Where loading failed,
/// `config` stays as it is.
pub fn reload_configuration<C>(config: &mut C, load: ConfigLoad<C>) -> (r: Result<(), ReloadError>)
    ensures
        match load {
            ConfigLoad::Loaded(loaded) => r is Ok && *final(config) == loaded,
            ConfigLoad::Unreadable(cause) => *final(config) == *old(config) && (r matches Err(e)
                && e.0@ == "Failed to read config: "@ + cause@),
            ConfigLoad::Unparsable(cause) => *final(config) == *old(config) && (r matches Err(e)
                && e.0@ == "Failed to parse config: "@ + cause@),
        },
{
    match loaded_configuration(load) {
        Ok(loaded) => {
            *config = loaded;
            Ok(())
        },
        Err(error) => Err(error),
    }
}

/// Why the application could not be set up.
#[derive(Debug)]
pub enum AppError {
    InitializationFailed(String),
}

/// The storage of the update plugin, or the error of an application that cannot be set
/// up without it.
pub fn storage_or_error<S>(opened: Result<S, String>) -> (r: Result<S, AppError>)
    ensures
        match opened {
            Ok(storage) => r == Ok::<S, AppError>(storage),
            Err(cause) => r matches Err(AppError::InitializationFailed(text)) && text@
                == "DbUpdate storage: "@ + cause@,
        },
{
    match opened {
        Ok(storage) => Ok(storage),
        Err(cause) => Err(
            AppError::InitializationFailed(concat("DbUpdate storage: ", cause.as_str())),
        ),
    }
}

/// The settings of the vehicle routes that stay as they were at the start.
#[derive(Debug)]
pub struct ReloadSettings {
    pub flash_files_path: String,
    pub components_config: ComponentsConfig,
    pub base_uri_path: BaseUriPath,
}

impl ReloadSettings {
    /// The settings of rebuilt vehicle routes: the functional description of the
    /// current configuration, and the rest as at the start.
    pub fn vehicle_config<Functional>(&self, functional_description: Functional) -> (r:
        VehicleConfig<Functional>)
        ensures
            r.flash_files_path == self.flash_files_path,
            r.functional_group_config == functional_description,
            r.components_config@ == self.components_config@,
            r.base_uri_path@ == self.base_uri_path@,
    {
        VehicleConfig {
            flash_files_path: self.flash_files_path.clone(),
            functional_group_config: functional_description,
            components_config: self.components_config.clone(),
            base_uri_path: self.base_uri_path.clone(),
        }
    }
}

/// What is done next in a reload of the diagnostic databases.
#[derive(Debug)]
pub enum ReloadAction {
    /// Take the old variant detection task, if there is one.
    TakeVariantDetection,
    /// Abort the variant detection task and wait for its end.
    StopVariantDetection,
    /// Shut down the old UDS manager.
    ShutDownUds,
    /// Shut down the old `DoIP` gateway, keeping its UDP socket.
    ShutDownGateway,
    /// Create the new components, with the socket of the old gateway.
    CreateComponents,
    /// Put the new components in place of the old ones.
    InstallComponents,
    /// Give the locks the entries of the new ECUs.
    UpdateLockEntries,
    /// Build the new vehicle routes.
    BuildRoutes,
    /// Put the new execution registry in place of the old one.
    ReplaceRegistry,
    /// Put the new vehicle routes in place of the old ones.
    ReplaceRoutes,
    /// The reload is done.
    Finished,
    /// The reload failed.
    Failed(ReloadError),
}

/// What came of an action.
#[derive(Debug)]
pub enum ReloadEvent {
    /// The action is done. Of [`ReloadAction::TakeVariantDetection`]: there is no task.
    Done,
    /// There is a variant detection task to stop.
    TaskTaken,
    /// The action failed, with this cause.
    Error(String),
}

/// The action failed with an error that reads as the cause after `prefix`.
pub open spec fn fails_with(action: ReloadAction, prefix: Seq<char>, cause: Seq<char>) -> bool {
    action matches ReloadAction::Failed(error) && error.0@ == prefix + cause
}

/// `next` is what is done after `action` came to `event`. Creating the components,
/// updating the lock entries and replacing the routes can fail; the others cannot, and
/// an error of theirs is passed over.
pub open spec fn follows(action: ReloadAction, event: ReloadEvent, next: ReloadAction) -> bool {
    match action {
        ReloadAction::TakeVariantDetection => if event is TaskTaken {
            next is StopVariantDetection
        } else {
            next is ShutDownUds
        },
        ReloadAction::StopVariantDetection => next is ShutDownUds,
        ReloadAction::ShutDownUds => next is ShutDownGateway,
        ReloadAction::ShutDownGateway => next is CreateComponents,
        ReloadAction::CreateComponents => match event {
            ReloadEvent::Error(cause) => fails_with(
                next,
                "Failed to create vehicle components: "@,
                cause@,
            ),
            _ => next is InstallComponents,
        },
        ReloadAction::InstallComponents => next is UpdateLockEntries,
        ReloadAction::UpdateLockEntries => match event {
            ReloadEvent::Error(cause) => fails_with(next, Seq::empty(), cause@),
            _ => next is BuildRoutes,
        },
        ReloadAction::BuildRoutes => next is ReplaceRegistry,
        ReloadAction::ReplaceRegistry => next is ReplaceRoutes,
        ReloadAction::ReplaceRoutes => match event {
            ReloadEvent::Error(cause) => fails_with(
                next,
                "Failed to replace vehicle routes: "@,
                cause@,
            ),
            _ => next is Finished,
        },
        ReloadAction::Finished => next is Finished,
        ReloadAction::Failed(_) => next == action,
    }
}

/// What a reload does first.
pub fn first_action() -> (r: ReloadAction)
    ensures
        r is TakeVariantDetection,
{
    ReloadAction::TakeVariantDetection
}

/// What a reload does after an action.
pub fn next_action(action: ReloadAction, event: ReloadEvent) -> (next: ReloadAction)
    ensures
        follows(action, event, next),
        action is TakeVariantDetection && event is TaskTaken ==> next is StopVariantDetection,
        action is TakeVariantDetection && event !is TaskTaken ==> next is ShutDownUds,
        action is StopVariantDetection ==> next is ShutDownUds,
        action is ShutDownUds ==> next is ShutDownGateway,
        action is ShutDownGateway ==> next is CreateComponents,
        action is CreateComponents && event !is Error ==> next is InstallComponents,
        action is InstallComponents ==> next is UpdateLockEntries,
        action is UpdateLockEntries && event !is Error ==> next is BuildRoutes,
        action is BuildRoutes ==> next is ReplaceRegistry,
        action is ReplaceRegistry ==> next is ReplaceRoutes,
        action is ReplaceRoutes && event !is Error ==> next is Finished,
        action is Finished || action is Failed ==> next == action,
        event matches ReloadEvent::Error(cause) ==> {
            &&& action is CreateComponents ==> (next matches ReloadAction::Failed(error)
                && error.0@ == "Failed to create vehicle components: "@ + cause@)
            &&& action is UpdateLockEntries ==> (next matches ReloadAction::Failed(error)
                && error.0@ == cause@)
            &&& action is ReplaceRoutes ==> (next matches ReloadAction::Failed(error) && error.0@
                == "Failed to replace vehicle routes: "@ + cause@)
        },
{
    match action {
        ReloadAction::TakeVariantDetection => match event {
            ReloadEvent::TaskTaken => ReloadAction::StopVariantDetection,
            _ => ReloadAction::ShutDownUds,
        },
        ReloadAction::StopVariantDetection => ReloadAction::ShutDownUds,
        ReloadAction::ShutDownUds => ReloadAction::ShutDownGateway,
        ReloadAction::ShutDownGateway => ReloadAction::CreateComponents,
        ReloadAction::CreateComponents => match event {
            ReloadEvent::Error(cause) => ReloadAction::Failed(
                ReloadError(concat("Failed to create vehicle components: ", cause.as_str())),
            ),
            _ => ReloadAction::InstallComponents,
        },
        ReloadAction::InstallComponents => ReloadAction::UpdateLockEntries,
        ReloadAction::UpdateLockEntries => match event {
            ReloadEvent::Error(cause) => {
                assert(Seq::<char>::empty() + cause@ =~= cause@);
                ReloadAction::Failed(ReloadError(cause))
            },
            _ => ReloadAction::BuildRoutes,
        },
        ReloadAction::BuildRoutes => ReloadAction::ReplaceRegistry,
        ReloadAction::ReplaceRegistry => ReloadAction::ReplaceRoutes,
        ReloadAction::ReplaceRoutes => match event {
            ReloadEvent::Error(cause) => ReloadAction::Failed(
                ReloadError(concat("Failed to replace vehicle routes: ", cause.as_str())),
            ),
            _ => ReloadAction::Finished,
        },
        ReloadAction::Finished => ReloadAction::Finished,
        ReloadAction::Failed(error) => ReloadAction::Failed(error),
    }
}

/// The actions of a reload one after the other, with what came of each.
pub open spec fn is_run(actions: Seq<ReloadAction>, events: Seq<ReloadEvent>) -> bool {
    &&& actions.len() > 0
    &&& events.len() == actions.len()
    &&& actions[0] is TakeVariantDetection
    &&& forall|k: int|
        0 <= k < actions.len() - 1 ==> follows(
            #[trigger] actions[k],
            events[k],
            actions[k + 1],
        )
}

/// How far a reload is.
pub open spec fn progress(action: ReloadAction) -> int {
    match action {
        ReloadAction::TakeVariantDetection => 0,
        ReloadAction::StopVariantDetection => 1,
        ReloadAction::ShutDownUds => 2,
        ReloadAction::ShutDownGateway => 3,
        ReloadAction::CreateComponents => 4,
        ReloadAction::InstallComponents => 5,
        ReloadAction::UpdateLockEntries => 6,
        ReloadAction::BuildRoutes => 7,
        ReloadAction::ReplaceRegistry => 8,
        ReloadAction::ReplaceRoutes => 9,
        ReloadAction::Finished => 10,
        ReloadAction::Failed(_) => 10,
    }
}

/// The reload is over.
pub open spec fn is_over(action: ReloadAction) -> bool {
    action is Finished || action is Failed
}

/// Where an action that can fail fails, the error names the step, but for the lock
/// entries, and ends with the cause.
pub proof fn lemma_errors_tell_the_cause(
    action: ReloadAction,
    cause: String,
    next: ReloadAction,
)
    requires
        follows(action, ReloadEvent::Error(cause), next),
    ensures
        action is CreateComponents ==> (next matches ReloadAction::Failed(error) && error.0@
            == "Failed to create vehicle components: "@ + cause@),
        action is UpdateLockEntries ==> (next matches ReloadAction::Failed(error) && error.0@
            == cause@),
        action is ReplaceRoutes ==> (next matches ReloadAction::Failed(error) && error.0@
            == "Failed to replace vehicle routes: "@ + cause@),
        next is Failed <==> action is CreateComponents || action is UpdateLockEntries
            || action is ReplaceRoutes || action is Failed,
{
    assert(Seq::<char>::empty() + cause@ =~= cause@);
}

proof fn lemma_progress(actions: Seq<ReloadAction>, events: Seq<ReloadEvent>, k: int)
    requires
        is_run(actions, events),
        0 <= k < actions.len(),
    ensures
        is_over(actions[k]) || progress(actions[k]) >= k,
    decreases k,
{
    if k > 0 {
        lemma_progress(actions, events, k - 1);
        assert(follows(actions[k - 1], events[k - 1], actions[k]));
    }
}

/// A reload is over after at most ten actions.
pub proof fn lemma_reload_ends(actions: Seq<ReloadAction>, events: Seq<ReloadEvent>, k: int)
    requires
        is_run(actions, events),
        10 <= k < actions.len(),
    ensures
        is_over(actions[k]),
{
    lemma_progress(actions, events, k);
}

/// The old components are shut down before the new ones are created: first the variant
/// detection, if it ran, then the UDS manager, then the gateway.
pub proof fn lemma_old_components_stop_first(
    actions: Seq<ReloadAction>,
    events: Seq<ReloadEvent>,
    k: int,
)
    requires
        is_run(actions, events),
        0 <= k < actions.len(),
        actions[k] is CreateComponents,
    ensures
        k >= 3,
        actions[k - 1] is ShutDownGateway,
        actions[k - 2] is ShutDownUds,
        events[0] is TaskTaken ==> actions[k - 3] is StopVariantDetection,
        events[0] !is TaskTaken ==> k == 3,
{
    assert(follows(actions[k - 1], events[k - 1], actions[k]));
    assert(follows(actions[k - 2], events[k - 2], actions[k - 1]));
    assert(follows(actions[k - 3], events[k - 3], actions[k - 2]));
    assert(follows(actions[0], events[0], actions[1]));
    if k > 3 {
        assert(follows(actions[k - 4], events[k - 4], actions[k - 3]));
        if k > 4 {
            assert(follows(actions[k - 5], events[k - 5], actions[k - 4]));
        }
    }
}

proof fn lemma_over_stays(
    actions: Seq<ReloadAction>,
    events: Seq<ReloadEvent>,
    k: int,
    m: int,
)
    requires
        is_run(actions, events),
        0 <= k <= m < actions.len(),
        is_over(actions[k]),
    ensures
        actions[m] == actions[k],
    decreases m,
{
    if m > k {
        lemma_over_stays(actions, events, k, m - 1);
        assert(follows(actions[m - 1], events[m - 1], actions[m]));
    }
}

/// Once an action that can fail fails, the reload is over with its error, and nothing
/// more is done.
pub proof fn lemma_failure_is_final(
    actions: Seq<ReloadAction>,
    events: Seq<ReloadEvent>,
    k: int,
    m: int,
)
    requires
        is_run(actions, events),
        0 <= k < m < actions.len(),
        actions[k] is CreateComponents || actions[k] is UpdateLockEntries
            || actions[k] is ReplaceRoutes,
        events[k] is Error,
    ensures
        actions[m] is Failed,
        actions[m] == actions[k + 1],
{
    assert(follows(actions[k], events[k], actions[k + 1]));
    lemma_over_stays(actions, events, k + 1, m);
}

/// New routes are served only after the new components were created and installed, the
/// lock entries were updated and the execution registry was replaced.
pub proof fn lemma_routes_are_replaced_last(
    actions: Seq<ReloadAction>,
    events: Seq<ReloadEvent>,
    k: int,
)
    requires
        is_run(actions, events),
        0 <= k < actions.len(),
        actions[k] is ReplaceRoutes,
    ensures
        k >= 8,
        actions[k - 1] is ReplaceRegistry,
        actions[k - 2] is BuildRoutes,
        actions[k - 3] is UpdateLockEntries && events[k - 3] !is Error,
        actions[k - 4] is InstallComponents,
        actions[k - 5] is CreateComponents && events[k - 5] !is Error,
{
    assert(follows(actions[k - 1], events[k - 1], actions[k]));
    assert(follows(actions[k - 2], events[k - 2], actions[k - 1]));
    assert(follows(actions[k - 3], events[k - 3], actions[k - 2]));
    assert(follows(actions[k - 4], events[k - 4], actions[k - 3]));
    assert(follows(actions[k - 5], events[k - 5], actions[k - 4]));
    lemma_old_components_stop_first(actions, events, k - 5);
}

/// A reload that is finished replaced the routes, without an error.
pub proof fn lemma_finished_reload_replaced_the_routes(
    actions: Seq<ReloadAction>,
    events: Seq<ReloadEvent>,
    m: int,
)
    requires
        is_run(actions, events),
        0 <= m < actions.len(),
        actions[m] is Finished,
    ensures
        exists|k: int|
            0 <= k < m && (#[trigger] actions[k]) is ReplaceRoutes && events[k] !is Error,
    decreases m,
{
    assert(follows(actions[m - 1], events[m - 1], actions[m]));
    if actions[m - 1] is Finished {
        lemma_finished_reload_replaced_the_routes(actions, events, m - 1);
    }
}

} // verus!
