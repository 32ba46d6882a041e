use opensovd_cda::config::configfile::Configuration;
use opensovd_cda::runtimefiles::access::{
    first_step, require_vehicle_lock, step_after_lock, Endpoint, HandlerStep,
};
use opensovd_cda::runtimefiles::error::{
    DbUpdateErrorResponse, ErrorCode, RuntimeUpdateError, VendorErrorCode,
};
use opensovd_cda::runtimefiles::response::{
    bulk_data_list_response, delete_response, execution_list_response, execution_status_response,
    list_response, start_response, upload_response, Body, BulkDataList, ExecutionResponse,
    Response,
};
use opensovd_cda::runtimefiles::routes::{
    routes, update_exempt_routes, Method, EXECUTIONS_ID_ROUTE, EXECUTIONS_ROUTE,
};
use opensovd_cda::runtimefiles::state::RuntimeUpdateRouteState;
use opensovd_cda::runtimefiles::upload::{upload_step, FieldEvent, UploadFile, UploadStep};
use opensovd_cda::update::{
    first_action, loaded_configuration, next_action, reload_configuration, storage_or_error,
    AppError, ConfigLoad, ReloadAction, ReloadEvent, ReloadSettings,
};
use opensovd_cda::webserver::BaseUriPath;
use std::sync::Arc;

fn answer(error: RuntimeUpdateError) -> (u16, ErrorCode, Option<VendorErrorCode>, Option<String>) {
    let response: Response<()> =
        DbUpdateErrorResponse::new(error, "text".to_owned(), 30).into_response();
    match response.body {
        Body::Error(body) => {
            assert_eq!(body.message, "text");
            assert!(body.parameters.is_none());
            assert!(body.error_source.is_none());
            assert!(body.schema.is_none());
            (
                response.status,
                body.error_code,
                body.vendor_code,
                response.retry_after,
            )
        }
        _ => panic!("an error has an error body"),
    }
}

fn s() -> String {
    "x".to_owned()
}

#[test]
fn each_error_has_its_answer() {
    let preconditions = (409, ErrorCode::PreconditionsNotFulfilled, None, None);
    assert_eq!(
        answer(RuntimeUpdateError::OperationsInProgress(s())),
        preconditions
    );
    assert_eq!(answer(RuntimeUpdateError::LockConflict(s())), preconditions);
    assert_eq!(
        answer(RuntimeUpdateError::ExecutionConflict),
        (409, ErrorCode::UpdateProcessInProgress, None, None)
    );
    assert_eq!(
        answer(RuntimeUpdateError::TransactionBusy),
        (
            409,
            ErrorCode::VendorSpecific,
            Some(VendorErrorCode::StorageTransactionBusy),
            Some("30".to_owned())
        )
    );
    let missing = (
        404,
        ErrorCode::VendorSpecific,
        Some(VendorErrorCode::NotFound),
        None,
    );
    assert_eq!(answer(RuntimeUpdateError::NoPendingUpdate), missing);
    assert_eq!(answer(RuntimeUpdateError::NoBackup), missing);
    assert_eq!(answer(RuntimeUpdateError::FileNotFound(s())), missing);
    let invalid = (
        400,
        ErrorCode::VendorSpecific,
        Some(VendorErrorCode::InvalidData),
        None,
    );
    assert_eq!(answer(RuntimeUpdateError::InvalidMddFile(s())), invalid);
    assert_eq!(answer(RuntimeUpdateError::InvalidConfig(s())), invalid);
    assert_eq!(answer(RuntimeUpdateError::InvalidFileType(s())), invalid);
    assert_eq!(answer(RuntimeUpdateError::ValidationFailed(s())), invalid);
    let failure = (500, ErrorCode::SovdServerFailure, None, None);
    assert_eq!(answer(RuntimeUpdateError::StorageError(s())), failure);
    assert_eq!(answer(RuntimeUpdateError::ReloadFailed(s())), failure);
    assert_eq!(
        answer(RuntimeUpdateError::NoLock(s())),
        (403, ErrorCode::InsufficientAccessRights, None, None)
    );
    assert_eq!(
        answer(RuntimeUpdateError::SevereError(s())),
        (
            500,
            ErrorCode::VendorSpecific,
            Some(VendorErrorCode::SevereError),
            None
        )
    );
    assert_eq!(
        answer(RuntimeUpdateError::FatalError(s())),
        (
            500,
            ErrorCode::VendorSpecific,
            Some(VendorErrorCode::FatalError),
            None
        )
    );
}

#[test]
fn the_retry_header_is_a_valid_header_value() {
    for seconds in [0, 9, 10, 3600, u64::MAX] {
        let response: Response<()> =
            DbUpdateErrorResponse::new(RuntimeUpdateError::TransactionBusy, s(), seconds)
                .into_response();
        let text = response.retry_after.unwrap();
        assert_eq!(text, seconds.to_string());
        assert!(http::HeaderValue::from_str(&text).is_ok());
    }
}

#[test]
fn the_vehicle_lock_must_be_held_by_the_caller() {
    assert!(require_vehicle_lock(Some("alice".to_owned()), "alice").is_ok());
    assert!(matches!(
        require_vehicle_lock(None, "alice"),
        Err(RuntimeUpdateError::NoLock(text)) if text == "Vehicle lock is missing"
    ));
    assert!(matches!(
        require_vehicle_lock(Some("bob".to_owned()), "alice"),
        Err(RuntimeUpdateError::NoLock(text)) if text == "Vehicle lock is owned by another user"
    ));
}

#[test]
fn changes_ask_for_the_lock_first() {
    for route in routes() {
        let step = first_step(route.endpoint);
        if route.method == Method::Get {
            assert!(matches!(step, HandlerStep::CallPlugin));
        } else {
            assert!(matches!(step, HandlerStep::QueryVehicleLock));
        }
    }
    assert!(matches!(
        step_after_lock(Some("alice".to_owned()), "alice"),
        HandlerStep::CallPlugin
    ));
    let error = match step_after_lock(None, "alice") {
        HandlerStep::Refuse(error) => error,
        other => panic!("unexpected step: {other:?}"),
    };
    assert_eq!(
        answer(error),
        (403, ErrorCode::InsufficientAccessRights, None, None)
    );
}

#[test]
fn lists_carry_the_schema_that_was_asked_for() {
    let list = |schema| BulkDataList {
        items: vec![1, 2],
        schema,
    };
    let with = bulk_data_list_response(list(None), true, "schema");
    assert_eq!(with.status, 200);
    assert!(matches!(
        with.body,
        Body::Data(BulkDataList { items, schema: Some("schema") }) if items == vec![1, 2]
    ));
    let without = list_response(Ok(list(None)), false, "schema");
    assert!(matches!(
        without.body,
        Body::Data(BulkDataList { schema: None, .. })
    ));
    let kept = list_response(Ok(list(Some("own"))), false, "schema");
    assert!(matches!(
        kept.body,
        Body::Data(BulkDataList { schema: Some("own"), .. })
    ));
    let failed = list_response::<Vec<i32>, &str>(
        Err(DbUpdateErrorResponse::new(
            RuntimeUpdateError::NoBackup,
            s(),
            1,
        )),
        true,
        "schema",
    );
    assert_eq!(failed.status, 404);
    assert!(matches!(failed.body, Body::Error(_)));
}

#[test]
fn successful_changes_have_their_status() {
    let created = upload_response(Ok("report"));
    assert_eq!(created.status, 201);
    assert!(matches!(created.body, Body::Data("report")));
    let deleted: Response<()> = delete_response(Ok(()));
    assert_eq!(deleted.status, 204);
    assert!(matches!(deleted.body, Body::Empty));
    let started = start_response(Ok(17));
    assert_eq!(started.status, 202);
    assert!(matches!(started.body, Body::Data(body) if body.id == 17));
    let error = || DbUpdateErrorResponse::new(RuntimeUpdateError::ExecutionConflict, s(), 1);
    assert_eq!(upload_response::<()>(Err(error())).status, 409);
    assert_eq!(delete_response::<()>(Err(error())).status, 409);
    assert_eq!(start_response::<()>(Err(error())).status, 409);
}

#[test]
fn executions_are_reported() {
    let list = execution_list_response(vec!["a"], true, 5);
    assert_eq!(list.status, 200);
    assert!(matches!(list.body, Body::Data(body) if body.items == vec!["a"] && body.schema == Some(5)));
    let plain = execution_list_response(vec!["a"], false, 5);
    assert!(matches!(plain.body, Body::Data(body) if body.schema.is_none()));
    let found = |schema| {
        Some(ExecutionResponse {
            status: "running",
            schema,
        })
    };
    let shown = execution_status_response(found(None), true, 5);
    assert_eq!(shown.status, 200);
    assert!(matches!(shown.body, Body::Data(body) if body.status == "running" && body.schema == Some(5)));
    let kept = execution_status_response(found(Some(4)), false, 5);
    assert!(matches!(kept.body, Body::Data(body) if body.schema == Some(4)));
    let missing = execution_status_response::<&str, i32>(None, true, 5);
    assert_eq!(missing.status, 404);
    assert!(matches!(missing.body, Body::Empty));
}

fn file(name: &str) -> UploadFile<Vec<u8>> {
    UploadFile {
        filename: name.to_owned(),
        data: vec![1, 2, 3],
    }
}

#[test]
fn uploads_collect_the_named_fields() {
    let mut files = Vec::new();
    for event in [
        FieldEvent::File(file("b.mdd")),
        FieldEvent::Nameless,
        FieldEvent::File(file("a.mdd")),
    ] {
        assert!(matches!(
            upload_step(&mut files, event),
            UploadStep::NextField
        ));
    }
    assert!(matches!(
        upload_step(&mut files, FieldEvent::End),
        UploadStep::Upload
    ));
    assert_eq!(files.len(), 2);
    assert_eq!(files[0].filename, "b.mdd");
    assert_eq!(files[1].filename, "a.mdd");
}

#[test]
fn an_unreadable_field_rejects_the_upload() {
    let mut files = vec![file("a.mdd")];
    assert!(matches!(
        upload_step(&mut files, FieldEvent::Unreadable("broken".to_owned())),
        UploadStep::Reject(RuntimeUpdateError::ValidationFailed(text)) if text == "broken"
    ));
    assert_eq!(files.len(), 1);
}

#[test]
fn routes_are_listed_once_and_in_lower_case() {
    let all = routes();
    assert_eq!(all.len(), 11);
    for (i, a) in all.iter().enumerate() {
        assert_eq!(a.path.to_lowercase(), a.path);
        for b in &all[i + 1..] {
            assert!(a.path != b.path || a.method != b.method);
        }
    }
    let limited: Vec<Endpoint> = all
        .iter()
        .filter(|route| route.upload_limited)
        .map(|route| route.endpoint)
        .collect();
    assert_eq!(
        limited,
        vec![Endpoint::NextupdateGet, Endpoint::NextupdatePost]
    );
    assert!(all.iter().any(|route| route.path
        == "/apps/sovd2uds/operations/diagnostic-database-update"
        && route.method == Method::Post
        && route.endpoint == Endpoint::ExecutionsPost));
}

#[test]
fn executions_stay_readable_during_an_update() {
    let base = BaseUriPath::new("/vehicle/v15".to_owned());
    let exempt = update_exempt_routes(&base);
    assert_eq!(exempt.len(), 1);
    assert_eq!(
        exempt[0].prefix,
        "/vehicle/v15/apps/sovd2uds/bulk-data/runtimefiles-nextupdate/executions"
    );
    assert_eq!(exempt[0].methods, vec![Method::Get]);
    for route in routes() {
        let covered = base.join(route.path).starts_with(&exempt[0].prefix)
            && exempt[0].methods.contains(&route.method);
        let reads_executions = route.method == Method::Get
            && (route.path == EXECUTIONS_ROUTE || route.path == EXECUTIONS_ID_ROUTE);
        assert_eq!(covered, reads_executions);
    }
}

#[test]
fn route_state_clones_share_the_plugin() {
    let state = RuntimeUpdateRouteState {
        plugin: Arc::new("plugin".to_owned()),
        vehicle_lock_states: Arc::new(3),
        retry_after_seconds: 30,
    };
    let clone = state.clone();
    assert!(Arc::ptr_eq(&state.plugin, &clone.plugin));
    assert!(Arc::ptr_eq(
        &state.vehicle_lock_states,
        &clone.vehicle_lock_states
    ));
    assert_eq!(clone.retry_after_seconds, 30);
}

type Config = Configuration<(), (), (), (), (), (), (), (), ()>;

/// What comes of loading a file with this text: the default configuration, with what the
/// text sets at the top.
fn parsed(text: &str) -> ConfigLoad<Config> {
    match toml::from_str::<toml::Table>(text) {
        Ok(table) => {
            let mut config = Config::default();
            if let Some(path) = table.get("flash_files_path").and_then(toml::Value::as_str) {
                config.flash_files_path = path.to_owned();
            }
            ConfigLoad::Loaded(config)
        }
        Err(e) => ConfigLoad::Unparsable(e.to_string()),
    }
}

#[test]
fn reload_configuration_fails_when_file_does_not_exist() {
    let mut config = Config::default();
    let result = reload_configuration(
        &mut config,
        ConfigLoad::Unreadable("No such file or directory (os error 2)".to_owned()),
    );
    assert!(result.is_err());
    let err = result.unwrap_err();
    assert!(
        err.0.contains("Failed to read config"),
        "unexpected error: {err:?}"
    );
}

#[test]
fn reload_configuration_fails_on_invalid_toml() {
    let mut config = Config::default();
    let result = reload_configuration(&mut config, parsed("this is {{ not valid toml"));
    assert!(result.is_err());
    let err = result.unwrap_err();
    assert!(
        err.0.contains("Failed to parse config"),
        "unexpected error: {err:?}"
    );
}

#[test]
fn reload_configuration_updates_config_on_valid_file() {
    let mut config = Config::default();
    let result = reload_configuration(&mut config, ConfigLoad::Loaded(Config::default()));
    assert!(result.is_ok(), "expected Ok, got {result:?}");
    assert_eq!(config.flash_files_path, ".");

    let result = reload_configuration(&mut config, parsed("flash_files_path = '/app/flash'"));
    assert!(result.is_ok(), "expected Ok, got {result:?}");
    assert_eq!(config.flash_files_path, "/app/flash");
    assert_eq!(config.server.port, 20002);
}

#[test]
fn reload_configuration_does_not_mutate_config_on_read_error() {
    let mut config = Config::default();
    let original_flash_path = config.flash_files_path.clone();
    let result = reload_configuration(
        &mut config,
        ConfigLoad::Unreadable("No such file or directory (os error 2)".to_owned()),
    );
    assert_eq!(
        result.unwrap_err().0,
        "Failed to read config: No such file or directory (os error 2)"
    );
    assert_eq!(
        config.flash_files_path, original_flash_path,
        "config must not be mutated when file read fails"
    );
}

#[test]
fn reload_configuration_does_not_mutate_config_on_parse_error() {
    let mut config = Config::default();
    config.flash_files_path = "/app/flash".to_owned();
    let _ = reload_configuration(&mut config, parsed("not = {{{ toml"));
    assert_eq!(
        config.flash_files_path, "/app/flash",
        "config must not be mutated when TOML parsing fails"
    );
}

#[test]
fn a_load_gives_the_configuration_or_the_error() {
    let loaded = loaded_configuration(parsed("flash_files_path = '/app/flash'")).unwrap();
    assert_eq!(loaded.flash_files_path, "/app/flash");
    let error = loaded_configuration::<Config>(ConfigLoad::Unparsable("cause".to_owned()));
    assert_eq!(error.unwrap_err().0, "Failed to parse config: cause");
}

#[test]
fn storage_errors_stop_the_application() {
    assert!(matches!(storage_or_error::<u8>(Ok(1)), Ok(1)));
    assert!(matches!(
        storage_or_error::<u8>(Err("denied".to_owned())),
        Err(AppError::InitializationFailed(text)) if text == "DbUpdate storage: denied"
    ));
}

#[test]
fn rebuilt_routes_keep_the_settings_of_the_start() {
    let config = Config::default();
    let settings = ReloadSettings {
        flash_files_path: "/app/flash".to_owned(),
        components_config: config.components,
        base_uri_path: BaseUriPath::new("/vehicle/v15".to_owned()),
    };
    let vehicle = settings.vehicle_config("groups");
    assert_eq!(vehicle.flash_files_path, "/app/flash");
    assert_eq!(vehicle.functional_group_config, "groups");
    assert_eq!(vehicle.base_uri_path.as_str(), "/vehicle/v15");
    assert_eq!(vehicle.components_config.additional_fields.entries().len(), 2);
}

/// Runs a reload in which the action with this name fails.
fn run_reload(task: bool, failing: &str) -> (Vec<String>, Option<String>) {
    let mut done = Vec::new();
    let mut action = first_action();
    loop {
        let name = format!("{action:?}");
        let event = match &action {
            ReloadAction::Finished => return (done, None),
            ReloadAction::Failed(error) => return (done, Some(error.0.clone())),
            ReloadAction::TakeVariantDetection if task => ReloadEvent::TaskTaken,
            _ if name == failing => ReloadEvent::Error("cause".to_owned()),
            _ => ReloadEvent::Done,
        };
        done.push(name);
        action = next_action(action, event);
    }
}

#[test]
fn a_reload_goes_through_all_steps() {
    let (done, error) = run_reload(true, "");
    assert_eq!(error, None);
    assert_eq!(
        done,
        vec![
            "TakeVariantDetection",
            "StopVariantDetection",
            "ShutDownUds",
            "ShutDownGateway",
            "CreateComponents",
            "InstallComponents",
            "UpdateLockEntries",
            "BuildRoutes",
            "ReplaceRegistry",
            "ReplaceRoutes",
        ]
    );
    let (without_task, _) = run_reload(false, "");
    assert_eq!(without_task.len(), 9);
    assert_eq!(without_task[1], "ShutDownUds");
}

#[test]
fn a_reload_stops_at_the_first_failure() {
    let (done, error) = run_reload(true, "CreateComponents");
    assert_eq!(
        error.as_deref(),
        Some("Failed to create vehicle components: cause")
    );
    assert_eq!(done.last().map(String::as_str), Some("CreateComponents"));
    let (done, error) = run_reload(false, "UpdateLockEntries");
    assert_eq!(error.as_deref(), Some("cause"));
    assert_eq!(done.last().map(String::as_str), Some("UpdateLockEntries"));
    let (done, error) = run_reload(false, "ReplaceRoutes");
    assert_eq!(
        error.as_deref(),
        Some("Failed to replace vehicle routes: cause")
    );
    assert_eq!(done.len(), 9);
    let (_, ignored) = run_reload(true, "StopVariantDetection");
    assert_eq!(ignored, None);
}
