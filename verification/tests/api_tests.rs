use fancontrol::config::{Config, FanMode, PartialConfig, PartialFanConfig};
use fancontrol::routes::Api;
use fancontrol::state::AppState;

fn api_without_tool() -> Api {
    Api::new(AppState::new(Config::default_config(), false))
}

fn api_with_tool() -> Api {
    Api::new(AppState::new(Config::default_config(), true))
}

#[test]
fn health_reports_tool_presence() {
    assert!(!api_without_tool().health());
    assert!(api_with_tool().health());
}

#[test]
fn tool_queries_fail_fast_without_tool_in_any_order() {
    let api = api_without_tool();
    assert_eq!(api.get_versions(None), Err("framework_tool not found".to_string()));
    assert_eq!(api.get_power(None), Err("framework_tool not found".to_string()));
    assert_eq!(api.get_thermal(None), Err("framework_tool not found".to_string()));
    assert_eq!(api.get_power(None), Err("framework_tool not found".to_string()));
    assert!(!api.health());
}

#[test]
fn tool_queries_pass_output_through_verbatim() {
    let api = api_with_tool();
    assert_eq!(api.get_power(Some(Ok("power table".to_string()))), Ok("power table".to_string()));
    assert_eq!(api.get_thermal(Some(Ok("thermal table".to_string()))), Ok(
        "thermal table".to_string(),
    ));
    assert_eq!(api.get_versions(Some(Err("tool exploded".to_string()))), Err(
        "tool exploded".to_string(),
    ));
}

#[test]
fn get_config_returns_the_current_document() {
    let api = api_without_tool();
    let snapshot = api.get_config();
    assert_eq!(snapshot.fan.mode, FanMode::Auto);
    assert_eq!(snapshot.fan.manual, None);
    assert_eq!(snapshot.fan.curve, None);
    assert_eq!(snapshot.fan.calibration, None);
}

#[test]
fn successful_update_is_adopted() {
    let mut api = api_without_tool();
    let req = PartialConfig {
        fan: Some(PartialFanConfig {
            mode: Some(FanMode::Manual),
            manual: Some(70),
            curve: None,
            calibration: None,
        }),
    };
    let merged = api.set_config_merge(&req);
    let result = api.set_config_commit(merged, Ok(()));
    assert_eq!(result, Ok(()));
    let after = api.get_config();
    assert_eq!(after.fan.mode, FanMode::Manual);
    assert_eq!(after.fan.manual, Some(70));
    assert_eq!(after.fan.curve, None);
}

#[test]
fn update_without_fan_section_succeeds_and_changes_nothing() {
    let mut api = api_without_tool();
    let merged = api.set_config_merge(&PartialConfig { fan: None });
    let result = api.set_config_commit(merged, Ok(()));
    assert_eq!(result, Ok(()));
    let after = api.get_config();
    assert_eq!(after.fan.mode, FanMode::Auto);
    assert_eq!(after.fan.manual, None);
}

#[test]
fn failed_save_reports_persistence_error_and_keeps_state() {
    let mut api = api_without_tool();
    let before = api.get_config();
    let req = PartialConfig {
        fan: Some(PartialFanConfig {
            mode: Some(FanMode::Curve),
            manual: None,
            curve: None,
            calibration: None,
        }),
    };
    let merged = api.set_config_merge(&req);
    let result = api.set_config_commit(merged, Err("disk full".to_string()));
    assert_eq!(result, Err("config save error: disk full".to_string()));
    let after = api.get_config();
    assert_eq!(after.fan.mode, before.fan.mode);
    assert_eq!(after.fan.manual, before.fan.manual);
    assert_eq!(after.fan.curve, before.fan.curve);
    assert_eq!(after.fan.calibration, before.fan.calibration);
}

#[test]
fn concurrent_readers_never_observe_partial_updates() {
    let rt = tokio::runtime::Builder::new_multi_thread()
        .worker_threads(4)
        .build()
        .unwrap();
    rt.block_on(async {
        let core = std::sync::Arc::new(tokio::sync::RwLock::new(Api::new(AppState::new(
            Config::default_config(),
            false,
        ))));
        let mut handles = Vec::new();
        for round in 0..20u8 {
            let c = core.clone();
            handles.push(tokio::spawn(async move {
                // Every writer commits a document whose manual speed and
                // calibration blob are correlated.
                let req = PartialConfig {
                    fan: Some(PartialFanConfig {
                        mode: Some(FanMode::Manual),
                        manual: Some(round),
                        curve: None,
                        calibration: Some(vec![round; 64]),
                    }),
                };
                let merged = { c.read().await.set_config_merge(&req) };
                let save_result: Result<(), String> = Ok(());
                let mut guard = c.write().await;
                guard.set_config_commit(merged, save_result).unwrap();
            }));
        }
        for _ in 0..20 {
            let c = core.clone();
            handles.push(tokio::spawn(async move {
                let snap = { c.read().await.get_config() };
                // A snapshot is always some fully committed document: either
                // the initial one, or one with a consistent speed/blob pair.
                match snap.fan.manual {
                    None => {
                        assert_eq!(snap.fan.mode, FanMode::Auto);
                        assert_eq!(snap.fan.calibration, None);
                    }
                    Some(v) => {
                        assert_eq!(snap.fan.mode, FanMode::Manual);
                        assert_eq!(snap.fan.calibration, Some(vec![v; 64]));
                    }
                }
            }));
        }
        for h in handles {
            h.await.unwrap();
        }
    });
}
