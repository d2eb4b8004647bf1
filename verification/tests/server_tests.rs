use hedge_cli::channel::{ChannelManager, LocalData};
use hedge_cli::config::{Download, LocalConfig, WorkPath};
use hedge_cli::server::{
    is_success_status, lease_body, lease_interval_ms, make_session, permanent_body, spawn_needed,
    Access, AcquireMode, HeartbeatState, ServerManager, SessionRecord, HEARTBEAT_LEASE_MS,
    HEARTBEAT_SLEEP_MS, MAINTAINED_LEASE_MS, ONESHOT_LEASE_MS,
};

fn config() -> LocalConfig {
    LocalConfig {
        debug_mode: false,
        work_path: WorkPath {
            application_path: None,
            userdata_path: "/home/u/.config/Hedge-v3".to_string(),
            server_path: "/home/u/.config/Hedge-v3/server".to_string(),
            appdata_path: "/home/u/.config/Hedge-v3/appdata".to_string(),
        },
        download: Download {
            waiting_interval: None,
            timeout_interval: None,
            proxy: None,
            available_sites: vec![],
        },
    }
}

fn manager() -> ServerManager {
    let channels = ChannelManager::new(&config(), LocalData { using_channel: None });
    ServerManager::new(&config(), &channels)
}

#[test]
fn manager_paths_are_channel_scoped() {
    let m = manager();
    assert_eq!(m.channel, "default");
    assert_eq!(m.channel_dir(), "/home/u/.config/Hedge-v3/appdata/channel/default");
    assert_eq!(m.record_file_path(), "/home/u/.config/Hedge-v3/appdata/channel/default/PID");
    assert_eq!(m.log_file_path(), "/home/u/.config/Hedge-v3/appdata/channel/default/server.log");
    assert_eq!(m.server_bin_path(), "/home/u/.config/Hedge-v3/server/bin/hedge-v3-server");
    let args = m.spawn_args();
    assert_eq!(args.len(), 2);
    assert_eq!(args[0], "--channel-path");
    assert_eq!(args[1], "/home/u/.config/Hedge-v3/appdata/channel/default");
}

#[test]
fn named_channel_changes_every_path() {
    let channels = ChannelManager::new(&config(), LocalData {
        using_channel: Some("alt".to_string()),
    });
    let m = ServerManager::new(&config(), &channels);
    assert_eq!(m.record_file_path(), "/home/u/.config/Hedge-v3/appdata/channel/alt/PID");
}

#[test]
fn set_access_binds_the_discovered_port_and_token() {
    let mut m = manager();
    assert_eq!(m.access.address, None);
    assert_eq!(m.access.token, None);
    m.set_access(9000, "tok".to_string());
    assert_eq!(m.access.address, Some("http://localhost:9000".to_string()));
    assert_eq!(m.access.token, Some("tok".to_string()));
}

#[test]
fn urls_resolve_against_the_address_when_known() {
    let access =
        Access { address: Some("http://localhost:9000".to_string()), token: Some("t".to_string()) };
    assert_eq!(access.resolve_url("/app/health"), "http://localhost:9000/app/health");
    let bare = Access { address: None, token: None };
    // Without a session the path is treated as a full URL.
    assert_eq!(bare.resolve_url("http://example.com/x"), "http://example.com/x");
}

#[test]
fn bearer_header_carries_the_token() {
    assert_eq!(Access::bearer_value("abc"), "Bearer abc");
}

#[test]
fn success_statuses_are_2xx_and_3xx() {
    assert!(!is_success_status(199));
    assert!(is_success_status(200));
    assert!(is_success_status(204));
    assert!(is_success_status(301));
    assert!(is_success_status(399));
    assert!(!is_success_status(400));
    assert!(!is_success_status(404));
    assert!(!is_success_status(500));
}

#[test]
fn sessions_bind_the_loopback_address() {
    let s = make_session(4000, "abc".to_string());
    assert_eq!(s.address, "http://localhost:4000");
    assert_eq!(s.token, "abc");
}

#[test]
fn lease_bodies_frame_the_lifetime_protocol() {
    assert_eq!(lease_body(10000), "{\"interval\":10000,\"standalone\":true}");
    assert_eq!(lease_body(30000), "{\"interval\":30000,\"standalone\":true}");
    assert_eq!(
        permanent_body(true),
        "{\"type\":\"command-line-application\",\"value\":true}"
    );
    assert_eq!(
        permanent_body(false),
        "{\"type\":\"command-line-application\",\"value\":false}"
    );
}

#[test]
fn lease_intervals_differ_by_mode() {
    assert_eq!(lease_interval_ms(&AcquireMode::OneShot), ONESHOT_LEASE_MS);
    assert_eq!(lease_interval_ms(&AcquireMode::OneShot), 10000);
    assert_eq!(lease_interval_ms(&AcquireMode::Maintained), MAINTAINED_LEASE_MS);
    assert_eq!(lease_interval_ms(&AcquireMode::Maintained), 30000);
}

#[test]
fn heartbeat_renews_more_often_than_the_lease_lapses() {
    assert!((HEARTBEAT_SLEEP_MS as i64) < HEARTBEAT_LEASE_MS);
}

#[test]
fn heartbeat_processes_every_renewal_outcome() {
    // A run of failures in the middle never ends the task: all renewals
    // happen, and only the failures are counted.
    let hb = hedge_cli::server::run_heartbeat(&vec![true, false, false, false, true, true]);
    assert_eq!(hb.renewals, 6);
    assert_eq!(hb.failures, 3);
}

#[test]
fn heartbeat_keeps_running_through_failures() {
    let mut hb = HeartbeatState::new();
    assert!(hb.after_renewal(true));
    // A renewal failure is recorded but never ends the task.
    assert!(hb.after_renewal(false));
    assert!(hb.after_renewal(false));
    assert!(hb.after_renewal(true));
    assert_eq!(hb.renewals, 4);
    assert_eq!(hb.failures, 2);
}

#[test]
fn use_channel_produces_the_record_to_persist() {
    let channels = ChannelManager::new(&config(), LocalData { using_channel: None });
    assert_eq!(channels.current_channel(), "default");
    let data = channels.use_channel("alt");
    assert_eq!(data.using_channel, Some("alt".to_string()));
}

#[test]
fn the_server_is_spawned_only_without_a_record() {
    assert!(spawn_needed(&None));
    let starting = SessionRecord { pid: 1, port: None, token: None, start_time: 0 };
    assert!(!spawn_needed(&Some(starting)));
}
