use rocket_launcher::game_state::RpcActivity;
use rocket_launcher::rpc::{
    activity_request, after_failed_activity, connect_failed_text, launch_activity, plan_activity,
    reconnect_target, ActivityRequest, RpcConnection, DEFAULT_GAME_APP_ID, LAUNCHER_APP_ID,
};

fn request(b1: (Option<&str>, Option<&str>), b2: (Option<&str>, Option<&str>)) -> ActivityRequest {
    ActivityRequest {
        state: Some("s".to_string()),
        details: None,
        large_image: Some("li".to_string()),
        large_text: None,
        small_image: None,
        small_text: Some("st".to_string()),
        button1_label: b1.0.map(|s| s.to_string()),
        button1_url: b1.1.map(|s| s.to_string()),
        button2_label: b2.0.map(|s| s.to_string()),
        button2_url: b2.1.map(|s| s.to_string()),
    }
}

#[test]
fn reconnection_targets() {
    assert_eq!(reconnect_target(&None), DEFAULT_GAME_APP_ID);
    assert_eq!(reconnect_target(&Some(String::new())), "540651192179752970");
    assert_eq!(reconnect_target(&Some("123".to_string())), "123");
    assert_eq!(LAUNCHER_APP_ID, "1494263333266653335");
}

#[test]
fn connection_state() {
    let mut c = RpcConnection::new();
    assert!(c.needs_connect(LAUNCHER_APP_ID));
    c.connected(LAUNCHER_APP_ID, 1000);
    assert!(!c.needs_connect(LAUNCHER_APP_ID));
    assert!(c.needs_connect(DEFAULT_GAME_APP_ID));
    assert_eq!(c.start_time, Some(1000));
    c.client_closed();
    assert!(c.needs_connect(LAUNCHER_APP_ID));
    c.stopped();
    assert_eq!(c.current_app_id, "");
    assert!(c.start_time.is_none());
}

#[test]
fn buttons_need_label_and_address() {
    let p = plan_activity(&request((Some("Site"), Some("https://x")), (Some(""), Some("https://y"))), Some(5), 9);
    assert_eq!(p.start, 5);
    assert_eq!(p.buttons, vec![("Site".to_string(), "https://x".to_string())]);
    assert_eq!(p.state, Some("s".to_string()));
    assert_eq!(p.small_text, Some("st".to_string()));
    let q = plan_activity(&request((None, Some("https://x")), (Some("B"), Some("https://b"))), None, 9);
    assert_eq!(q.start, 9);
    assert_eq!(q.buttons, vec![("B".to_string(), "https://b".to_string())]);
}

#[test]
fn failed_activity_retries_once() {
    assert_eq!(after_failed_activity(0, "123", "boom".to_string()), Ok(()));
    assert_eq!(
        after_failed_activity(0, "", "boom".to_string()),
        Err("Discord RPC not initialized".to_string())
    );
    assert_eq!(after_failed_activity(1, "123", "boom".to_string()), Err("boom".to_string()));
    assert_eq!(connect_failed_text("no pipe"), "connect failed after 3 attempts: no pipe");
}

#[test]
fn activities_become_requests() {
    let r = launch_activity("My Server");
    assert_eq!(r.state, Some("My Server".to_string()));
    assert_eq!(r.details, Some("Launching Game".to_string()));
    assert_eq!(r.button1_label, Some("Project Site".to_string()));
    assert!(r.button2_label.is_none());
    let a = RpcActivity {
        state: "S".to_string(),
        details: "D".to_string(),
        large_image: "LI".to_string(),
        large_text: "LT".to_string(),
        small_image: "SI".to_string(),
        small_text: "ST".to_string(),
        button1_label: "B".to_string(),
        button1_url: "U".to_string(),
    };
    let q = activity_request(a);
    assert_eq!(q.large_text, Some("LT".to_string()));
    assert_eq!(q.button1_url, Some("U".to_string()));
}
