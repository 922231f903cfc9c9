use rocket_launcher::game_state::{GameSession, ResolvedNames, set_server_name};
use rocket_launcher::launch::{
    affinity_mask, content_is_gzip, display_name, exit_code_of, game_arguments, game_discord_app_id,
    is_session_request, observe_response, proxied_address, proxy_method, proxy_target,
    response_text, split_request_path, validate_user_id, ProxyMethod,
};
use std::io::Write;

#[test]
fn user_id_must_be_known() {
    assert_eq!(validate_user_id("42"), Ok(()));
    assert_eq!(validate_user_id(""), Err("Invalid user_id: ''. Please re-login.".to_string()));
    assert_eq!(
        validate_user_id("undefined"),
        Err("Invalid user_id: 'undefined'. Please re-login.".to_string())
    );
}

#[test]
fn proxy_targets() {
    assert_eq!(
        proxy_target("https://srv.example:8443/soapbox-race-core/Engine.svc"),
        ("https://srv.example:8443".to_string(), "/soapbox-race-core/Engine.svc".to_string())
    );
    assert_eq!(proxy_target("http://1.2.3.4"), ("http://1.2.3.4".to_string(), "/".to_string()));
    assert_eq!(proxy_target("srv/x"), ("http://srv".to_string(), "/x".to_string()));
    assert_eq!(proxy_target("https:srv/x"), ("https://https:srv".to_string(), "/x".to_string()));
    assert_eq!(proxied_address(51234, "/Engine.svc"), "http://127.0.0.1:51234/Engine.svc");
}

#[test]
fn names_ids_and_arguments() {
    assert_eq!(display_name("  ", "SRV"), "SRV");
    assert_eq!(display_name("My Server", "SRV"), "My Server");
    assert_eq!(game_discord_app_id(&Some("123456789012345".to_string())), Some("123456789012345".to_string()));
    assert_eq!(game_discord_app_id(&Some("12345678901234".to_string())), None);
    assert_eq!(game_discord_app_id(&Some("12345678901234x".to_string())), None);
    assert_eq!(game_discord_app_id(&Some(String::new())), None);
    assert_eq!(game_discord_app_id(&None), None);
    assert_eq!(
        game_arguments("srv1", "http://x", "tok", "7"),
        vec!["SRV1".to_string(), "http://x".to_string(), "tok".to_string(), "7".to_string()]
    );
    assert_eq!(affinity_mask(0), 1);
    assert_eq!(affinity_mask(4), 0b1111);
    assert_eq!(affinity_mask(32), 0xFF);
    assert_eq!(exit_code_of(Some(0)), 0);
    assert_eq!(exit_code_of(Some(-1)), u32::MAX);
    assert_eq!(exit_code_of(None), 1);
}

#[test]
fn proxy_requests() {
    assert_eq!(split_request_path("/a/b?x=1&y=2"), ("/a/b".to_string(), "x=1&y=2".to_string()));
    assert_eq!(split_request_path("/a"), ("/a".to_string(), String::new()));
    assert_eq!(split_request_path("/a?b?c"), ("/a".to_string(), "b".to_string()));
    assert!(is_session_request("/nfsw/Engine.svc/User/GetPermanentSession"));
    assert!(!is_session_request("/User/GetPersonaInfo"));
    assert!(proxy_method("PATCH") == ProxyMethod::Patch);
    assert!(proxy_method("get") == ProxyMethod::Get);
    assert!(proxy_method("TRACE") == ProxyMethod::Get);
    assert!(content_is_gzip(&Some("gzip, deflate".to_string())));
    assert!(!content_is_gzip(&Some("br".to_string())));
    assert!(!content_is_gzip(&None));
}

#[test]
fn response_bodies_are_read() {
    let mut enc = flate2::write::GzEncoder::new(Vec::new(), flate2::Compression::default());
    enc.write_all("<a>ok</a>".as_bytes()).unwrap();
    let packed = enc.finish().unwrap();
    assert_eq!(response_text(true, &packed), Some("<a>ok</a>".to_string()));
    assert_eq!(response_text(true, b"not gzip"), None);
    assert_eq!(response_text(false, "é".as_bytes()), Some("é".to_string()));
    assert_eq!(response_text(false, &[0xff, 0xfe]), None);
}

#[test]
fn observed_answers_update_the_session() {
    let mut session = GameSession::new();
    set_server_name(&mut session, "Test Server");
    let names = ResolvedNames { car_name: String::new(), event_name: String::new(), event_type: String::new() };
    let r = observe_response(
        &mut session,
        "/nfsw/Engine.svc/DriverPersona/UpdatePersonaPresence?presence=1",
        &None,
        b"",
        &names,
    );
    let a = r.unwrap();
    assert_eq!(a.details, "Driving Unknown car");
    assert_eq!(a.state, "Test Server");
    assert_eq!(a.small_text, "Freeroaming");
    let none = observe_response(&mut session, "/x", &None, &[0xff], &names);
    assert!(none.is_none());
}
