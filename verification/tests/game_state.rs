use rocket_launcher::game_state::{
    _reset, handle_game_response, name_request, set_rpc_enabled, set_server_name, update_rpc,
    GameSession, NameRequest, ResolvedNames,
};
use rocket_launcher::game_xml::{
    count_coins, find_car_by_id, parse_all_persona_ids, parse_default_car, parse_event_id_from_lobby,
    parse_permanent_session, parse_persona_info, parse_treasure_hunt, xml_inner_text,
};

const SESSION: &str = "<UserInfo><personas><ProfileData><Name>Alice</Name><Level>42</Level><IconIndex>7</IconIndex><PersonaId>100</PersonaId></ProfileData><ProfileData><Name>Bob</Name><Level>3</Level><IconIndex>2</IconIndex><PersonaId>200</PersonaId></ProfileData></personas></UserInfo>";
const CARSLOTS: &str = "<CarSlotInfoTrans><CarsOwnedByPersona><OwnedCarTrans><CustomCar><Name>car_a</Name></CustomCar><Id>11</Id></OwnedCarTrans><OwnedCarTrans><CustomCar><Name>car_b</Name></CustomCar><Id>22</Id></OwnedCarTrans></CarsOwnedByPersona><DefaultOwnedCarIndex>1</DefaultOwnedCarIndex></CarSlotInfoTrans>";

fn no_names() -> ResolvedNames {
    ResolvedNames { car_name: String::new(), event_name: String::new(), event_type: String::new() }
}

#[test]
fn answers_are_ignored_before_launch() {
    let mut s = GameSession::new();
    let r = handle_game_response(&mut s, "/User/GetPermanentSession", "", SESSION, &no_names());
    assert!(r.is_none());
    assert!(s.state.is_none());
}

#[test]
fn session_login_and_presence() {
    let mut s = GameSession::new();
    set_server_name(&mut s, "Server A");
    handle_game_response(&mut s, "/nfsw/Engine.svc/User/GetPermanentSession", "", SESSION, &no_names());
    {
        let st = s.state.as_ref().unwrap();
        assert_eq!(st.persona_name, "Alice");
        assert_eq!(st.persona_level, "42");
        assert_eq!(st.persona_avatar_id, "avatar_7");
        assert_eq!(st.persona_ids, vec!["100".to_string(), "200".to_string()]);
        assert_eq!(st.server_name, "Server A");
    }
    handle_game_response(&mut s, "/Engine.svc/User/SecureLoginPersona", "a=1&personaId=200", "", &no_names());
    assert_eq!(s.state.as_ref().unwrap().logged_persona_id, "200");
    let info = "<ProfileData><Name>Bob</Name><Level>3</Level><IconIndex>2</IconIndex><PersonaId>200</PersonaId></ProfileData>";
    handle_game_response(&mut s, "/DriverPersona/GetPersonaInfo", "", info, &no_names());
    assert_eq!(s.state.as_ref().unwrap().persona_name, "Bob");
    let a = handle_game_response(&mut s, "/DriverPersona/UpdatePersonaPresence", "x=1&presence=1", "", &no_names()).unwrap();
    assert_eq!(a.details, "Driving Unknown car");
    assert_eq!(a.large_text, "Bob - Level: 3");
    assert_eq!(a.large_image, "avatar_2");
    assert_eq!(a.small_image, "gamemode_freeroam");
    let b = handle_game_response(&mut s, "/DriverPersona/UpdatePersonaPresence", "presence=2", "", &no_names()).unwrap();
    assert_eq!(b.details, "In safehouse");
    assert!(s.state.as_ref().unwrap().in_safehouse);
    handle_game_response(&mut s, "/User/SecureLogoutPersona", "", "", &no_names());
    let st = s.state.as_ref().unwrap();
    assert_eq!(st.persona_name, "");
    assert_eq!(st.logged_persona_id, "");
    assert_eq!(st.server_name, "Server A");
}

#[test]
fn disabled_presence_shows_nothing() {
    let mut s = GameSession::new();
    set_server_name(&mut s, "Server A");
    set_rpc_enabled(&mut s, false);
    let a = handle_game_response(&mut s, "/DriverPersona/UpdatePersonaPresence", "presence=1", "", &no_names());
    assert!(a.is_none());
    assert!(!s.state.as_ref().unwrap().in_safehouse);
    assert!(update_rpc(false, "d", "s", "n", "1", "a", "t", "i").is_none());
    let u = update_rpc(true, "d", "s", "", "1", "", "t", "i").unwrap();
    assert_eq!(u.large_text, "Need for Speed: World");
    assert_eq!(u.large_image, "nfsw");
}

#[test]
fn treasure_hunt_counts_coins() {
    let mut s = GameSession::new();
    set_server_name(&mut s, "Srv");
    let hunt = "<TreasureHuntEventSession><CoinsCollected>6</CoinsCollected><NumCoins>15</NumCoins><Streak>3</Streak></TreasureHuntEventSession>";
    handle_game_response(&mut s, "/events/gettreasurehunteventsession", "", hunt, &no_names());
    assert_eq!(s.state.as_ref().unwrap().treasure_collected, 2);
    let a = handle_game_response(&mut s, "/events/notifycoincollected", "", "", &no_names()).unwrap();
    assert_eq!(a.details, "Collecting gems (3 of 15)");
    assert_eq!(a.small_text, "Treasure hunt - Day: 3");
    assert_eq!(count_coins(0b1111_1111_1111_1110), 15);
    assert_eq!(count_coins(1), 0);
    assert_eq!(parse_treasure_hunt(hunt), Some((2, 15, 3)));
}

#[test]
fn garage_and_names() {
    let mut s = GameSession::new();
    set_server_name(&mut s, "Srv");
    let path = "/personas/100/carslots";
    assert!(matches!(name_request(&s, path, CARSLOTS), NameRequest::Car(ref c) if c == "car_b"));
    let names = ResolvedNames { car_name: "Nissan GT-R".to_string(), event_name: String::new(), event_type: String::new() };
    handle_game_response(&mut s, path, "", CARSLOTS, &names);
    assert_eq!(s.state.as_ref().unwrap().persona_car_name, "Nissan GT-R");
    assert_eq!(s.state.as_ref().unwrap().carslots_xml, CARSLOTS);
    assert_eq!(parse_default_car(CARSLOTS), Some("car_b".to_string()));
    assert_eq!(find_car_by_id(CARSLOTS, "11"), Some("car_a".to_string()));
    assert_eq!(find_car_by_id(CARSLOTS, "33"), None);
    _reset(&mut s);
    assert!(s.state.is_none());
}

#[test]
fn xml_pieces() {
    assert_eq!(xml_inner_text("<a><b>x</b></a>", "b"), Some("x".to_string()));
    assert_eq!(xml_inner_text("<a><b>x</a>", "b"), None);
    assert_eq!(parse_permanent_session(SESSION), Some(("Alice".to_string(), "42".to_string(), "7".to_string(), "100".to_string())));
    assert_eq!(parse_all_persona_ids(SESSION), vec!["100".to_string(), "200".to_string()]);
    assert_eq!(parse_persona_info("<Name>N</Name><Level>1</Level><IconIndex>2</IconIndex>"), None);
    assert_eq!(parse_event_id_from_lobby("<LobbyInfo><EventId>380</EventId></LobbyInfo>"), Some(380));
    assert_eq!(parse_event_id_from_lobby("<EventId>x</EventId>"), None);
}
