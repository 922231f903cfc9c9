use vstd::prelude::*;
use crate::text::{
    chars_eq, chars_of, concat2, contains_seq, eq_ignore_ascii_case, eq_ignore_case_chars,
    has_prefix, push_str, split_char, split_chars, starts_with_chars, str_contains, str_eq,
    string_of, strip_prefix_seq, views_of, lemma_split_nonempty, slice_to_vec,
};
use crate::num::{i32_to_string, parse_i32, parse_i32_spec, signed_decimal};
use crate::game_xml::{
    car_by_id_from, default_car, find_car_by_id, lobby_event_id, parse_all_persona_ids,
    parse_default_car, parse_event_id_from_lobby, parse_permanent_session, parse_persona_info,
    parse_treasure_hunt, permanent_session, persona_ids_from, persona_info, treasure_hunt,
};

verus! {

broadcast use vstd::string::group_string_axioms;

/// What the launcher knows of the player's session, gathered from the game server's answers.
#[derive(Debug)]
pub struct GameState {
    pub server_name: String,
    pub persona_name: String,
    pub persona_level: String,
    pub persona_avatar_id: String,
    pub persona_car_name: String,
    pub persona_ids: Vec<String>,
    pub carslots_xml: String,
    pub event_id: i32,
    pub in_safehouse: bool,
    pub treasure_collected: i32,
    pub treasure_total: i32,
    pub treasure_day: i32,
    pub logged_persona_id: String,
}

/// The mathematical value of a [`GameState`].
pub struct GameStateView {
    pub server_name: Seq<char>,
    pub persona_name: Seq<char>,
    pub persona_level: Seq<char>,
    pub persona_avatar_id: Seq<char>,
    pub persona_car_name: Seq<char>,
    pub persona_ids: Seq<Seq<char>>,
    pub carslots_xml: Seq<char>,
    pub event_id: i32,
    pub in_safehouse: bool,
    pub treasure_collected: i32,
    pub treasure_total: i32,
    pub treasure_day: i32,
    pub logged_persona_id: Seq<char>,
}

impl View for GameState {
    type V = GameStateView;

    open spec fn view(&self) -> GameStateView {
        GameStateView {
            server_name: self.server_name@,
            persona_name: self.persona_name@,
            persona_level: self.persona_level@,
            persona_avatar_id: self.persona_avatar_id@,
            persona_car_name: self.persona_car_name@,
            persona_ids: views_of(self.persona_ids@),
            carslots_xml: self.carslots_xml@,
            event_id: self.event_id,
            in_safehouse: self.in_safehouse,
            treasure_collected: self.treasure_collected,
            treasure_total: self.treasure_total,
            treasure_day: self.treasure_day,
            logged_persona_id: self.logged_persona_id@,
        }
    }
}

/// The state before any answer was seen: everything empty, 15 treasure coins.
pub open spec fn initial_state() -> GameStateView {
    GameStateView {
        server_name: Seq::empty(),
        persona_name: Seq::empty(),
        persona_level: Seq::empty(),
        persona_avatar_id: Seq::empty(),
        persona_car_name: Seq::empty(),
        persona_ids: Seq::empty(),
        carslots_xml: Seq::empty(),
        event_id: 0,
        in_safehouse: false,
        treasure_collected: 0,
        treasure_total: 15,
        treasure_day: 0,
        logged_persona_id: Seq::empty(),
    }
}

impl Default for GameState {
    fn default() -> (r: GameState)
        ensures
            r@ == initial_state(),
    {
        let r = GameState {
            server_name: String::new(),
            persona_name: String::new(),
            persona_level: String::new(),
            persona_avatar_id: String::new(),
            persona_car_name: String::new(),
            persona_ids: Vec::new(),
            carslots_xml: String::new(),
            event_id: 0,
            in_safehouse: false,
            treasure_collected: 0,
            treasure_total: 15,
            treasure_day: 0,
            logged_persona_id: String::new(),
        };
        assert(views_of(r.persona_ids@) == Seq::<Seq<char>>::empty());
        r
    }
}

/// The session tracker: the game state once the game was launched, and whether the
/// server's category allows rich-presence updates.
#[derive(Debug)]
pub struct GameSession {
    pub state: Option<GameState>,
    pub rpc_enabled: bool,
}

impl GameSession {
    /// No game state yet, updates allowed.
    pub fn new() -> (r: GameSession)
        ensures
            r.state is None,
            r.rpc_enabled,
    {
        GameSession { state: None, rpc_enabled: true }
    }
}

/// A rich-presence activity to show: what `discord_rpc_update` is called with.
#[derive(Debug)]
pub struct RpcActivity {
    pub state: String,
    pub details: String,
    pub large_image: String,
    pub large_text: String,
    pub small_image: String,
    pub small_text: String,
    pub button1_label: String,
    pub button1_url: String,
}

pub struct RpcActivityView {
    pub state: Seq<char>,
    pub details: Seq<char>,
    pub large_image: Seq<char>,
    pub large_text: Seq<char>,
    pub small_image: Seq<char>,
    pub small_text: Seq<char>,
    pub button1_label: Seq<char>,
    pub button1_url: Seq<char>,
}

impl View for RpcActivity {
    type V = RpcActivityView;

    open spec fn view(&self) -> RpcActivityView {
        RpcActivityView {
            state: self.state@,
            details: self.details@,
            large_image: self.large_image@,
            large_text: self.large_text@,
            small_image: self.small_image@,
            small_text: self.small_text@,
            button1_label: self.button1_label@,
            button1_url: self.button1_url@,
        }
    }
}

pub open spec fn activity_view(a: Option<RpcActivity>) -> Option<RpcActivityView> {
    match a {
        Some(x) => Some(x@),
        None => None,
    }
}

/// The activity that a presence update shows, or none when updates are disabled.
pub open spec fn rpc_activity(
    enabled: bool,
    details: Seq<char>,
    server_name: Seq<char>,
    persona_name: Seq<char>,
    persona_level: Seq<char>,
    persona_avatar: Seq<char>,
    small_text: Seq<char>,
    small_image: Seq<char>,
) -> Option<RpcActivityView> {
    if !enabled {
        None
    } else {
        Some(
            RpcActivityView {
                state: server_name,
                details,
                large_image: if persona_avatar.len() != 0 {
                    persona_avatar
                } else {
                    "nfsw"@
                },
                large_text: if persona_name.len() != 0 {
                    persona_name + " - Level: "@ + persona_level
                } else {
                    "Need for Speed: World"@
                },
                small_image,
                small_text,
                button1_label: "Project site"@,
                button1_url: "https://soapboxrace.world"@,
            },
        )
    }
}

/// Builds the activity for a presence update; none when updates are disabled.
pub fn update_rpc(
    enabled: bool,
    details: &str,
    server_name: &str,
    persona_name: &str,
    persona_level: &str,
    persona_avatar: &str,
    small_text: &str,
    small_image: &str,
) -> (r: Option<RpcActivity>)
    ensures
        activity_view(r) == rpc_activity(
            enabled,
            details@,
            server_name@,
            persona_name@,
            persona_level@,
            persona_avatar@,
            small_text@,
            small_image@,
        ),
{
    if !enabled {
        return None;
    }
    let large_text = if !persona_name.is_empty() {
        let mut t = String::new();
        push_str(&mut t, persona_name);
        push_str(&mut t, " - Level: ");
        push_str(&mut t, persona_level);
        t
    } else {
        string_of(chars_of("Need for Speed: World").as_slice())
    };
    let large_image = if !persona_avatar.is_empty() {
        string_of(chars_of(persona_avatar).as_slice())
    } else {
        string_of(chars_of("nfsw").as_slice())
    };
    Some(
        RpcActivity {
            state: string_of(chars_of(server_name).as_slice()),
            details: string_of(chars_of(details).as_slice()),
            large_image,
            large_text,
            small_image: string_of(chars_of(small_image).as_slice()),
            small_text: string_of(chars_of(small_text).as_slice()),
            button1_label: string_of(chars_of("Project site").as_slice()),
            button1_url: string_of(chars_of("https://soapboxrace.world").as_slice()),
        },
    )
}


// ---------------------------------------------------------------------------
// Routing the game server's answers
// ---------------------------------------------------------------------------

/// The request path without the `/nfsw/Engine.svc` or `/Engine.svc` prefix.
pub open spec fn engine_uri(path: Seq<char>) -> Seq<char> {
    match strip_prefix_seq(path, "/nfsw/Engine.svc"@) {
        Some(r) => r,
        None => match strip_prefix_seq(path, "/Engine.svc"@) {
            Some(r) => r,
            None => path,
        },
    }
}

/// The kinds of answers the tracker reacts to.
pub enum Route {
    PermanentSession,
    LoginPersona,
    LogoutPersona,
    PersonaInfo,
    Presence,
    TreasureSession,
    CoinCollected,
    BackToFreeroam,
    AcceptInvite,
    JoinQueue,
    LaunchEvent,
    EventLaunched,
    EventArbitration,
    Other,
}

pub open spec fn route_of(uri: Seq<char>) -> Route {
    if uri == "/User/GetPermanentSession"@ {
        Route::PermanentSession
    } else if uri == "/User/SecureLoginPersona"@ {
        Route::LoginPersona
    } else if uri == "/User/SecureLogoutPersona"@ {
        Route::LogoutPersona
    } else if uri == "/DriverPersona/GetPersonaInfo"@ {
        Route::PersonaInfo
    } else if uri == "/DriverPersona/UpdatePersonaPresence"@ {
        Route::Presence
    } else if uri == "/events/gettreasurehunteventsession"@ {
        Route::TreasureSession
    } else if uri == "/events/notifycoincollected"@ {
        Route::CoinCollected
    } else if uri == "/matchmaking/leavelobby"@ || uri == "/matchmaking/declineinvite"@ {
        Route::BackToFreeroam
    } else if uri == "/matchmaking/acceptinvite"@ {
        Route::AcceptInvite
    } else if uri == "/matchmaking/joinqueueracenow"@ {
        Route::JoinQueue
    } else if has_prefix(uri, "/matchmaking/launchevent"@) {
        Route::LaunchEvent
    } else if uri == "/event/launched"@ {
        Route::EventLaunched
    } else if uri == "/event/arbitration"@ {
        Route::EventArbitration
    } else {
        Route::Other
    }
}

/// The names that the car and event lookups gave for what [`name_key`] asked.
#[derive(Debug)]
pub struct ResolvedNames {
    pub car_name: String,
    pub event_name: String,
    pub event_type: String,
}

/// Which name an answer needs looked up before it can be applied.
#[derive(Debug)]
pub enum NameRequest {
    Nothing,
    Car(String),
    Event(u32),
}

pub enum NameKey {
    Nothing,
    Car(Seq<char>),
    Event(u32),
}

pub open spec fn name_request_view(r: NameRequest) -> NameKey {
    match r {
        NameRequest::Nothing => NameKey::Nothing,
        NameRequest::Car(c) => NameKey::Car(c@),
        NameRequest::Event(e) => NameKey::Event(e),
    }
}

/// The persona id of a login request: the text after the last `=` of the last `&` piece.
pub open spec fn login_persona_id(query: Seq<char>) -> Seq<char> {
    split_char(split_char(query, '&').last(), '=').last()
}

/// The rest of the first piece that starts with `prefix`.
pub open spec fn first_with_prefix(pieces: Seq<Seq<char>>, prefix: Seq<char>) -> Option<Seq<char>>
    decreases pieces.len(),
{
    if pieces.len() == 0 {
        None
    } else {
        match strip_prefix_seq(pieces[0], prefix) {
            Some(r) => Some(r),
            None => first_with_prefix(pieces.drop_first(), prefix),
        }
    }
}

/// The `presence=` value of a presence update, `0` when absent.
pub open spec fn presence_value(query: Seq<char>) -> Seq<char> {
    match first_with_prefix(split_char(query, '&'), "presence="@) {
        Some(v) => v,
        None => "0"@,
    }
}

/// The state after a `GetPermanentSession` answer.
pub open spec fn after_permanent_session(s: GameStateView, body: Seq<char>) -> GameStateView {
    match permanent_session(body) {
        Some((name, level, avatar, pid)) => {
            let ids = persona_ids_from(body, 0);
            GameStateView {
                persona_name: name,
                persona_level: level,
                persona_avatar_id: "avatar_"@ + avatar,
                persona_ids: if ids.contains(pid) {
                    ids
                } else {
                    ids.push(pid)
                },
                ..s
            }
        },
        None => s,
    }
}

/// The state after a logout: persona, car, garage, coins and login forgotten.
pub open spec fn after_logout(s: GameStateView) -> GameStateView {
    GameStateView {
        persona_name: Seq::empty(),
        persona_level: Seq::empty(),
        persona_avatar_id: Seq::empty(),
        persona_car_name: Seq::empty(),
        carslots_xml: Seq::empty(),
        treasure_collected: 0,
        logged_persona_id: Seq::empty(),
        ..s
    }
}

/// The state after a `GetPersonaInfo` answer: taken over only for the logged-in persona
/// (or when none is logged in).
pub open spec fn after_persona_info(s: GameStateView, body: Seq<char>) -> GameStateView {
    match persona_info(body) {
        Some((name, level, avatar, pid)) => if s.logged_persona_id.len() == 0 || pid
            == s.logged_persona_id {
            GameStateView {
                persona_name: name,
                persona_level: level,
                persona_avatar_id: "avatar_"@ + avatar,
                logged_persona_id: pid,
                ..s
            }
        } else {
            s
        },
        None => s,
    }
}

/// A `/personas/<id>/carslots` or `/personas/<id>/defaultcar/<car>` path (any case).
pub open spec fn garage_action(uri: Seq<char>) -> int {
    let parts = split_char(uri, '/');
    if parts.len() >= 4 && eq_ignore_ascii_case(parts[1], "personas"@) {
        if eq_ignore_ascii_case(parts[3], "carslots"@) {
            1
        } else if eq_ignore_ascii_case(parts[3], "defaultcar"@) && parts.len() >= 5 {
            2
        } else {
            0
        }
    } else {
        0
    }
}

/// The car whose name a garage answer needs.
pub open spec fn garage_car(s: GameStateView, uri: Seq<char>, body: Seq<char>) -> Option<
    Seq<char>,
> {
    if garage_action(uri) == 1 {
        default_car(body)
    } else if garage_action(uri) == 2 {
        car_by_id_from(s.carslots_xml, split_char(uri, '/')[4], 0)
    } else {
        None
    }
}

/// The state after a garage answer, `car_name` being the name found for [`garage_car`].
pub open spec fn after_garage(
    s: GameStateView,
    uri: Seq<char>,
    body: Seq<char>,
    car_name: Seq<char>,
) -> GameStateView {
    let s1 = if garage_action(uri) == 1 {
        GameStateView { carslots_xml: body, ..s }
    } else {
        s
    };
    if garage_car(s, uri, body) is Some {
        GameStateView { persona_car_name: car_name, ..s1 }
    } else {
        s1
    }
}

/// The event id of a `launchevent` request: the third path piece if it is a number.
pub open spec fn launch_event_id(s: GameStateView, uri: Seq<char>) -> i32 {
    let parts = split_char(uri, '/');
    if parts.len() > 3 && parse_i32_spec(parts[3]) is Some {
        parse_i32_spec(parts[3])->0
    } else {
        s.event_id
    }
}

/// The name to look up before an answer is applied.
pub open spec fn name_key(s: GameStateView, path: Seq<char>, body: Seq<char>) -> NameKey {
    let uri = engine_uri(path);
    match route_of(uri) {
        Route::AcceptInvite => match lobby_event_id(body) {
            Some(e) => NameKey::Event(e as u32),
            None => NameKey::Nothing,
        },
        Route::LaunchEvent => NameKey::Event(launch_event_id(s, uri) as u32),
        Route::EventLaunched => NameKey::Event(s.event_id as u32),
        Route::EventArbitration => NameKey::Event(s.event_id as u32),
        Route::Other => match garage_car(s, uri, body) {
            Some(c) => NameKey::Car(c),
            None => NameKey::Nothing,
        },
        _ => NameKey::Nothing,
    }
}

/// The activity shown with the state's persona and server.
pub open spec fn activity_of(
    s: GameStateView,
    enabled: bool,
    details: Seq<char>,
    small_text: Seq<char>,
    small_image: Seq<char>,
) -> Option<RpcActivityView> {
    rpc_activity(
        enabled,
        details,
        s.server_name,
        s.persona_name,
        s.persona_level,
        s.persona_avatar_id,
        small_text,
        small_image,
    )
}

/// The current car's name, or `default` when none is known.
pub open spec fn car_or(s: GameStateView, default: Seq<char>) -> Seq<char> {
    if s.persona_car_name.len() == 0 {
        default
    } else {
        s.persona_car_name
    }
}

/// What a shop request in the safehouse is doing, from the catalog named in the query.
pub open spec fn catalog_detail(query: Seq<char>) -> Option<Seq<char>> {
    if contains_seq(query, "NFSW_NA_EP_VINYLS_Category"@) {
        Some("Creating a livery"@)
    } else if contains_seq(query, "PAINTS_BODY"@) {
        Some("Painting a car"@)
    } else if contains_seq(query, "PERFORMANCEPART"@) {
        Some("Tuning a car"@)
    } else if contains_seq(query, "VISUALPART"@) {
        Some("Ricing a car"@)
    } else if contains_seq(query, "SKILLMODPART"@) {
        Some("Skillmodding a car (skill issue)"@)
    } else if contains_seq(query, "PRESETCAR"@) {
        Some("Purchasing a car"@)
    } else if contains_seq(query, "BoosterPacks"@) {
        Some("Opening cardpacks"@)
    } else {
        None
    }
}

/// The coin counter after one more coin (wrapping around as a release build does).
pub open spec fn next_coin_count(c: i32) -> i32 {
    if c == i32::MAX {
        i32::MIN
    } else {
        (c + 1) as i32
    }
}

/// The gem counter text of a collected coin.
pub open spec fn coin_detail(collected: i32, total: i32) -> Seq<char> {
    (if collected >= total {
        "Finished collecting gems ("@
    } else {
        "Collecting gems ("@
    }) + signed_decimal(collected as int) + " of "@ + signed_decimal(total as int) + ")"@
}

/// The gem count reads as finished once the collected gems reach the total (the coin that
/// brings the count to the total included), and as still collecting only below it.
pub proof fn law_coin_detail_finished(collected: i32, total: i32)
    ensures
        collected >= total ==> "Finished collecting gems ("@.is_prefix_of(coin_detail(collected, total)),
        collected < total ==> "Collecting gems ("@.is_prefix_of(coin_detail(collected, total)),
        collected < total ==> !"Finished collecting gems ("@.is_prefix_of(coin_detail(collected, total)),
{
    reveal_strlit("Finished collecting gems (");
    reveal_strlit("Collecting gems (");
    let d = coin_detail(collected, total);
    if collected >= total {
        let h = "Finished collecting gems ("@;
        assert(d.subrange(0, h.len() as int) =~= h);
    } else {
        let h = "Collecting gems ("@;
        assert(d.subrange(0, h.len() as int) =~= h);
        assert(d[0] == 'C');
    }
}

/// The answer to a collected coin is routed as one.
proof fn lemma_coin_route()
    ensures
        route_of("/events/notifycoincollected"@) == Route::CoinCollected,
{
    reveal_strlit("/User/GetPermanentSession");
    reveal_strlit("/User/SecureLoginPersona");
    reveal_strlit("/User/SecureLogoutPersona");
    reveal_strlit("/DriverPersona/GetPersonaInfo");
    reveal_strlit("/DriverPersona/UpdatePersonaPresence");
    reveal_strlit("/events/gettreasurehunteventsession");
    reveal_strlit("/events/notifycoincollected");
    assert("/events/notifycoincollected"@ != "/User/GetPermanentSession"@) by { assert("/events/notifycoincollected"@.len() != "/User/GetPermanentSession"@.len()); }
    assert("/events/notifycoincollected"@ != "/User/SecureLoginPersona"@) by { assert("/events/notifycoincollected"@.len() != "/User/SecureLoginPersona"@.len()); }
    assert("/events/notifycoincollected"@ != "/User/SecureLogoutPersona"@) by { assert("/events/notifycoincollected"@.len() != "/User/SecureLogoutPersona"@.len()); }
    assert("/events/notifycoincollected"@ != "/DriverPersona/GetPersonaInfo"@) by { assert("/events/notifycoincollected"@.len() != "/DriverPersona/GetPersonaInfo"@.len()); }
    assert("/events/notifycoincollected"@ != "/DriverPersona/UpdatePersonaPresence"@) by { assert("/events/notifycoincollected"@.len() != "/DriverPersona/UpdatePersonaPresence"@.len()); }
    assert("/events/notifycoincollected"@ != "/events/gettreasurehunteventsession"@) by { assert("/events/notifycoincollected"@.len() != "/events/gettreasurehunteventsession"@.len()); }
}

/// A collected coin counts one more gem of the same hunt, and the activity then shows the hunt
/// as finished exactly when the count has reached the total (the coin that brings it to the
/// total included), and as still collecting below it.
pub proof fn law_coin_collected(
    s: GameStateView,
    enabled: bool,
    query: Seq<char>,
    body: Seq<char>,
    car_name: Seq<char>,
    event_name: Seq<char>,
    event_type: Seq<char>,
)
    ensures
        s.treasure_collected < i32::MAX ==> respond_uri(s, enabled, "/events/notifycoincollected"@, query, body, car_name, event_name, event_type).0.treasure_collected == s.treasure_collected + 1,
        respond_uri(s, enabled, "/events/notifycoincollected"@, query, body, car_name, event_name, event_type).0.treasure_total == s.treasure_total,
        respond_uri(s, enabled, "/events/notifycoincollected"@, query, body, car_name, event_name, event_type).0.treasure_day == s.treasure_day,
        enabled ==> respond_uri(s, enabled, "/events/notifycoincollected"@, query, body, car_name, event_name, event_type).1 is Some,
        respond_uri(s, enabled, "/events/notifycoincollected"@, query, body, car_name, event_name, event_type).1 matches Some(a) ==> (respond_uri(s, enabled, "/events/notifycoincollected"@, query, body, car_name, event_name, event_type).0.treasure_collected >= s.treasure_total
            <==> "Finished collecting gems ("@.is_prefix_of(a.details)),
        respond_uri(s, enabled, "/events/notifycoincollected"@, query, body, car_name, event_name, event_type).1 matches Some(a) ==> (respond_uri(s, enabled, "/events/notifycoincollected"@, query, body, car_name, event_name, event_type).0.treasure_collected < s.treasure_total
            ==> "Collecting gems ("@.is_prefix_of(a.details)),
{
    lemma_coin_route();
    let c = next_coin_count(s.treasure_collected);
    law_coin_detail_finished(c, s.treasure_total);
}

/// How one answer of the game server changes the state, and which activity it shows.
pub open spec fn respond(
    s: GameStateView,
    enabled: bool,
    path: Seq<char>,
    query: Seq<char>,
    body: Seq<char>,
    car_name: Seq<char>,
    event_name: Seq<char>,
    event_type: Seq<char>,
) -> (GameStateView, Option<RpcActivityView>) {
    respond_uri(s, enabled, engine_uri(path), query, body, car_name, event_name, event_type)
}

/// [`respond`] for the path without its service prefix.
pub open spec fn respond_uri(
    s: GameStateView,
    enabled: bool,
    uri: Seq<char>,
    query: Seq<char>,
    body: Seq<char>,
    car_name: Seq<char>,
    event_name: Seq<char>,
    event_type: Seq<char>,
) -> (GameStateView, Option<RpcActivityView>) {
    match route_of(uri) {
        Route::PermanentSession => (after_permanent_session(s, body), None),
        Route::LoginPersona => (
            GameStateView { logged_persona_id: login_persona_id(query), ..s },
            None,
        ),
        Route::LogoutPersona => (after_logout(s), None),
        Route::PersonaInfo => (after_persona_info(s, body), None),
        Route::Presence => if presence_value(query) == "1"@ {
            let s1 = GameStateView { in_safehouse: false, ..s };
            (
                s1,
                activity_of(
                    s1,
                    enabled,
                    "Driving "@ + car_or(s1, "Unknown car"@),
                    "Freeroaming"@,
                    "gamemode_freeroam"@,
                ),
            )
        } else {
            let s1 = GameStateView { in_safehouse: true, ..s };
            (
                s1,
                activity_of(s1, enabled, "In safehouse"@, "In safehouse"@, "gamemode_safehouse"@),
            )
        },
        Route::TreasureSession => match treasure_hunt(body) {
            Some((c, t, d)) => (
                GameStateView { treasure_collected: c, treasure_total: t, treasure_day: d, ..s },
                None,
            ),
            None => (s, None),
        },
        Route::CoinCollected => {
            let c = next_coin_count(s.treasure_collected);
            let s1 = GameStateView { treasure_collected: c, ..s };
            (
                s1,
                activity_of(
                    s1,
                    enabled,
                    coin_detail(c, s1.treasure_total),
                    "Treasure hunt - Day: "@ + signed_decimal(s1.treasure_day as int),
                    "gamemode_treasure"@,
                ),
            )
        },
        Route::BackToFreeroam => (
            s,
            activity_of(
                s,
                enabled,
                "Driving "@ + car_or(s, "Unknown Car"@),
                "Freeroaming"@,
                "gamemode_freeroam"@,
            ),
        ),
        Route::AcceptInvite => match lobby_event_id(body) {
            Some(e) => {
                let s1 = GameStateView { event_id: e, ..s };
                (
                    s1,
                    activity_of(
                        s1,
                        enabled,
                        "In Lobby: "@ + event_name,
                        "In multiplayer lobby"@,
                        event_type,
                    ),
                )
            },
            None => (s, None),
        },
        Route::JoinQueue => (
            s,
            activity_of(s, enabled, "Searching for event"@, "Freeroaming"@, "gamemode_freeroam"@),
        ),
        Route::LaunchEvent => {
            let s1 = GameStateView { event_id: launch_event_id(s, uri), ..s };
            (
                s1,
                activity_of(s1, enabled, "Loading: "@ + event_name, "Loading event"@, event_type),
            )
        },
        Route::EventLaunched => (
            s,
            activity_of(s, enabled, "Racing: "@ + event_name, "In event"@, event_type),
        ),
        Route::EventArbitration => (
            s,
            activity_of(s, enabled, "Finished: "@ + event_name, "Finished event"@, event_type),
        ),
        Route::Other => {
            let s1 = after_garage(s, uri, body, car_name);
            (
                s1,
                if contains_seq(uri, "catalog"@) && s1.in_safehouse {
                    match catalog_detail(query) {
                        Some(d) => activity_of(
                            s1,
                            enabled,
                            d,
                            "In safehouse"@,
                            "gamemode_safehouse"@,
                        ),
                        None => None,
                    }
                } else {
                    None
                },
            )
        },
    }
}


// ---------------------------------------------------------------------------
// Applying an answer
// ---------------------------------------------------------------------------

fn lit(s: &str) -> (r: Vec<char>)
    ensures
        r@ == s@,
{
    chars_of(s)
}

fn is_lit(a: &[char], s: &str) -> (r: bool)
    ensures
        r == (a@ == s@),
{
    let l = chars_of(s);
    chars_eq(a, l.as_slice())
}

fn strip_prefix_chars(s: &[char], p: &[char]) -> (r: Option<Vec<char>>)
    ensures
        match r {
            Some(v) => strip_prefix_seq(s@, p@) == Some(v@),
            None => strip_prefix_seq(s@, p@) is None,
        },
{
    if starts_with_chars(s, p) {
        let v = slice_to_vec(s, p.len(), s.len());
        assert(v@ == s@.skip(p@.len() as int));
        Some(v)
    } else {
        None
    }
}

/// The request path without the game's service prefix.
pub fn engine_uri_chars(path: &[char]) -> (r: Vec<char>)
    ensures
        r@ == engine_uri(path@),
{
    match strip_prefix_chars(path, lit("/nfsw/Engine.svc").as_slice()) {
        Some(r) => r,
        None => match strip_prefix_chars(path, lit("/Engine.svc").as_slice()) {
            Some(r) => r,
            None => slice_to_vec(path, 0, path.len()),
        },
    }
}

/// Which kind of answer a path is.
pub fn route_of_uri(uri: &[char]) -> (r: Route)
    ensures
        r == route_of(uri@),
{
    if is_lit(uri, "/User/GetPermanentSession") {
        Route::PermanentSession
    } else if is_lit(uri, "/User/SecureLoginPersona") {
        Route::LoginPersona
    } else if is_lit(uri, "/User/SecureLogoutPersona") {
        Route::LogoutPersona
    } else if is_lit(uri, "/DriverPersona/GetPersonaInfo") {
        Route::PersonaInfo
    } else if is_lit(uri, "/DriverPersona/UpdatePersonaPresence") {
        Route::Presence
    } else if is_lit(uri, "/events/gettreasurehunteventsession") {
        Route::TreasureSession
    } else if is_lit(uri, "/events/notifycoincollected") {
        Route::CoinCollected
    } else if is_lit(uri, "/matchmaking/leavelobby") || is_lit(uri, "/matchmaking/declineinvite") {
        Route::BackToFreeroam
    } else if is_lit(uri, "/matchmaking/acceptinvite") {
        Route::AcceptInvite
    } else if is_lit(uri, "/matchmaking/joinqueueracenow") {
        Route::JoinQueue
    } else if starts_with_chars(uri, lit("/matchmaking/launchevent").as_slice()) {
        Route::LaunchEvent
    } else if is_lit(uri, "/event/launched") {
        Route::EventLaunched
    } else if is_lit(uri, "/event/arbitration") {
        Route::EventArbitration
    } else {
        Route::Other
    }
}

fn login_persona_id_exec(query: &[char]) -> (r: String)
    ensures
        r@ == login_persona_id(query@),
{
    proof {
        lemma_split_nonempty(query@, '&');
    }
    let pieces = split_chars(query, '&');
    let last = &pieces[pieces.len() - 1];
    proof {
        lemma_split_nonempty(last@, '=');
    }
    let kv = split_chars(last.as_slice(), '=');
    string_of(kv[kv.len() - 1].as_slice())
}

fn presence_value_exec(query: &[char]) -> (r: Vec<char>)
    ensures
        r@ == presence_value(query@),
{
    let pieces = split_chars(query, '&');
    let prefix = lit("presence=");
    let ghost ps = split_char(query@, '&');
    let mut i: usize = 0;
    assert(ps.skip(0) == ps);
    while i < pieces.len()
        invariant
            ps == split_char(query@, '&'),
            pieces@.len() == ps.len(),
            forall|j: int| 0 <= j < ps.len() ==> #[trigger] pieces@[j]@ == ps[j],
            prefix@ == "presence="@,
            i <= ps.len(),
            first_with_prefix(ps, prefix@) == first_with_prefix(ps.skip(i as int), prefix@),
        decreases ps.len() - i,
    {
        proof {
            assert(ps.skip(i as int).drop_first() == ps.skip(i + 1));
            assert(ps.skip(i as int)[0] == ps[i as int]);
        }
        match strip_prefix_chars(pieces[i].as_slice(), prefix.as_slice()) {
            Some(v) => {
                assert(first_with_prefix(ps.skip(i as int), prefix@) == Some(v@));
                assert(first_with_prefix(ps, prefix@) == Some(v@));
                return v;
            },
            None => {},
        }
        i = i + 1;
    }
    assert(ps.skip(i as int).len() == 0);
    lit("0")
}

fn contains_str(ids: &Vec<String>, p: &str) -> (r: bool)
    ensures
        r == views_of(ids@).contains(p@),
{
    let mut i: usize = 0;
    while i < ids.len()
        invariant
            i <= ids@.len(),
            forall|j: int| 0 <= j < i ==> ids@[j]@ != p@,
        decreases ids@.len() - i,
    {
        if str_eq(ids[i].as_str(), p) {
            assert(views_of(ids@)[i as int] == p@);
            return true;
        }
        i = i + 1;
    }
    assert(!views_of(ids@).contains(p@)) by {
        if views_of(ids@).contains(p@) {
            let j = choose|j: int| 0 <= j < views_of(ids@).len() && views_of(ids@)[j] == p@;
            assert(ids@[j]@ == p@);
        }
    }
    false
}

fn apply_permanent_session(st: &mut GameState, body: &str)
    ensures
        final(st)@ == after_permanent_session(old(st)@, body@),
{
    match parse_permanent_session(body) {
        Some((name, level, avatar, pid)) => {
            st.persona_name = name;
            st.persona_level = level;
            st.persona_avatar_id = concat2("avatar_", avatar.as_str());
            let mut ids = parse_all_persona_ids(body);
            if !contains_str(&ids, pid.as_str()) {
                let ghost before = ids@;
                ids.push(pid);
                assert(views_of(ids@) == views_of(before).push(pid@));
            }
            st.persona_ids = ids;
        },
        None => {},
    }
}

fn apply_logout(st: &mut GameState)
    ensures
        final(st)@ == after_logout(old(st)@),
{
    st.persona_name = String::new();
    st.persona_level = String::new();
    st.persona_avatar_id = String::new();
    st.persona_car_name = String::new();
    st.carslots_xml = String::new();
    st.treasure_collected = 0;
    st.logged_persona_id = String::new();
}

fn apply_persona_info(st: &mut GameState, body: &str)
    ensures
        final(st)@ == after_persona_info(old(st)@, body@),
{
    match parse_persona_info(body) {
        Some((name, level, avatar, pid)) => {
            if st.logged_persona_id.as_str().is_empty() || str_eq(pid.as_str(), st.logged_persona_id.as_str()) {
                st.persona_name = name;
                st.persona_level = level;
                st.persona_avatar_id = concat2("avatar_", avatar.as_str());
                st.logged_persona_id = pid;
            }
        },
        None => {},
    }
}

/// `1` for car slots, `2` for a default-car change, `0` otherwise; with the path pieces.
fn garage_action_exec(uri: &[char]) -> (r: (u8, Vec<Vec<char>>))
    ensures
        r.0 as int == garage_action(uri@),
        r.1@.len() == split_char(uri@, '/').len(),
        forall|j: int| 0 <= j < r.1@.len() ==> #[trigger] r.1@[j]@ == split_char(uri@, '/')[j],
{
    let parts = split_chars(uri, '/');
    let mut action: u8 = 0;
    if parts.len() >= 4 && eq_ignore_case_chars(parts[1].as_slice(), lit("personas").as_slice()) {
        if eq_ignore_case_chars(parts[3].as_slice(), lit("carslots").as_slice()) {
            action = 1;
        } else if eq_ignore_case_chars(parts[3].as_slice(), lit("defaultcar").as_slice())
            && parts.len() >= 5 {
            action = 2;
        }
    }
    (action, parts)
}

fn garage_car_exec(st: &GameState, uri: &[char], body: &str) -> (r: Option<String>)
    ensures
        match r {
            Some(c) => garage_car(st@, uri@, body@) == Some(c@),
            None => garage_car(st@, uri@, body@) is None,
        },
{
    let (action, parts) = garage_action_exec(uri);
    if action == 1 {
        parse_default_car(body)
    } else if action == 2 {
        let id = string_of(parts[4].as_slice());
        find_car_by_id(st.carslots_xml.as_str(), id.as_str())
    } else {
        None
    }
}

fn launch_event_id_exec(st: &GameState, uri: &[char]) -> (r: i32)
    ensures
        r == launch_event_id(st@, uri@),
{
    let parts = split_chars(uri, '/');
    if parts.len() > 3 {
        match parse_i32(parts[3].as_slice()) {
            Some(e) => e,
            None => st.event_id,
        }
    } else {
        st.event_id
    }
}

/// The name (car or event) to look up before [`handle_game_response`] applies an answer.
pub fn name_request(session: &GameSession, path: &str, response_body: &str) -> (r: NameRequest)
    ensures
        match session.state {
            Some(st) => name_request_view(r) == name_key(st@, path@, response_body@),
            None => r is Nothing,
        },
{
    let st = match &session.state {
        Some(st) => st,
        None => return NameRequest::Nothing,
    };
    let p = chars_of(path);
    let uri = engine_uri_chars(p.as_slice());
    match route_of_uri(uri.as_slice()) {
        Route::AcceptInvite => match parse_event_id_from_lobby(response_body) {
            Some(e) => NameRequest::Event(e as u32),
            None => NameRequest::Nothing,
        },
        Route::LaunchEvent => NameRequest::Event(launch_event_id_exec(st, uri.as_slice()) as u32),
        Route::EventLaunched => NameRequest::Event(st.event_id as u32),
        Route::EventArbitration => NameRequest::Event(st.event_id as u32),
        Route::Other => match garage_car_exec(st, uri.as_slice(), response_body) {
            Some(c) => NameRequest::Car(c),
            None => NameRequest::Nothing,
        },
        _ => NameRequest::Nothing,
    }
}

fn show(st: &GameState, enabled: bool, details: &str, small_text: &str, small_image: &str) -> (r:
    Option<RpcActivity>)
    ensures
        activity_view(r) == activity_of(st@, enabled, details@, small_text@, small_image@),
{
    update_rpc(
        enabled,
        details,
        st.server_name.as_str(),
        st.persona_name.as_str(),
        st.persona_level.as_str(),
        st.persona_avatar_id.as_str(),
        small_text,
        small_image,
    )
}

fn catalog_detail_exec(query: &str) -> (r: Option<&'static str>)
    ensures
        match r {
            Some(d) => catalog_detail(query@) == Some(d@),
            None => catalog_detail(query@) is None,
        },
{
    if str_contains(query, "NFSW_NA_EP_VINYLS_Category") {
        Some("Creating a livery")
    } else if str_contains(query, "PAINTS_BODY") {
        Some("Painting a car")
    } else if str_contains(query, "PERFORMANCEPART") {
        Some("Tuning a car")
    } else if str_contains(query, "VISUALPART") {
        Some("Ricing a car")
    } else if str_contains(query, "SKILLMODPART") {
        Some("Skillmodding a car (skill issue)")
    } else if str_contains(query, "PRESETCAR") {
        Some("Purchasing a car")
    } else if str_contains(query, "BoosterPacks") {
        Some("Opening cardpacks")
    } else {
        None
    }
}

fn coin_detail_exec(collected: i32, total: i32) -> (r: String)
    ensures
        r@ == coin_detail(collected, total),
{
    let mut d = if collected >= total {
        string_of(lit("Finished collecting gems (").as_slice())
    } else {
        string_of(lit("Collecting gems (").as_slice())
    };
    push_str(&mut d, i32_to_string(collected).as_str());
    push_str(&mut d, " of ");
    push_str(&mut d, i32_to_string(total).as_str());
    push_str(&mut d, ")");
    d
}

/// The part of an answer's handling that depends on its route; `uri` is its path without
/// the service prefix.
fn respond_route(
    st: &mut GameState,
    enabled: bool,
    uri: &[char],
    route: Route,
    query: &str,
    body: &str,
    names: &ResolvedNames,
) -> (r: Option<RpcActivity>)
    requires
        route == route_of(uri@),
    ensures
        (final(st)@, activity_view(r)) == respond_uri(
            old(st)@,
            enabled,
            uri@,
            query@,
            body@,
            names.car_name@,
            names.event_name@,
            names.event_type@,
        ),
{
    let q = chars_of(query);
    match route {
        Route::PermanentSession => {
            apply_permanent_session(st, body);
            None
        },
        Route::LoginPersona => {
            st.logged_persona_id = login_persona_id_exec(q.as_slice());
            None
        },
        Route::LogoutPersona => {
            apply_logout(st);
            None
        },
        Route::PersonaInfo => {
            apply_persona_info(st, body);
            None
        },
        Route::Presence => respond_presence(st, enabled, q.as_slice()),
        Route::TreasureSession => {
            match parse_treasure_hunt(body) {
                Some((c, t, d)) => {
                    st.treasure_collected = c;
                    st.treasure_total = t;
                    st.treasure_day = d;
                },
                None => {},
            }
            None
        },
        Route::CoinCollected => respond_coin(st, enabled),
        Route::BackToFreeroam => {
            let car = if st.persona_car_name.as_str().is_empty() {
                string_of(lit("Unknown Car").as_slice())
            } else {
                string_of(chars_of(st.persona_car_name.as_str()).as_slice())
            };
            let details = concat2("Driving ", car.as_str());
            show(st, enabled, details.as_str(), "Freeroaming", "gamemode_freeroam")
        },
        Route::AcceptInvite => {
            match parse_event_id_from_lobby(body) {
                Some(e) => {
                    st.event_id = e;
                    let details = concat2("In Lobby: ", names.event_name.as_str());
                    show(
                        st,
                        enabled,
                        details.as_str(),
                        "In multiplayer lobby",
                        names.event_type.as_str(),
                    )
                },
                None => None,
            }
        },
        Route::JoinQueue => show(
            st,
            enabled,
            "Searching for event",
            "Freeroaming",
            "gamemode_freeroam",
        ),
        Route::LaunchEvent => {
            st.event_id = launch_event_id_exec(st, uri);
            let details = concat2("Loading: ", names.event_name.as_str());
            show(st, enabled, details.as_str(), "Loading event", names.event_type.as_str())
        },
        Route::EventLaunched => {
            let details = concat2("Racing: ", names.event_name.as_str());
            show(st, enabled, details.as_str(), "In event", names.event_type.as_str())
        },
        Route::EventArbitration => {
            let details = concat2("Finished: ", names.event_name.as_str());
            show(st, enabled, details.as_str(), "Finished event", names.event_type.as_str())
        },
        Route::Other => respond_other(st, enabled, uri, query, body, names),
    }
}

fn respond_presence(st: &mut GameState, enabled: bool, query: &[char]) -> (r: Option<RpcActivity>)
    ensures
        (final(st)@, activity_view(r)) == (if presence_value(query@) == "1"@ {
            let s1 = GameStateView { in_safehouse: false, ..old(st)@ };
            (
                s1,
                activity_of(
                    s1,
                    enabled,
                    "Driving "@ + car_or(s1, "Unknown car"@),
                    "Freeroaming"@,
                    "gamemode_freeroam"@,
                ),
            )
        } else {
            let s1 = GameStateView { in_safehouse: true, ..old(st)@ };
            (
                s1,
                activity_of(s1, enabled, "In safehouse"@, "In safehouse"@, "gamemode_safehouse"@),
            )
        }),
{
    let v = presence_value_exec(query);
    if is_lit(v.as_slice(), "1") {
        st.in_safehouse = false;
        let car = if st.persona_car_name.as_str().is_empty() {
            string_of(lit("Unknown car").as_slice())
        } else {
            string_of(chars_of(st.persona_car_name.as_str()).as_slice())
        };
        let details = concat2("Driving ", car.as_str());
        show(st, enabled, details.as_str(), "Freeroaming", "gamemode_freeroam")
    } else {
        st.in_safehouse = true;
        show(st, enabled, "In safehouse", "In safehouse", "gamemode_safehouse")
    }
}

fn respond_coin(st: &mut GameState, enabled: bool) -> (r: Option<RpcActivity>)
    ensures
        ({
            let c = next_coin_count(old(st)@.treasure_collected);
            let s1 = GameStateView { treasure_collected: c, ..old(st)@ };
            (final(st)@, activity_view(r)) == (
                s1,
                activity_of(
                    s1,
                    enabled,
                    coin_detail(c, s1.treasure_total),
                    "Treasure hunt - Day: "@ + signed_decimal(s1.treasure_day as int),
                    "gamemode_treasure"@,
                ),
            )
        }),
{
    st.treasure_collected = if st.treasure_collected == i32::MAX {
        i32::MIN
    } else {
        st.treasure_collected + 1
    };
    let details = coin_detail_exec(st.treasure_collected, st.treasure_total);
    let small = concat2("Treasure hunt - Day: ", i32_to_string(st.treasure_day).as_str());
    show(st, enabled, details.as_str(), small.as_str(), "gamemode_treasure")
}

fn respond_other(
    st: &mut GameState,
    enabled: bool,
    uri: &[char],
    query: &str,
    body: &str,
    names: &ResolvedNames,
) -> (r: Option<RpcActivity>)
    ensures
        ({
            let s1 = after_garage(old(st)@, uri@, body@, names.car_name@);
            (final(st)@, activity_view(r)) == (
                s1,
                if contains_seq(uri@, "catalog"@) && s1.in_safehouse {
                    match catalog_detail(query@) {
                        Some(d) => activity_of(
                            s1,
                            enabled,
                            d,
                            "In safehouse"@,
                            "gamemode_safehouse"@,
                        ),
                        None => None,
                    }
                } else {
                    None
                },
            )
        }),
{
    let (action, _parts) = garage_action_exec(uri);
    let found = garage_car_exec(st, uri, body);
    if action == 1 {
        st.carslots_xml = string_of(chars_of(body).as_slice());
    }
    if found.is_some() {
        st.persona_car_name = string_of(chars_of(names.car_name.as_str()).as_slice());
    }
    let catalog = contains_seq_exec(uri, "catalog");
    if catalog && st.in_safehouse {
        match catalog_detail_exec(query) {
            Some(d) => show(st, enabled, d, "In safehouse", "gamemode_safehouse"),
            None => None,
        }
    } else {
        None
    }
}

fn respond_exec(
    st: &mut GameState,
    enabled: bool,
    path: &str,
    query: &str,
    body: &str,
    names: &ResolvedNames,
) -> (r: Option<RpcActivity>)
    ensures
        (final(st)@, activity_view(r)) == respond(
            old(st)@,
            enabled,
            path@,
            query@,
            body@,
            names.car_name@,
            names.event_name@,
            names.event_type@,
        ),
{
    let p = chars_of(path);
    let uri = engine_uri_chars(p.as_slice());
    let route = route_of_uri(uri.as_slice());
    respond_route(st, enabled, uri.as_slice(), route, query, body, names)
}

fn contains_seq_exec(h: &[char], n: &str) -> (r: bool)
    ensures
        r == contains_seq(h@, n@),
{
    let nc = chars_of(n);
    crate::text::contains_chars(h, nc.as_slice())
}

/// Applies an answer of the game server to the session; gives the activity to show.
/// `names` holds the names found for what [`name_request`] asked.
/// Nothing happens before a game was launched (no state yet).
pub fn handle_game_response(
    session: &mut GameSession,
    path: &str,
    query: &str,
    response_body: &str,
    names: &ResolvedNames,
) -> (r: Option<RpcActivity>)
    ensures
        final(session).rpc_enabled == old(session).rpc_enabled,
        match old(session).state {
            None => final(session).state is None && r is None,
            Some(st) => final(session).state is Some && ((final(session).state->0)@, activity_view(
                r,
            )) == respond(
                st@,
                old(session).rpc_enabled,
                path@,
                query@,
                response_body@,
                names.car_name@,
                names.event_name@,
                names.event_type@,
            ),
        },
{
    let taken = session.state.take();
    match taken {
        None => None,
        Some(st) => {
            let mut st = st;
            let r = respond_exec(&mut st, session.rpc_enabled, path, query, response_body, names);
            session.state = Some(st);
            r
        },
    }
}

/// Records the server's display name, creating the state if there is none yet.
pub fn set_server_name(session: &mut GameSession, name: &str)
    ensures
        final(session).rpc_enabled == old(session).rpc_enabled,
        final(session).state is Some,
        (final(session).state->0)@ == (match old(session).state {
            Some(st) => GameStateView { server_name: name@, ..st@ },
            None => GameStateView { server_name: name@, ..initial_state() },
        }),
{
    let taken = session.state.take();
    let mut st = match taken {
        Some(st) => st,
        None => GameState::default(),
    };
    st.server_name = string_of(chars_of(name).as_slice());
    session.state = Some(st);
}

/// Allows or forbids rich-presence updates for the server's category.
pub fn set_rpc_enabled(session: &mut GameSession, enabled: bool)
    ensures
        final(session).rpc_enabled == enabled,
        final(session).state == old(session).state,
{
    session.rpc_enabled = enabled;
}

/// Forgets the game state.
pub fn _reset(session: &mut GameSession)
    ensures
        final(session).state is None,
        final(session).rpc_enabled == old(session).rpc_enabled,
{
    session.state = None;
}

// ---------------------------------------------------------------------------
// What every answer keeps
// ---------------------------------------------------------------------------

/// No answer of the game server changes the name of the server the game was launched on.
pub proof fn law_respond_keeps_server_name(
    s: GameStateView,
    enabled: bool,
    path: Seq<char>,
    query: Seq<char>,
    body: Seq<char>,
    car_name: Seq<char>,
    event_name: Seq<char>,
    event_type: Seq<char>,
)
    ensures
        respond(s, enabled, path, query, body, car_name, event_name, event_type).0.server_name
            == s.server_name,
{
}

/// Where presence updates are disabled for the server, no answer shows an activity.
pub proof fn law_disabled_shows_nothing(
    s: GameStateView,
    path: Seq<char>,
    query: Seq<char>,
    body: Seq<char>,
    car_name: Seq<char>,
    event_name: Seq<char>,
    event_type: Seq<char>,
)
    ensures
        respond(s, false, path, query, body, car_name, event_name, event_type).1 is None,
{
}

/// Every activity an answer shows is about the server the game was launched on, with the
/// project's site as its button.
pub proof fn law_activity_names_server(
    s: GameStateView,
    enabled: bool,
    path: Seq<char>,
    query: Seq<char>,
    body: Seq<char>,
    car_name: Seq<char>,
    event_name: Seq<char>,
    event_type: Seq<char>,
)
    ensures
        respond(s, enabled, path, query, body, car_name, event_name, event_type).1 matches Some(a)
            ==> a.state == s.server_name && a.button1_label == "Project site"@ && a.button1_url
            == "https://soapboxrace.world"@,
{
}

} // verus!
