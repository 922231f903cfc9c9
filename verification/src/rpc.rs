use vstd::prelude::*;
use crate::game_state::RpcActivity;
use crate::text::{push_str, str_eq};

verus! {

broadcast use vstd::string::group_string_axioms;

// ---------------------------------------------------------------------------
// Discord rich presence: which application is connected, and what is shown
// ---------------------------------------------------------------------------

/// The Discord application of the launcher.
pub const LAUNCHER_APP_ID: &'static str = "1494263333266653335";

/// The Discord application shown for the game where its server names none.
pub const DEFAULT_GAME_APP_ID: &'static str = "540651192179752970";

/// The connection to Discord as the launcher keeps it: the application connected for, whether
/// a client is connected, and since when the presence is shown.
#[derive(Debug)]
pub struct RpcConnection {
    pub current_app_id: String,
    pub has_client: bool,
    pub start_time: Option<i64>,
}

/// The application a reconnection is for: the one named where it is not empty, else the game's
/// default one.
pub fn reconnect_target(app_id: &Option<String>) -> (r: String)
    ensures
        r@ == (match app_id {
            Some(a) => if a@.len() > 0 {
                a@
            } else {
                DEFAULT_GAME_APP_ID@
            },
            None => DEFAULT_GAME_APP_ID@,
        }),
{
    match app_id {
        Some(a) => if !a.as_str().is_empty() {
            a.clone()
        } else {
            DEFAULT_GAME_APP_ID.to_owned()
        },
        None => DEFAULT_GAME_APP_ID.to_owned(),
    }
}

/// Whether connecting for `target` is needed in the state `c`: unless a client is connected for
/// that very application.
pub open spec fn connect_needed(c: RpcConnection, target: Seq<char>) -> bool {
    !(c.current_app_id@ == target && c.has_client)
}

impl RpcConnection {
    pub fn new() -> (r: RpcConnection)
        ensures
            r.current_app_id@ == Seq::<char>::empty(),
            !r.has_client,
            r.start_time is None,
    {
        RpcConnection { current_app_id: String::new(), has_client: false, start_time: None }
    }

    /// Whether connecting for `target` is needed: not when a client is already connected for
    /// it.
    pub fn needs_connect(&self, target: &str) -> (r: bool)
        ensures
            r == connect_needed(*self, target@),
    {
        !(str_eq(self.current_app_id.as_str(), target) && self.has_client)
    }

    /// The old client was closed (before connecting again).
    pub fn client_closed(&mut self)
        ensures
            final(self).current_app_id == old(self).current_app_id,
            !final(self).has_client,
            final(self).start_time == old(self).start_time,
    {
        self.has_client = false;
    }

    /// Connected for `target` at `now` (seconds since the epoch): the presence counts from now.
    pub fn connected(&mut self, target: &str, now: i64)
        ensures
            final(self).current_app_id@ == target@,
            final(self).has_client,
            final(self).start_time == Some(now),
    {
        self.current_app_id = target.to_owned();
        self.has_client = true;
        self.start_time = Some(now);
    }

    /// `discord_rpc_stop`: no client, no application, no start.
    pub fn stopped(&mut self)
        ensures
            final(self).current_app_id@ == Seq::<char>::empty(),
            !final(self).has_client,
            final(self).start_time is None,
    {
        self.current_app_id = String::new();
        self.has_client = false;
        self.start_time = None;
    }
}

/// Once connected for an application, connecting for it again is skipped, while any other
/// application needs a connection of its own; with no client (new, closed or stopped), every
/// application needs one.
pub proof fn law_connect_once(c: RpcConnection, t: Seq<char>, u: Seq<char>)
    ensures
        (c.current_app_id@ == t && c.has_client) ==> !connect_needed(c, t) && (u != t ==> connect_needed(c, u)),
        !c.has_client ==> connect_needed(c, u),
{
}

/// What the interface asks to show.
#[derive(Debug)]
pub struct ActivityRequest {
    pub state: Option<String>,
    pub details: Option<String>,
    pub large_image: Option<String>,
    pub large_text: Option<String>,
    pub small_image: Option<String>,
    pub small_text: Option<String>,
    pub button1_label: Option<String>,
    pub button1_url: Option<String>,
    pub button2_label: Option<String>,
    pub button2_url: Option<String>,
}

/// What is shown: the request's texts and images, the start of the presence, and the buttons
/// whose label and address are both given and not empty, in order.
#[derive(Debug)]
pub struct ActivityPlan {
    pub start: i64,
    pub state: Option<String>,
    pub details: Option<String>,
    pub large_image: Option<String>,
    pub large_text: Option<String>,
    pub small_image: Option<String>,
    pub small_text: Option<String>,
    pub buttons: Vec<(String, String)>,
}

/// Whether a button is shown: label and address given and not empty.
pub open spec fn button_shown(label: Option<String>, url: Option<String>) -> bool {
    match (label, url) {
        (Some(l), Some(u)) => l@.len() > 0 && u@.len() > 0,
        _ => false,
    }
}

fn clone_opt(o: &Option<String>) -> (r: Option<String>)
    ensures
        r == *o,
{
    match o {
        Some(s) => Some(s.clone()),
        None => None,
    }
}

fn push_button(buttons: &mut Vec<(String, String)>, label: &Option<String>, url: &Option<String>)
    ensures
        button_shown(*label, *url) ==> final(buttons)@ == old(buttons)@.push((label->0, url->0)),
        !button_shown(*label, *url) ==> final(buttons)@ == old(buttons)@,
{
    match (label, url) {
        (Some(l), Some(u)) => {
            if !l.as_str().is_empty() && !u.as_str().is_empty() {
                buttons.push((l.clone(), u.clone()));
            }
        },
        _ => {},
    }
}

/// What is shown for a request: the presence starts when the connection was made, or now where
/// that is not known.
pub fn plan_activity(req: &ActivityRequest, start_time: Option<i64>, now: i64) -> (r: ActivityPlan)
    ensures
        r.start == (match start_time {
            Some(t) => t,
            None => now,
        }),
        r.state == req.state && r.details == req.details,
        r.large_image == req.large_image && r.large_text == req.large_text,
        r.small_image == req.small_image && r.small_text == req.small_text,
        r.buttons@ == (if button_shown(req.button1_label, req.button1_url) {
            seq![(req.button1_label->0, req.button1_url->0)]
        } else {
            Seq::empty()
        }) + (if button_shown(req.button2_label, req.button2_url) {
            seq![(req.button2_label->0, req.button2_url->0)]
        } else {
            Seq::empty()
        }),
{
    let mut buttons: Vec<(String, String)> = Vec::new();
    push_button(&mut buttons, &req.button1_label, &req.button1_url);
    push_button(&mut buttons, &req.button2_label, &req.button2_url);
    assert(buttons@ =~= (if button_shown(req.button1_label, req.button1_url) {
        seq![(req.button1_label->0, req.button1_url->0)]
    } else {
        Seq::empty()
    }) + (if button_shown(req.button2_label, req.button2_url) {
        seq![(req.button2_label->0, req.button2_url->0)]
    } else {
        Seq::empty()
    }));
    ActivityPlan {
        start: match start_time {
            Some(t) => t,
            None => now,
        },
        state: clone_opt(&req.state),
        details: clone_opt(&req.details),
        large_image: clone_opt(&req.large_image),
        large_text: clone_opt(&req.large_text),
        small_image: clone_opt(&req.small_image),
        small_text: clone_opt(&req.small_text),
        buttons,
    }
}

/// The request for an activity of the game.
pub fn activity_request(a: RpcActivity) -> (r: ActivityRequest)
    ensures
        r.state == Some(a.state) && r.details == Some(a.details),
        r.large_image == Some(a.large_image) && r.large_text == Some(a.large_text),
        r.small_image == Some(a.small_image) && r.small_text == Some(a.small_text),
        r.button1_label == Some(a.button1_label) && r.button1_url == Some(a.button1_url),
        r.button2_label is None && r.button2_url is None,
{
    ActivityRequest {
        state: Some(a.state),
        details: Some(a.details),
        large_image: Some(a.large_image),
        large_text: Some(a.large_text),
        small_image: Some(a.small_image),
        small_text: Some(a.small_text),
        button1_label: Some(a.button1_label),
        button1_url: Some(a.button1_url),
        button2_label: None,
        button2_url: None,
    }
}

/// The presence shown while the game starts on a server.
pub fn launch_activity(display_name: &str) -> (r: ActivityRequest)
    ensures
        r.state matches Some(s) && s@ == display_name@,
        r.details matches Some(s) && s@ == "Launching Game"@,
        r.large_image matches Some(s) && s@ == "nfsw"@,
        r.large_text matches Some(s) && s@ == "Need for Speed: World"@,
        r.small_image matches Some(s) && s@ == "ingame"@,
        r.small_text matches Some(s) && s@ == "In-Game"@,
        r.button1_label matches Some(s) && s@ == "Project Site"@,
        r.button1_url matches Some(s) && s@ == "https://soapboxrace.world"@,
        r.button2_label is None && r.button2_url is None,
{
    ActivityRequest {
        state: Some(display_name.to_owned()),
        details: Some("Launching Game".to_owned()),
        large_image: Some("nfsw".to_owned()),
        large_text: Some("Need for Speed: World".to_owned()),
        small_image: Some("ingame".to_owned()),
        small_text: Some("In-Game".to_owned()),
        button1_label: Some("Project Site".to_owned()),
        button1_url: Some("https://soapboxrace.world".to_owned()),
        button2_label: None,
        button2_url: None,
    }
}

/// What to do after showing an activity failed: on the first failure reconnect for the current
/// application (an error where none is connected), on the second give up with that failure.
pub fn after_failed_activity(attempt: u32, current_app_id: &str, error: String) -> (r: Result<(), String>)
    ensures
        attempt == 0 && current_app_id@.len() > 0 ==> r is Ok,
        attempt == 0 && current_app_id@.len() == 0 ==> (r matches Err(m) && m@
            == "Discord RPC not initialized"@),
        attempt != 0 ==> r == Err::<(), String>(error),
{
    if attempt == 0 {
        if current_app_id.is_empty() {
            Err("Discord RPC not initialized".to_owned())
        } else {
            Ok(())
        }
    } else {
        Err(error)
    }
}

/// The error after three failed connections.
pub fn connect_failed_text(last_err: &str) -> (r: String)
    ensures
        r@ == "connect failed after 3 attempts: "@ + last_err@,
{
    let mut r = "connect failed after 3 attempts: ".to_owned();
    push_str(&mut r, last_err);
    r
}

} // verus!
