use rocket_launcher::index::index_from_events;
use rocket_launcher::settings::{
    language_from_events, rewrite_language_events, rewrite_settings_events, settings_from_events,
    GameSettings,
};
use rocket_launcher::xml::{XmlEvent, XmlKind};

fn ev(kind: XmlKind, raw: &str, name: &str, attrs: &[(&str, &str)], text: &str) -> XmlEvent {
    XmlEvent {
        kind,
        raw: raw.to_string(),
        name: name.to_string(),
        attrs: attrs.iter().map(|(k, v)| Some((k.to_string(), v.to_string()))).collect(),
        text: Ok(text.to_string()),
    }
}

fn start(name: &str) -> XmlEvent {
    ev(XmlKind::Start, name, name, &[], "")
}

fn end(name: &str) -> XmlEvent {
    ev(XmlKind::End, name, name, &[], "")
}

fn text(t: &str) -> XmlEvent {
    ev(XmlKind::Text, t, "", &[], t)
}

fn settings_events() -> Vec<XmlEvent> {
    vec![
        start("Settings"),
        start("UI"),
        start("Audio"),
        ev(
            XmlKind::Empty,
            "AudioOptions MasterVol=\"0.3\" Other=\"x\"",
            "AudioOptions",
            &[("MasterVol", "0.3"), ("Other", "x")],
            "",
        ),
        end("Audio"),
        start("Language"),
        text("DE"),
        end("Language"),
        end("UI"),
        start("VideoConfig"),
        start("screenwidth"),
        text("1280"),
        end("screenwidth"),
        end("VideoConfig"),
        end("Settings"),
    ]
}

#[test]
fn settings_read_from_events() {
    let s = settings_from_events(&settings_events());
    assert_eq!(s.screen_width, 1280);
    assert_eq!(s.master_volume, "0.3");
    assert_eq!(s.screen_height, 768);
}

#[test]
fn settings_written_into_events() {
    let mut s = GameSettings::default();
    s.screen_width = 800;
    s.master_volume = "0.9".to_string();
    let outs = rewrite_settings_events(&settings_events(), &s);
    let texts: Vec<&str> = outs.iter().filter(|o| o.kind == XmlKind::Text).map(|o| o.raw.as_str()).collect();
    assert_eq!(texts, vec!["DE", "800"]);
    let empty = outs.iter().find(|o| o.kind == XmlKind::Empty).unwrap();
    assert_eq!(empty.raw, "AudioOptions MasterVol=\"0.9\" Other=\"x\"");
}

#[test]
fn language_read_and_written_on_events() {
    assert_eq!(language_from_events(&settings_events()), "DE");
    let outs = rewrite_language_events(&settings_events(), "FR");
    let texts: Vec<&str> = outs.iter().filter(|o| o.kind == XmlKind::Text).map(|o| o.raw.as_str()).collect();
    assert_eq!(texts, vec!["FR", "1280"]);
    assert_eq!(outs.len(), settings_events().len());
    assert_eq!(language_from_events(&vec![start("Settings"), end("Settings")]), "EN");
}

#[test]
fn index_read_from_events() {
    let evs = vec![
        start("index"),
        start("header"),
        start("firstcab"),
        text("100"),
        end("firstcab"),
        end("header"),
        start("fileinfo"),
        start("path"),
        text("CDShift/Data"),
        end("path"),
        start("file"),
        text("a.bin"),
        end("file"),
        start("length"),
        text("7"),
        end("length"),
        start("section"),
        text("2"),
        end("section"),
        end("fileinfo"),
        end("index"),
    ];
    let (header, entries) = index_from_events(&evs, None).unwrap();
    assert_eq!(header.firstcab, 100);
    assert_eq!(entries.len(), 1);
    assert_eq!(entries[0].path, "CDShift/Data");
    assert_eq!(entries[0].file, "a.bin");
    assert_eq!(entries[0].length, 7);
    assert_eq!(entries[0].section, 2);
    assert!(index_from_events(&evs, Some("bad".to_string())).is_err());
}
