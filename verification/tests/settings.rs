use rocket_launcher::settings::{
    get_game_language, get_game_settings, set_game_language, set_game_settings, Field, GameSettings,
};

const DOC: &str = r#"<?xml version="1.0" encoding="utf-8"?>
<Settings>
  <UI>
    <Audio>
      <AudioOptions AudioMode="2" MasterVol="0.75" SFXVol="abc" />
    </Audio>
    <Gameplay>
      <GamePlayOptions camera="3" damage="0" speedUnits="x" />
    </Gameplay>
    <Language>FR</Language>
  </UI>
  <VideoConfig>
    <screenwidth>1920</screenwidth>
    <screenheight>  1080 </screenheight>
    <screenwindowed>1</screenwindowed>
    <brightness>oops</brightness>
    <vsyncon>0</vsyncon>
  </VideoConfig>
  <Physics><CameraPOV>4</CameraPOV></Physics>
</Settings>"#;

#[test]
fn missing_file_gives_defaults() {
    let s = get_game_settings(None);
    assert_eq!(s.screen_width, 1024);
    assert_eq!(s.screen_height, 768);
    assert!(!s.screen_windowed);
    assert_eq!(s.brightness, 52);
    assert!(s.vsync);
    assert_eq!(s.performance_level, 2);
    assert_eq!(s.audio_mode, 1);
    assert_eq!(s.master_volume, "1");
    assert_eq!(s.sfx_volume, "0.52");
    assert_eq!(s.camera, 2);
    assert_eq!(s.transmission, 1);
    assert!(s.damage);
    assert_eq!(s.speed_units, 1);
}

#[test]
fn settings_are_read_from_attributes_and_texts() {
    let s = get_game_settings(Some(DOC));
    assert_eq!(s.audio_mode, 2);
    assert_eq!(s.master_volume, "0.75");
    assert_eq!(s.sfx_volume, "abc");
    assert_eq!(s.car_volume, "0.52");
    assert!(!s.damage);
    assert_eq!(s.speed_units, 1);
    assert_eq!(s.screen_width, 1920);
    assert_eq!(s.screen_height, 1080);
    assert!(s.screen_windowed);
    assert_eq!(s.brightness, 52);
    assert!(!s.vsync);
    // the camera attribute comes first; the physics element read later wins
    assert_eq!(s.camera, 4);
}

#[test]
fn setting_without_file_is_an_error() {
    let s = GameSettings::default();
    assert_eq!(
        set_game_settings(None, &s),
        Err("UserSettings.xml not found. Launch the game at least once first.".to_string())
    );
}

#[test]
fn settings_are_written_into_the_document() {
    let doc = r#"<Settings><VideoConfig><screenwidth>800</screenwidth></VideoConfig><UI><Audio><AudioOptions MasterVol="0.5" Other="a&amp;b"/></Audio></UI></Settings>"#;
    let mut s = GameSettings::default();
    s.screen_width = 1280;
    s.master_volume = "0.9".to_string();
    let out = set_game_settings(Some(doc), &s).unwrap();
    assert_eq!(
        out,
        r#"<Settings><VideoConfig><screenwidth>1280</screenwidth></VideoConfig><UI><Audio><AudioOptions MasterVol="0.9" Other="a&amp;amp;b"/></Audio></UI></Settings>"#
    );
}

#[test]
fn malformed_document_is_an_error() {
    let s = GameSettings::default();
    let r = set_game_settings(Some("<Settings><a></b></Settings>"), &s);
    assert!(r.unwrap_err().starts_with("XML parse error: "));
}

#[test]
fn written_settings_read_back_the_same() {
    let doc = r#"<Settings><UI><Audio><AudioOptions AudioMode="1" MasterVol="1" SFXVol="1" CarVol="1" SpeechVol="1" GameMusicVol="1" FEMusicVol="1"/></Audio><Gameplay><GamePlayOptions camera="0" transmission="0" damage="1" speedUnits="0"/></Gameplay></UI><VideoConfig><screenwidth>1</screenwidth><screenheight>1</screenheight><screenwindowed>0</screenwindowed><brightness>1</brightness><vsyncon>1</vsyncon><performancelevel>1</performancelevel><basetexturefilter>1</basetexturefilter><basetexturemaxani>1</basetexturemaxani><roadtexturefilter>1</roadtexturefilter><roadtexturemaxani>1</roadtexturemaxani><carenvironmentmapenable>1</carenvironmentmapenable><globaldetaillevel>1</globaldetaillevel><roadreflectionenable>1</roadreflectionenable><shaderdetail>1</shaderdetail><shadowdetail>1</shadowdetail><fsaalevel>1</fsaalevel><motionblurenable>1</motionblurenable><particlesystemenable>1</particlesystemenable><postprocessingenable>1</postprocessingenable><rainenable>1</rainenable><watersimenable>1</watersimenable><visualtreatment>1</visualtreatment><maxskidmarks>1</maxskidmarks><audiomode>1</audiomode><audioquality>1</audioquality></VideoConfig><Physics><CameraPOV>0</CameraPOV><TransmissionType>0</TransmissionType></Physics></Settings>"#;
    let mut s = GameSettings::default();
    s.screen_width = 2560;
    s.screen_height = -7;
    s.screen_windowed = true;
    s.brightness = 60;
    s.vsync = false;
    s.performance_level = 5;
    s.base_texture_filter = 2;
    s.road_reflection = 3;
    s.fsaa_level = 4;
    s.motion_blur = true;
    s.rain = true;
    s.max_skid_marks = 9;
    s.audio_mode = 0;
    s.audio_quality = 1;
    s.master_volume = "0.3".to_string();
    s.music_volume = "0".to_string();
    s.camera = 1;
    s.transmission = 2;
    s.damage = false;
    s.speed_units = 0;
    let out = set_game_settings(Some(doc), &s).unwrap();
    let back = get_game_settings(Some(&out));
    assert_eq!(back.screen_width, 2560);
    assert_eq!(back.screen_height, -7);
    assert!(back.screen_windowed);
    assert_eq!(back.brightness, 60);
    assert!(!back.vsync);
    assert_eq!(back.performance_level, 5);
    assert_eq!(back.base_texture_filter, 2);
    assert_eq!(back.road_reflection, 3);
    assert_eq!(back.fsaa_level, 4);
    assert!(back.motion_blur);
    assert!(back.rain);
    assert_eq!(back.max_skid_marks, 9);
    assert_eq!(back.audio_mode, 0);
    assert_eq!(back.audio_quality, 1);
    assert_eq!(back.master_volume, "0.3");
    assert_eq!(back.music_volume, "0");
    assert_eq!(back.camera, 1);
    assert_eq!(back.transmission, 2);
    assert!(!back.damage);
    assert_eq!(back.speed_units, 0);
}

#[test]
fn field_text_and_read_field_agree() {
    let mut s = GameSettings::default();
    s.read_field(Field::Brightness, "-12");
    assert_eq!(s.brightness, -12);
    assert_eq!(s.field_text(Field::Brightness), "-12");
    s.read_field(Field::Vsync, "0");
    assert_eq!(s.field_text(Field::Vsync), "0");
    s.read_field(Field::Vsync, "nope");
    assert!(s.vsync);
    s.read_field(Field::ScreenWidth, "99999999999");
    assert_eq!(s.screen_width, 1024);
}

#[test]
fn language_is_read() {
    assert_eq!(get_game_language(None), "EN");
    assert_eq!(get_game_language(Some("<Settings><UI><Language> DE </Language></UI></Settings>")), "DE");
    assert_eq!(get_game_language(Some("<Settings><UI><Other>DE</Other></UI></Settings>")), "EN");
    assert_eq!(get_game_language(Some("<Settings><UI><Language>   </Language></UI></Settings>")), "EN");
}

#[test]
fn language_is_written_in_both_places() {
    let doc = "<Settings><UI><Language>EN</Language></UI><PersistentValue><Chat><DefaultChatGroup>EN</DefaultChatGroup></Chat></PersistentValue><Other>EN</Other></Settings>";
    let out = set_game_language(Some(doc), "F&R").unwrap();
    assert_eq!(
        out,
        "<Settings><UI><Language>F&amp;R</Language></UI><PersistentValue><Chat><DefaultChatGroup>F&amp;R</DefaultChatGroup></Chat></PersistentValue><Other>EN</Other></Settings>"
    );
    assert_eq!(
        set_game_language(None, "FR"),
        Err("UserSettings.xml not found. Launch the game at least once first.".to_string())
    );
}

#[test]
fn language_rewrite_keeps_other_content() {
    let doc = "<?xml version=\"1.0\"?><!-- note --><Settings a=\"1\"><x/><![CDATA[raw]]></Settings>";
    let out = set_game_language(Some(doc), "FR").unwrap();
    assert_eq!(out, doc);
}

#[test]
fn concrete_document_rewritten() {
    let doc = r#"<Settings><VideoConfig><screenwidth>800</screenwidth><vsyncon>1</vsyncon></VideoConfig><UI><Gameplay><GamePlayOptions camera="2" foo="x" damage="1"/></Gameplay></UI></Settings>"#;
    let mut s = GameSettings::default();
    s.screen_width = 1920;
    s.vsync = false;
    s.camera = 0;
    s.damage = false;
    assert_eq!(
        set_game_settings(Some(doc), &s).unwrap(),
        r#"<Settings><VideoConfig><screenwidth>1920</screenwidth><vsyncon>0</vsyncon></VideoConfig><UI><Gameplay><GamePlayOptions camera="0" foo="x" damage="0"/></Gameplay></UI></Settings>"#
    );
}

#[test]
fn concrete_document_read() {
    let doc = r#"<Settings><VideoConfig><screenwidth>1920</screenwidth><screenwindowed>1</screenwindowed><brightness>abc</brightness></VideoConfig><UI><Audio><AudioOptions AudioMode="2"/></Audio></UI></Settings>"#;
    let s = get_game_settings(Some(doc));
    assert_eq!(s.screen_width, 1920);
    assert!(s.screen_windowed);
    assert_eq!(s.brightness, 52);
    assert_eq!(s.audio_mode, 2);
    assert_eq!(get_game_language(Some("<Settings><UI><Language> FR </Language></UI></Settings>")), "FR");
    assert_eq!(get_game_language(Some("<Settings><UI><Language></Language></UI></Settings>")), "EN");
}

#[test]
fn written_settings_read_back() {
    let doc = r#"<Settings><VideoConfig><screenwidth>800</screenwidth><vsyncon>1</vsyncon></VideoConfig><UI><Audio><AudioOptions MasterVol="1"/></Audio></UI></Settings>"#;
    let mut s = GameSettings::default();
    s.screen_width = 1600;
    s.vsync = false;
    s.master_volume = "0.25".to_string();
    let text = set_game_settings(Some(doc), &s).unwrap();
    let back = get_game_settings(Some(&text));
    assert_eq!(back.screen_width, 1600);
    assert!(!back.vsync);
    assert_eq!(back.master_volume, "0.25");
    let lang = set_game_language(Some(&text), "DE").unwrap();
    assert_eq!(get_game_language(Some(&lang)), "EN");
    let with_lang = set_game_language(Some("<Settings><UI><Language>EN</Language></UI></Settings>"), "DE").unwrap();
    assert_eq!(get_game_language(Some(&with_lang)), "DE");
}

#[test]
fn malformed_document_keeps_what_came_before() {
    let doc = "<Settings><VideoConfig><screenwidth>1280</screenwidth></Wrong><screenheight>900</screenheight>";
    let s = get_game_settings(Some(doc));
    assert_eq!(s.screen_width, 1280);
    assert_eq!(s.screen_height, 768);
    assert!(set_game_settings(Some(doc), &GameSettings::default()).unwrap_err().starts_with("XML parse error: "));
}
