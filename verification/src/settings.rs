use vstd::prelude::*;
use crate::num::{i32_to_string, parse_i32_spec, parse_i32_str, signed_decimal};
use crate::text::{join_seq, join_strings, push_str, str_eq, trim_str, trim_ws, views_of};
use crate::xml::{
    escape_text, event_text_or_empty, events_view, opt_text, read_xml_events, xml_events_of, text_or_empty, write_xml_events,
    xml_escape, xml_outs_text, outs_view, XmlEvent, XmlEventView, XmlKind, XmlOut,
};

verus! {

broadcast use vstd::string::group_string_axioms;

// ---------------------------------------------------------------------------
// The game's user settings (UserSettings.xml)
// ---------------------------------------------------------------------------

/// A setting of the game that the launcher reads and writes.
#[derive(Debug, PartialEq, Eq, Structural, Clone, Copy)]
pub enum Field {
    ScreenWidth,
    ScreenHeight,
    ScreenWindowed,
    Brightness,
    Vsync,
    PerformanceLevel,
    BaseTextureFilter,
    BaseTextureMaxAnisotropy,
    RoadTextureFilter,
    RoadTextureMaxAnisotropy,
    CarEnvironmentMap,
    GlobalDetailLevel,
    RoadReflection,
    ShaderDetail,
    ShadowDetail,
    FsaaLevel,
    MotionBlur,
    ParticleSystem,
    PostProcessing,
    Rain,
    WaterSim,
    VisualTreatment,
    MaxSkidMarks,
    AudioMode,
    AudioQuality,
    MasterVolume,
    SfxVolume,
    CarVolume,
    SpeechVolume,
    MusicVolume,
    FrontendMusicVolume,
    Camera,
    Transmission,
    Damage,
    SpeedUnits,
}

/// The game's settings. The volumes are kept as the text of their decimal value (the text
/// that `f32`'s `FromStr` reads and `Display` writes); the rest as integers and flags.
#[derive(Debug)]
pub struct GameSettings {
    pub screen_width: i32,
    pub screen_height: i32,
    pub screen_windowed: bool,
    pub brightness: i32,
    pub vsync: bool,
    pub performance_level: i32,
    pub base_texture_filter: i32,
    pub base_texture_max_anisotropy: i32,
    pub road_texture_filter: i32,
    pub road_texture_max_anisotropy: i32,
    pub car_environment_map: i32,
    pub global_detail_level: i32,
    pub road_reflection: i32,
    pub shader_detail: i32,
    pub shadow_detail: i32,
    pub fsaa_level: i32,
    pub motion_blur: bool,
    pub particle_system: bool,
    pub post_processing: bool,
    pub rain: bool,
    pub water_sim: bool,
    pub visual_treatment: bool,
    pub max_skid_marks: i32,
    pub audio_mode: i32,
    pub audio_quality: i32,
    pub master_volume: String,
    pub sfx_volume: String,
    pub car_volume: String,
    pub speech_volume: String,
    pub music_volume: String,
    pub frontend_music_volume: String,
    pub camera: i32,
    pub transmission: i32,
    pub damage: bool,
    pub speed_units: i32,
}

/// The settings as mathematical values.
pub struct SettingsView {
    pub screen_width: i32,
    pub screen_height: i32,
    pub screen_windowed: bool,
    pub brightness: i32,
    pub vsync: bool,
    pub performance_level: i32,
    pub base_texture_filter: i32,
    pub base_texture_max_anisotropy: i32,
    pub road_texture_filter: i32,
    pub road_texture_max_anisotropy: i32,
    pub car_environment_map: i32,
    pub global_detail_level: i32,
    pub road_reflection: i32,
    pub shader_detail: i32,
    pub shadow_detail: i32,
    pub fsaa_level: i32,
    pub motion_blur: bool,
    pub particle_system: bool,
    pub post_processing: bool,
    pub rain: bool,
    pub water_sim: bool,
    pub visual_treatment: bool,
    pub max_skid_marks: i32,
    pub audio_mode: i32,
    pub audio_quality: i32,
    pub master_volume: Seq<char>,
    pub sfx_volume: Seq<char>,
    pub car_volume: Seq<char>,
    pub speech_volume: Seq<char>,
    pub music_volume: Seq<char>,
    pub frontend_music_volume: Seq<char>,
    pub camera: i32,
    pub transmission: i32,
    pub damage: bool,
    pub speed_units: i32,
}

impl View for GameSettings {
    type V = SettingsView;

    open spec fn view(&self) -> SettingsView {
        SettingsView {
            screen_width: self.screen_width,
            screen_height: self.screen_height,
            screen_windowed: self.screen_windowed,
            brightness: self.brightness,
            vsync: self.vsync,
            performance_level: self.performance_level,
            base_texture_filter: self.base_texture_filter,
            base_texture_max_anisotropy: self.base_texture_max_anisotropy,
            road_texture_filter: self.road_texture_filter,
            road_texture_max_anisotropy: self.road_texture_max_anisotropy,
            car_environment_map: self.car_environment_map,
            global_detail_level: self.global_detail_level,
            road_reflection: self.road_reflection,
            shader_detail: self.shader_detail,
            shadow_detail: self.shadow_detail,
            fsaa_level: self.fsaa_level,
            motion_blur: self.motion_blur,
            particle_system: self.particle_system,
            post_processing: self.post_processing,
            rain: self.rain,
            water_sim: self.water_sim,
            visual_treatment: self.visual_treatment,
            max_skid_marks: self.max_skid_marks,
            audio_mode: self.audio_mode,
            audio_quality: self.audio_quality,
            master_volume: self.master_volume@,
            sfx_volume: self.sfx_volume@,
            car_volume: self.car_volume@,
            speech_volume: self.speech_volume@,
            music_volume: self.music_volume@,
            frontend_music_volume: self.frontend_music_volume@,
            camera: self.camera,
            transmission: self.transmission,
            damage: self.damage,
            speed_units: self.speed_units,
        }
    }
}

/// The settings the launcher assumes where the file says nothing.
pub open spec fn default_settings() -> SettingsView {
    SettingsView {
        screen_width: 1024,
        screen_height: 768,
        screen_windowed: false,
        brightness: 52,
        vsync: true,
        performance_level: 2,
        base_texture_filter: 0,
        base_texture_max_anisotropy: 0,
        road_texture_filter: 0,
        road_texture_max_anisotropy: 0,
        car_environment_map: 0,
        global_detail_level: 0,
        road_reflection: 0,
        shader_detail: 0,
        shadow_detail: 0,
        fsaa_level: 0,
        motion_blur: false,
        particle_system: false,
        post_processing: false,
        rain: false,
        water_sim: false,
        visual_treatment: false,
        max_skid_marks: 0,
        audio_mode: 1,
        audio_quality: 0,
        master_volume: "1"@,
        sfx_volume: "0.52"@,
        car_volume: "0.52"@,
        speech_volume: "0.52"@,
        music_volume: "0.52"@,
        frontend_music_volume: "0.52"@,
        camera: 2,
        transmission: 1,
        damage: true,
        speed_units: 1,
    }
}

impl Default for GameSettings {
    fn default() -> (r: GameSettings)
        ensures
            r@ == default_settings(),
    {
        GameSettings {
            screen_width: 1024,
            screen_height: 768,
            screen_windowed: false,
            brightness: 52,
            vsync: true,
            performance_level: 2,
            base_texture_filter: 0,
            base_texture_max_anisotropy: 0,
            road_texture_filter: 0,
            road_texture_max_anisotropy: 0,
            car_environment_map: 0,
            global_detail_level: 0,
            road_reflection: 0,
            shader_detail: 0,
            shadow_detail: 0,
            fsaa_level: 0,
            motion_blur: false,
            particle_system: false,
            post_processing: false,
            rain: false,
            water_sim: false,
            visual_treatment: false,
            max_skid_marks: 0,
            audio_mode: 1,
            audio_quality: 0,
            master_volume: "1".to_owned(),
            sfx_volume: "0.52".to_owned(),
            car_volume: "0.52".to_owned(),
            speech_volume: "0.52".to_owned(),
            music_volume: "0.52".to_owned(),
            frontend_music_volume: "0.52".to_owned(),
            camera: 2,
            transmission: 1,
            damage: true,
            speed_units: 1,
        }
    }
}

/// The integer that `text` denotes (`text.parse::<i32>()`), or `default` where it denotes none.
pub open spec fn int_or(text: Seq<char>, default: i32) -> i32 {
    match parse_i32_spec(text) {
        Some(v) => v,
        None => default,
    }
}

/// A flag read as an integer that is not zero, with `default` where `text` is no integer.
pub open spec fn flag_or(text: Seq<char>, default: bool) -> bool {
    int_or(text, if default { 1 } else { 0 }) != 0
}

/// The settings with field `f` read from `text`: an integer, a flag (an integer other than
/// zero) or a volume's text; where `text` is no integer, the field's default value.
pub open spec fn read_field(s: SettingsView, f: Field, text: Seq<char>) -> SettingsView {
    match f {
        Field::ScreenWidth => SettingsView { screen_width: int_or(text, 1024), ..s },
        Field::ScreenHeight => SettingsView { screen_height: int_or(text, 768), ..s },
        Field::ScreenWindowed => SettingsView { screen_windowed: flag_or(text, false), ..s },
        Field::Brightness => SettingsView { brightness: int_or(text, 52), ..s },
        Field::Vsync => SettingsView { vsync: flag_or(text, true), ..s },
        Field::PerformanceLevel => SettingsView { performance_level: int_or(text, 2), ..s },
        Field::BaseTextureFilter => SettingsView { base_texture_filter: int_or(text, 0), ..s },
        Field::BaseTextureMaxAnisotropy => SettingsView { base_texture_max_anisotropy: int_or(text, 0), ..s },
        Field::RoadTextureFilter => SettingsView { road_texture_filter: int_or(text, 0), ..s },
        Field::RoadTextureMaxAnisotropy => SettingsView { road_texture_max_anisotropy: int_or(text, 0), ..s },
        Field::CarEnvironmentMap => SettingsView { car_environment_map: int_or(text, 0), ..s },
        Field::GlobalDetailLevel => SettingsView { global_detail_level: int_or(text, 0), ..s },
        Field::RoadReflection => SettingsView { road_reflection: int_or(text, 0), ..s },
        Field::ShaderDetail => SettingsView { shader_detail: int_or(text, 0), ..s },
        Field::ShadowDetail => SettingsView { shadow_detail: int_or(text, 0), ..s },
        Field::FsaaLevel => SettingsView { fsaa_level: int_or(text, 0), ..s },
        Field::MotionBlur => SettingsView { motion_blur: flag_or(text, false), ..s },
        Field::ParticleSystem => SettingsView { particle_system: flag_or(text, false), ..s },
        Field::PostProcessing => SettingsView { post_processing: flag_or(text, false), ..s },
        Field::Rain => SettingsView { rain: flag_or(text, false), ..s },
        Field::WaterSim => SettingsView { water_sim: flag_or(text, false), ..s },
        Field::VisualTreatment => SettingsView { visual_treatment: flag_or(text, false), ..s },
        Field::MaxSkidMarks => SettingsView { max_skid_marks: int_or(text, 0), ..s },
        Field::AudioMode => SettingsView { audio_mode: int_or(text, 1), ..s },
        Field::AudioQuality => SettingsView { audio_quality: int_or(text, 0), ..s },
        Field::MasterVolume => SettingsView { master_volume: text, ..s },
        Field::SfxVolume => SettingsView { sfx_volume: text, ..s },
        Field::CarVolume => SettingsView { car_volume: text, ..s },
        Field::SpeechVolume => SettingsView { speech_volume: text, ..s },
        Field::MusicVolume => SettingsView { music_volume: text, ..s },
        Field::FrontendMusicVolume => SettingsView { frontend_music_volume: text, ..s },
        Field::Camera => SettingsView { camera: int_or(text, 2), ..s },
        Field::Transmission => SettingsView { transmission: int_or(text, 1), ..s },
        Field::Damage => SettingsView { damage: flag_or(text, true), ..s },
        Field::SpeedUnits => SettingsView { speed_units: int_or(text, 1), ..s },
    }
}

/// A flag as the file writes it.
pub open spec fn flag_text(b: bool) -> Seq<char> {
    if b {
        "1"@
    } else {
        "0"@
    }
}

/// The text written for field `f`.
pub open spec fn field_text(s: SettingsView, f: Field) -> Seq<char> {
    match f {
        Field::ScreenWidth => signed_decimal(s.screen_width as int),
        Field::ScreenHeight => signed_decimal(s.screen_height as int),
        Field::ScreenWindowed => flag_text(s.screen_windowed),
        Field::Brightness => signed_decimal(s.brightness as int),
        Field::Vsync => flag_text(s.vsync),
        Field::PerformanceLevel => signed_decimal(s.performance_level as int),
        Field::BaseTextureFilter => signed_decimal(s.base_texture_filter as int),
        Field::BaseTextureMaxAnisotropy => signed_decimal(s.base_texture_max_anisotropy as int),
        Field::RoadTextureFilter => signed_decimal(s.road_texture_filter as int),
        Field::RoadTextureMaxAnisotropy => signed_decimal(s.road_texture_max_anisotropy as int),
        Field::CarEnvironmentMap => signed_decimal(s.car_environment_map as int),
        Field::GlobalDetailLevel => signed_decimal(s.global_detail_level as int),
        Field::RoadReflection => signed_decimal(s.road_reflection as int),
        Field::ShaderDetail => signed_decimal(s.shader_detail as int),
        Field::ShadowDetail => signed_decimal(s.shadow_detail as int),
        Field::FsaaLevel => signed_decimal(s.fsaa_level as int),
        Field::MotionBlur => flag_text(s.motion_blur),
        Field::ParticleSystem => flag_text(s.particle_system),
        Field::PostProcessing => flag_text(s.post_processing),
        Field::Rain => flag_text(s.rain),
        Field::WaterSim => flag_text(s.water_sim),
        Field::VisualTreatment => flag_text(s.visual_treatment),
        Field::MaxSkidMarks => signed_decimal(s.max_skid_marks as int),
        Field::AudioMode => signed_decimal(s.audio_mode as int),
        Field::AudioQuality => signed_decimal(s.audio_quality as int),
        Field::MasterVolume => s.master_volume,
        Field::SfxVolume => s.sfx_volume,
        Field::CarVolume => s.car_volume,
        Field::SpeechVolume => s.speech_volume,
        Field::MusicVolume => s.music_volume,
        Field::FrontendMusicVolume => s.frontend_music_volume,
        Field::Camera => signed_decimal(s.camera as int),
        Field::Transmission => signed_decimal(s.transmission as int),
        Field::Damage => flag_text(s.damage),
        Field::SpeedUnits => signed_decimal(s.speed_units as int),
    }
}

/// The field kept as the text of the element at `path`.
pub open spec fn text_field(path: Seq<char>) -> Option<Field> {
    if path == "Settings/VideoConfig/screenwidth"@ {
        Some(Field::ScreenWidth)
    } else if path == "Settings/VideoConfig/screenheight"@ {
        Some(Field::ScreenHeight)
    } else if path == "Settings/VideoConfig/screenwindowed"@ {
        Some(Field::ScreenWindowed)
    } else if path == "Settings/VideoConfig/brightness"@ {
        Some(Field::Brightness)
    } else if path == "Settings/VideoConfig/vsyncon"@ {
        Some(Field::Vsync)
    } else if path == "Settings/VideoConfig/performancelevel"@ {
        Some(Field::PerformanceLevel)
    } else if path == "Settings/VideoConfig/basetexturefilter"@ {
        Some(Field::BaseTextureFilter)
    } else if path == "Settings/VideoConfig/basetexturemaxani"@ {
        Some(Field::BaseTextureMaxAnisotropy)
    } else if path == "Settings/VideoConfig/roadtexturefilter"@ {
        Some(Field::RoadTextureFilter)
    } else if path == "Settings/VideoConfig/roadtexturemaxani"@ {
        Some(Field::RoadTextureMaxAnisotropy)
    } else if path == "Settings/VideoConfig/carenvironmentmapenable"@ {
        Some(Field::CarEnvironmentMap)
    } else if path == "Settings/VideoConfig/globaldetaillevel"@ {
        Some(Field::GlobalDetailLevel)
    } else if path == "Settings/VideoConfig/roadreflectionenable"@ {
        Some(Field::RoadReflection)
    } else if path == "Settings/VideoConfig/shaderdetail"@ {
        Some(Field::ShaderDetail)
    } else if path == "Settings/VideoConfig/shadowdetail"@ {
        Some(Field::ShadowDetail)
    } else if path == "Settings/VideoConfig/fsaalevel"@ {
        Some(Field::FsaaLevel)
    } else if path == "Settings/VideoConfig/motionblurenable"@ {
        Some(Field::MotionBlur)
    } else if path == "Settings/VideoConfig/particlesystemenable"@ {
        Some(Field::ParticleSystem)
    } else if path == "Settings/VideoConfig/postprocessingenable"@ {
        Some(Field::PostProcessing)
    } else if path == "Settings/VideoConfig/rainenable"@ {
        Some(Field::Rain)
    } else if path == "Settings/VideoConfig/watersimenable"@ {
        Some(Field::WaterSim)
    } else if path == "Settings/VideoConfig/visualtreatment"@ {
        Some(Field::VisualTreatment)
    } else if path == "Settings/VideoConfig/maxskidmarks"@ {
        Some(Field::MaxSkidMarks)
    } else if path == "Settings/VideoConfig/audiomode"@ {
        Some(Field::AudioMode)
    } else if path == "Settings/VideoConfig/audioquality"@ {
        Some(Field::AudioQuality)
    } else if path == "Settings/Physics/CameraPOV"@ {
        Some(Field::Camera)
    } else if path == "Settings/Physics/TransmissionType"@ {
        Some(Field::Transmission)
    } else {
        None
    }
}

/// The field kept in attribute `key` of the element at `path`.
pub open spec fn attr_field(path: Seq<char>, key: Seq<char>) -> Option<Field> {
    if path == "Settings/UI/Audio/AudioOptions"@ {
        if key == "AudioMode"@ {
            Some(Field::AudioMode)
        } else if key == "MasterVol"@ {
            Some(Field::MasterVolume)
        } else if key == "SFXVol"@ {
            Some(Field::SfxVolume)
        } else if key == "CarVol"@ {
            Some(Field::CarVolume)
        } else if key == "SpeechVol"@ {
            Some(Field::SpeechVolume)
        } else if key == "GameMusicVol"@ {
            Some(Field::MusicVolume)
        } else if key == "FEMusicVol"@ {
            Some(Field::FrontendMusicVolume)
        } else {
            None
        }
    } else if path == "Settings/UI/Gameplay/GamePlayOptions"@ {
        if key == "camera"@ {
            Some(Field::Camera)
        } else if key == "transmission"@ {
            Some(Field::Transmission)
        } else if key == "damage"@ {
            Some(Field::Damage)
        } else if key == "speedUnits"@ {
            Some(Field::SpeedUnits)
        } else {
            None
        }
    } else {
        None
    }
}

/// `text.parse::<i32>().unwrap_or(default)`.
fn parse_or(text: &str, default: i32) -> (r: i32)
    ensures
        r == int_or(text@, default),
{
    match parse_i32_str(text) {
        Some(v) => v,
        None => default,
    }
}

impl GameSettings {
    /// Sets field `f` from `text`, as [`read_field`] says.
    #[verifier::rlimit(60)]
    #[verifier::spinoff_prover]
    pub fn read_field(&mut self, f: Field, text: &str)
        ensures
            final(self)@ == read_field(old(self)@, f, text@),
    {
        match f {
            Field::ScreenWidth => {
                self.screen_width = parse_or(text, 1024);
            },
            Field::ScreenHeight => {
                self.screen_height = parse_or(text, 768);
            },
            Field::ScreenWindowed => {
                self.screen_windowed = parse_or(text, 0) != 0;
            },
            Field::Brightness => {
                self.brightness = parse_or(text, 52);
            },
            Field::Vsync => {
                self.vsync = parse_or(text, 1) != 0;
            },
            Field::PerformanceLevel => {
                self.performance_level = parse_or(text, 2);
            },
            Field::BaseTextureFilter => {
                self.base_texture_filter = parse_or(text, 0);
            },
            Field::BaseTextureMaxAnisotropy => {
                self.base_texture_max_anisotropy = parse_or(text, 0);
            },
            Field::RoadTextureFilter => {
                self.road_texture_filter = parse_or(text, 0);
            },
            Field::RoadTextureMaxAnisotropy => {
                self.road_texture_max_anisotropy = parse_or(text, 0);
            },
            Field::CarEnvironmentMap => {
                self.car_environment_map = parse_or(text, 0);
            },
            Field::GlobalDetailLevel => {
                self.global_detail_level = parse_or(text, 0);
            },
            Field::RoadReflection => {
                self.road_reflection = parse_or(text, 0);
            },
            Field::ShaderDetail => {
                self.shader_detail = parse_or(text, 0);
            },
            Field::ShadowDetail => {
                self.shadow_detail = parse_or(text, 0);
            },
            Field::FsaaLevel => {
                self.fsaa_level = parse_or(text, 0);
            },
            Field::MotionBlur => {
                self.motion_blur = parse_or(text, 0) != 0;
            },
            Field::ParticleSystem => {
                self.particle_system = parse_or(text, 0) != 0;
            },
            Field::PostProcessing => {
                self.post_processing = parse_or(text, 0) != 0;
            },
            Field::Rain => {
                self.rain = parse_or(text, 0) != 0;
            },
            Field::WaterSim => {
                self.water_sim = parse_or(text, 0) != 0;
            },
            Field::VisualTreatment => {
                self.visual_treatment = parse_or(text, 0) != 0;
            },
            Field::MaxSkidMarks => {
                self.max_skid_marks = parse_or(text, 0);
            },
            Field::AudioMode => {
                self.audio_mode = parse_or(text, 1);
            },
            Field::AudioQuality => {
                self.audio_quality = parse_or(text, 0);
            },
            Field::MasterVolume => {
                self.master_volume = text.to_owned();
            },
            Field::SfxVolume => {
                self.sfx_volume = text.to_owned();
            },
            Field::CarVolume => {
                self.car_volume = text.to_owned();
            },
            Field::SpeechVolume => {
                self.speech_volume = text.to_owned();
            },
            Field::MusicVolume => {
                self.music_volume = text.to_owned();
            },
            Field::FrontendMusicVolume => {
                self.frontend_music_volume = text.to_owned();
            },
            Field::Camera => {
                self.camera = parse_or(text, 2);
            },
            Field::Transmission => {
                self.transmission = parse_or(text, 1);
            },
            Field::Damage => {
                self.damage = parse_or(text, 1) != 0;
            },
            Field::SpeedUnits => {
                self.speed_units = parse_or(text, 1);
            },
        }
    }

    /// The text written for field `f`.
    pub fn field_text(&self, f: Field) -> (r: String)
        ensures
            r@ == field_text(self@, f),
    {
        match f {
            Field::ScreenWidth => i32_to_string(self.screen_width),
            Field::ScreenHeight => i32_to_string(self.screen_height),
            Field::ScreenWindowed => flag_string(self.screen_windowed),
            Field::Brightness => i32_to_string(self.brightness),
            Field::Vsync => flag_string(self.vsync),
            Field::PerformanceLevel => i32_to_string(self.performance_level),
            Field::BaseTextureFilter => i32_to_string(self.base_texture_filter),
            Field::BaseTextureMaxAnisotropy => i32_to_string(self.base_texture_max_anisotropy),
            Field::RoadTextureFilter => i32_to_string(self.road_texture_filter),
            Field::RoadTextureMaxAnisotropy => i32_to_string(self.road_texture_max_anisotropy),
            Field::CarEnvironmentMap => i32_to_string(self.car_environment_map),
            Field::GlobalDetailLevel => i32_to_string(self.global_detail_level),
            Field::RoadReflection => i32_to_string(self.road_reflection),
            Field::ShaderDetail => i32_to_string(self.shader_detail),
            Field::ShadowDetail => i32_to_string(self.shadow_detail),
            Field::FsaaLevel => i32_to_string(self.fsaa_level),
            Field::MotionBlur => flag_string(self.motion_blur),
            Field::ParticleSystem => flag_string(self.particle_system),
            Field::PostProcessing => flag_string(self.post_processing),
            Field::Rain => flag_string(self.rain),
            Field::WaterSim => flag_string(self.water_sim),
            Field::VisualTreatment => flag_string(self.visual_treatment),
            Field::MaxSkidMarks => i32_to_string(self.max_skid_marks),
            Field::AudioMode => i32_to_string(self.audio_mode),
            Field::AudioQuality => i32_to_string(self.audio_quality),
            Field::MasterVolume => self.master_volume.clone(),
            Field::SfxVolume => self.sfx_volume.clone(),
            Field::CarVolume => self.car_volume.clone(),
            Field::SpeechVolume => self.speech_volume.clone(),
            Field::MusicVolume => self.music_volume.clone(),
            Field::FrontendMusicVolume => self.frontend_music_volume.clone(),
            Field::Camera => i32_to_string(self.camera),
            Field::Transmission => i32_to_string(self.transmission),
            Field::Damage => flag_string(self.damage),
            Field::SpeedUnits => i32_to_string(self.speed_units),
        }
    }
}

fn flag_string(b: bool) -> (r: String)
    ensures
        r@ == flag_text(b),
{
    if b {
        "1".to_owned()
    } else {
        "0".to_owned()
    }
}

/// The field kept as the text of the element at `path`.
pub fn text_field_of(path: &str) -> (r: Option<Field>)
    ensures
        r == text_field(path@),
{
    if str_eq(path, "Settings/VideoConfig/screenwidth") {
        Some(Field::ScreenWidth)
    } else if str_eq(path, "Settings/VideoConfig/screenheight") {
        Some(Field::ScreenHeight)
    } else if str_eq(path, "Settings/VideoConfig/screenwindowed") {
        Some(Field::ScreenWindowed)
    } else if str_eq(path, "Settings/VideoConfig/brightness") {
        Some(Field::Brightness)
    } else if str_eq(path, "Settings/VideoConfig/vsyncon") {
        Some(Field::Vsync)
    } else if str_eq(path, "Settings/VideoConfig/performancelevel") {
        Some(Field::PerformanceLevel)
    } else if str_eq(path, "Settings/VideoConfig/basetexturefilter") {
        Some(Field::BaseTextureFilter)
    } else if str_eq(path, "Settings/VideoConfig/basetexturemaxani") {
        Some(Field::BaseTextureMaxAnisotropy)
    } else if str_eq(path, "Settings/VideoConfig/roadtexturefilter") {
        Some(Field::RoadTextureFilter)
    } else if str_eq(path, "Settings/VideoConfig/roadtexturemaxani") {
        Some(Field::RoadTextureMaxAnisotropy)
    } else if str_eq(path, "Settings/VideoConfig/carenvironmentmapenable") {
        Some(Field::CarEnvironmentMap)
    } else if str_eq(path, "Settings/VideoConfig/globaldetaillevel") {
        Some(Field::GlobalDetailLevel)
    } else if str_eq(path, "Settings/VideoConfig/roadreflectionenable") {
        Some(Field::RoadReflection)
    } else if str_eq(path, "Settings/VideoConfig/shaderdetail") {
        Some(Field::ShaderDetail)
    } else if str_eq(path, "Settings/VideoConfig/shadowdetail") {
        Some(Field::ShadowDetail)
    } else if str_eq(path, "Settings/VideoConfig/fsaalevel") {
        Some(Field::FsaaLevel)
    } else if str_eq(path, "Settings/VideoConfig/motionblurenable") {
        Some(Field::MotionBlur)
    } else if str_eq(path, "Settings/VideoConfig/particlesystemenable") {
        Some(Field::ParticleSystem)
    } else if str_eq(path, "Settings/VideoConfig/postprocessingenable") {
        Some(Field::PostProcessing)
    } else if str_eq(path, "Settings/VideoConfig/rainenable") {
        Some(Field::Rain)
    } else if str_eq(path, "Settings/VideoConfig/watersimenable") {
        Some(Field::WaterSim)
    } else if str_eq(path, "Settings/VideoConfig/visualtreatment") {
        Some(Field::VisualTreatment)
    } else if str_eq(path, "Settings/VideoConfig/maxskidmarks") {
        Some(Field::MaxSkidMarks)
    } else if str_eq(path, "Settings/VideoConfig/audiomode") {
        Some(Field::AudioMode)
    } else if str_eq(path, "Settings/VideoConfig/audioquality") {
        Some(Field::AudioQuality)
    } else if str_eq(path, "Settings/Physics/CameraPOV") {
        Some(Field::Camera)
    } else if str_eq(path, "Settings/Physics/TransmissionType") {
        Some(Field::Transmission)
    } else {
        None
    }
}

/// The field kept in attribute `key` of the element at `path`.
pub fn attr_field_of(path: &str, key: &str) -> (r: Option<Field>)
    ensures
        r == attr_field(path@, key@),
{
    if str_eq(path, "Settings/UI/Audio/AudioOptions") {
        if str_eq(key, "AudioMode") {
            Some(Field::AudioMode)
        } else if str_eq(key, "MasterVol") {
            Some(Field::MasterVolume)
        } else if str_eq(key, "SFXVol") {
            Some(Field::SfxVolume)
        } else if str_eq(key, "CarVol") {
            Some(Field::CarVolume)
        } else if str_eq(key, "SpeechVol") {
            Some(Field::SpeechVolume)
        } else if str_eq(key, "GameMusicVol") {
            Some(Field::MusicVolume)
        } else if str_eq(key, "FEMusicVol") {
            Some(Field::FrontendMusicVolume)
        } else {
            None
        }
    } else if str_eq(path, "Settings/UI/Gameplay/GamePlayOptions") {
        if str_eq(key, "camera") {
            Some(Field::Camera)
        } else if str_eq(key, "transmission") {
            Some(Field::Transmission)
        } else if str_eq(key, "damage") {
            Some(Field::Damage)
        } else if str_eq(key, "speedUnits") {
            Some(Field::SpeedUnits)
        } else {
            None
        }
    } else {
        None
    }
}

// ---------------------------------------------------------------------------
// Reading the settings from the document's events
// ---------------------------------------------------------------------------

/// The path of the innermost open element: the names of the open elements joined by `/`.
pub open spec fn path_of(stack: Seq<Seq<char>>) -> Seq<char> {
    join_seq(stack, "/"@)
}

/// The open elements after an end tag (an end tag with none open changes nothing).
pub open spec fn pop_path(stack: Seq<Seq<char>>) -> Seq<Seq<char>> {
    if stack.len() > 0 {
        stack.drop_last()
    } else {
        stack
    }
}

/// The settings with the attributes of the element at `path` read in order; an attribute that
/// could not be read is passed over.
pub open spec fn apply_attrs(
    s: SettingsView,
    path: Seq<char>,
    attrs: Seq<Option<(Seq<char>, Seq<char>)>>,
) -> SettingsView
    decreases attrs.len(),
{
    if attrs.len() == 0 {
        s
    } else {
        let before = apply_attrs(s, path, attrs.drop_last());
        match attrs.last() {
            Some((k, v)) => match attr_field(path, k) {
                Some(f) => read_field(before, f, v),
                None => before,
            },
            None => before,
        }
    }
}

/// What reading keeps between events: the open elements, the last non-blank text seen in the
/// current element (trimmed), and the settings so far.
pub struct ReadState {
    pub stack: Seq<Seq<char>>,
    pub text: Seq<char>,
    pub settings: SettingsView,
}

pub open spec fn read_step(st: ReadState, ev: XmlEventView) -> ReadState {
    match ev.kind {
        XmlKind::Start => {
            let stack = st.stack.push(ev.name);
            ReadState {
                stack,
                text: Seq::empty(),
                settings: apply_attrs(st.settings, path_of(stack), ev.attrs),
            }
        },
        XmlKind::Empty => ReadState {
            settings: apply_attrs(st.settings, path_of(st.stack.push(ev.name)), ev.attrs),
            ..st
        },
        XmlKind::Text => {
            let t = trim_ws(text_or_empty(ev.text));
            if t.len() > 0 {
                ReadState { text: t, ..st }
            } else {
                st
            }
        },
        XmlKind::End => {
            let settings = if st.text.len() > 0 {
                match text_field(path_of(st.stack)) {
                    Some(f) => read_field(st.settings, f, st.text),
                    None => st.settings,
                }
            } else {
                st.settings
            };
            ReadState { stack: pop_path(st.stack), text: Seq::empty(), settings }
        },
        _ => st,
    }
}

/// The state after reading the events in order, from the default settings.
pub open spec fn read_all(evs: Seq<XmlEventView>) -> ReadState
    decreases evs.len(),
{
    if evs.len() == 0 {
        ReadState { stack: Seq::empty(), text: Seq::empty(), settings: default_settings() }
    } else {
        read_step(read_all(evs.drop_last()), evs.last())
    }
}

proof fn lemma_views_push(v: Seq<String>, x: String)
    ensures
        views_of(v.push(x)) == views_of(v).push(x@),
{
    assert(views_of(v.push(x)) =~= views_of(v).push(x@));
}

proof fn lemma_views_pop(v: Seq<String>)
    requires
        v.len() > 0,
    ensures
        views_of(v.drop_last()) == views_of(v).drop_last(),
{
    assert(views_of(v.drop_last()) =~= views_of(v).drop_last());
}

/// Pops the innermost open element, if any.
fn pop_element(stack: &mut Vec<String>)
    ensures
        views_of(final(stack)@) == pop_path(views_of(old(stack)@)),
{
    if stack.len() > 0 {
        proof {
            lemma_views_pop(stack@);
        }
        stack.pop();
    }
}

/// Reads the attributes of `ev`, the element at `path`, into `settings`.
fn apply_attributes(settings: &mut GameSettings, path: &str, ev: &XmlEvent)
    ensures
        final(settings)@ == apply_attrs(old(settings)@, path@, ev@.attrs),
{
    let ghost s0 = settings@;
    let mut i: usize = 0;
    while i < ev.attrs.len()
        invariant
            i <= ev@.attrs.len(),
            ev@.attrs.len() == ev.attrs@.len(),
            settings@ == apply_attrs(s0, path@, ev@.attrs.take(i as int)),
        decreases ev.attrs@.len() - i,
    {
        proof {
            assert(ev@.attrs.take(i + 1).drop_last() == ev@.attrs.take(i as int));
            assert(ev@.attrs[i as int] == crate::xml::attr_view(ev.attrs@[i as int]));
        }
        match &ev.attrs[i] {
            Some(kv) => match attr_field_of(path, kv.0.as_str()) {
                Some(f) => settings.read_field(f, kv.1.as_str()),
                None => {},
            },
            None => {},
        }
        i = i + 1;
    }
    assert(ev@.attrs.take(ev@.attrs.len() as int) == ev@.attrs);
}

/// The settings that the events say, read over the defaults: the attributes of the audio and
/// gameplay option elements, and the non-blank text of the video and physics elements.
pub fn settings_from_events(events: &Vec<XmlEvent>) -> (r: GameSettings)
    ensures
        r@ == read_all(events_view(events@)).settings,
{
    let ghost evs = events_view(events@);
    let mut settings = GameSettings::default();
    let mut stack: Vec<String> = Vec::new();
    let mut text = String::new();
    let mut i: usize = 0;
    assert(views_of(stack@) =~= Seq::<Seq<char>>::empty());
    while i < events.len()
        invariant
            i <= events@.len(),
            evs == events_view(events@),
            views_of(stack@) == read_all(evs.take(i as int)).stack,
            text@ == read_all(evs.take(i as int)).text,
            settings@ == read_all(evs.take(i as int)).settings,
        decreases events@.len() - i,
    {
        let ev = &events[i];
        proof {
            assert(evs.take(i + 1).drop_last() == evs.take(i as int));
            assert(evs[i as int] == ev@);
        }
        match ev.kind {
            XmlKind::Start => {
                proof {
                    lemma_views_push(stack@, ev.name);
                }
                stack.push(ev.name.clone());
                text = String::new();
                let path = join_strings(&stack, "/");
                apply_attributes(&mut settings, path.as_str(), ev);
            },
            XmlKind::Empty => {
                proof {
                    lemma_views_push(stack@, ev.name);
                }
                stack.push(ev.name.clone());
                let path = join_strings(&stack, "/");
                apply_attributes(&mut settings, path.as_str(), ev);
                proof {
                    lemma_views_pop(stack@);
                }
                stack.pop();
            },
            XmlKind::Text => {
                let raw = event_text_or_empty(ev);
                let t = trim_str(raw.as_str());
                if !t.as_str().is_empty() {
                    text = t;
                }
            },
            XmlKind::End => {
                if !text.as_str().is_empty() {
                    let path = join_strings(&stack, "/");
                    match text_field_of(path.as_str()) {
                        Some(f) => settings.read_field(f, text.as_str()),
                        None => {},
                    }
                }
                text = String::new();
                pop_element(&mut stack);
            },
            _ => {},
        }
        i = i + 1;
    }
    assert(evs.take(events@.len() as int) == evs);
    settings
}

/// `get_game_settings`: the settings of the document `content` (the text of UserSettings.xml)
/// as read from the events quick_xml reads from it, or the defaults where there is no such
/// file. Reading stops at the first malformed part, with what was read before it.
pub fn get_game_settings(content: Option<&str>) -> (r: GameSettings)
    ensures
        content is None ==> r@ == default_settings(),
        content matches Some(c) ==> r@ == read_all(xml_events_of(c@).0).settings,
{
    match content {
        None => GameSettings::default(),
        Some(c) => {
            let (events, _err) = read_xml_events(c);
            let r = settings_from_events(&events);
            assert(r@ == read_all(events_view(events@)).settings);
            r
        },
    }
}

// ---------------------------------------------------------------------------
// Writing the settings back into the document
// ---------------------------------------------------------------------------

/// One attribute as it is written back (`BytesStart::push_attribute`): its key, and as value
/// the setting it holds or else the value read, escaped.
pub open spec fn attr_written(s: SettingsView, path: Seq<char>, k: Seq<char>, v: Seq<char>) -> Seq<
    char,
> {
    " "@ + k + "=\""@ + xml_escape(
        match attr_field(path, k) {
            Some(f) => field_text(s, f),
            None => v,
        },
    ) + "\""@
}

/// The attributes of the element at `path` as they are written back; one that could not be
/// read is dropped.
pub open spec fn attrs_text(
    s: SettingsView,
    path: Seq<char>,
    attrs: Seq<Option<(Seq<char>, Seq<char>)>>,
) -> Seq<char>
    decreases attrs.len(),
{
    if attrs.len() == 0 {
        Seq::empty()
    } else {
        attrs_text(s, path, attrs.drop_last()) + match attrs.last() {
            Some((k, v)) => attr_written(s, path, k, v),
            None => Seq::empty(),
        }
    }
}

/// What rewriting keeps between events: the open elements, whether the next text is the one
/// just replaced, and the events written so far.
pub struct WriteState {
    pub stack: Seq<Seq<char>>,
    pub skip: bool,
    pub outs: Seq<(XmlKind, Seq<char>)>,
}

pub open spec fn write_step(s: SettingsView, st: WriteState, ev: XmlEventView) -> WriteState {
    match ev.kind {
        XmlKind::Start => {
            let stack = st.stack.push(ev.name);
            let p = path_of(stack);
            let outs = st.outs.push((XmlKind::Start, ev.name + attrs_text(s, p, ev.attrs)));
            match text_field(p) {
                Some(f) => WriteState {
                    stack,
                    skip: true,
                    outs: outs.push((XmlKind::Text, xml_escape(field_text(s, f)))),
                },
                None => WriteState { stack, skip: false, outs },
            }
        },
        XmlKind::Empty => WriteState {
            outs: st.outs.push(
                (XmlKind::Empty, ev.name + attrs_text(s, path_of(st.stack.push(ev.name)), ev.attrs)),
            ),
            ..st
        },
        XmlKind::Text => WriteState {
            skip: false,
            outs: if st.skip {
                st.outs
            } else {
                st.outs.push((XmlKind::Text, ev.raw))
            },
            ..st
        },
        XmlKind::End => WriteState {
            stack: pop_path(st.stack),
            outs: st.outs.push((XmlKind::End, ev.raw)),
            ..st
        },
        XmlKind::Eof => st,
        _ => WriteState { outs: st.outs.push((ev.kind, ev.raw)), ..st },
    }
}

/// The state after rewriting the events in order with the settings `s`.
pub open spec fn write_all(s: SettingsView, evs: Seq<XmlEventView>) -> WriteState
    decreases evs.len(),
{
    if evs.len() == 0 {
        WriteState { stack: Seq::empty(), skip: false, outs: Seq::empty() }
    } else {
        write_step(s, write_all(s, evs.drop_last()), evs.last())
    }
}

proof fn lemma_outs_push(v: Seq<XmlOut>, o: XmlOut)
    ensures
        outs_view(v.push(o)) == outs_view(v).push((o.kind, o.raw@)),
{
    assert(outs_view(v.push(o)) =~= outs_view(v).push((o.kind, o.raw@)));
}

/// Appends one attribute as it is written back.
fn push_attribute(out: &mut String, settings: &GameSettings, path: &str, k: &str, v: &str)
    ensures
        final(out)@ == old(out)@ + attr_written(settings@, path@, k@, v@),
{
    let value = match attr_field_of(path, k) {
        Some(f) => settings.field_text(f),
        None => v.to_owned(),
    };
    let escaped = escape_text(value.as_str());
    push_str(out, " ");
    push_str(out, k);
    push_str(out, "=\"");
    push_str(out, escaped.as_str());
    push_str(out, "\"");
    assert(final(out)@ =~= old(out)@ + attr_written(settings@, path@, k@, v@));
}

/// The content of the start tag of `ev`, the element at `path`, as it is written back.
fn start_content(settings: &GameSettings, path: &str, ev: &XmlEvent) -> (r: String)
    ensures
        r@ == ev@.name + attrs_text(settings@, path@, ev@.attrs),
{
    let mut out = ev.name.clone();
    let mut i: usize = 0;
    assert(ev@.attrs.take(0) =~= Seq::<Option<(Seq<char>, Seq<char>)>>::empty());
    assert(out@ =~= ev@.name + attrs_text(settings@, path@, ev@.attrs.take(0)));
    while i < ev.attrs.len()
        invariant
            i <= ev@.attrs.len(),
            ev@.attrs.len() == ev.attrs@.len(),
            out@ == ev@.name + attrs_text(settings@, path@, ev@.attrs.take(i as int)),
        decreases ev.attrs@.len() - i,
    {
        let ghost before = out@;
        proof {
            assert(ev@.attrs.take(i + 1).drop_last() == ev@.attrs.take(i as int));
            assert(ev@.attrs[i as int] == crate::xml::attr_view(ev.attrs@[i as int]));
        }
        match &ev.attrs[i] {
            Some(kv) => {
                push_attribute(&mut out, settings, path, kv.0.as_str(), kv.1.as_str());
            },
            None => {},
        }
        assert(out@ =~= ev@.name + attrs_text(settings@, path@, ev@.attrs.take(i + 1)));
        i = i + 1;
    }
    assert(ev@.attrs.take(ev@.attrs.len() as int) == ev@.attrs);
    out
}

/// The events of the document with the settings written in: the audio and gameplay option
/// attributes replaced, and the text of each video and physics element replaced.
pub fn rewrite_settings_events(events: &Vec<XmlEvent>, settings: &GameSettings) -> (r: Vec<XmlOut>)
    ensures
        outs_view(r@) == write_all(settings@, events_view(events@)).outs,
{
    let ghost evs = events_view(events@);
    let mut outs: Vec<XmlOut> = Vec::new();
    let mut stack: Vec<String> = Vec::new();
    let mut skip = false;
    let mut i: usize = 0;
    assert(views_of(stack@) =~= Seq::<Seq<char>>::empty());
    assert(outs_view(outs@) =~= Seq::<(XmlKind, Seq<char>)>::empty());
    while i < events.len()
        invariant
            i <= events@.len(),
            evs == events_view(events@),
            views_of(stack@) == write_all(settings@, evs.take(i as int)).stack,
            skip == write_all(settings@, evs.take(i as int)).skip,
            outs_view(outs@) == write_all(settings@, evs.take(i as int)).outs,
        decreases events@.len() - i,
    {
        let ev = &events[i];
        proof {
            assert(evs.take(i + 1).drop_last() == evs.take(i as int));
            assert(evs[i as int] == ev@);
        }
        match ev.kind {
            XmlKind::Start => {
                proof {
                    lemma_views_push(stack@, ev.name);
                }
                stack.push(ev.name.clone());
                let path = join_strings(&stack, "/");
                let content = start_content(settings, path.as_str(), ev);
                let o = XmlOut { kind: XmlKind::Start, raw: content };
                proof {
                    lemma_outs_push(outs@, o);
                }
                outs.push(o);
                match text_field_of(path.as_str()) {
                    Some(f) => {
                        let value = settings.field_text(f);
                        let t = XmlOut { kind: XmlKind::Text, raw: escape_text(value.as_str()) };
                        proof {
                            lemma_outs_push(outs@, t);
                        }
                        outs.push(t);
                        skip = true;
                    },
                    None => {
                        skip = false;
                    },
                }
            },
            XmlKind::Empty => {
                proof {
                    lemma_views_push(stack@, ev.name);
                }
                stack.push(ev.name.clone());
                let path = join_strings(&stack, "/");
                let content = start_content(settings, path.as_str(), ev);
                proof {
                    lemma_views_pop(stack@);
                }
                stack.pop();
                let o = XmlOut { kind: XmlKind::Empty, raw: content };
                proof {
                    lemma_outs_push(outs@, o);
                }
                outs.push(o);
            },
            XmlKind::Text => {
                if !skip {
                    let o = XmlOut { kind: XmlKind::Text, raw: ev.raw.clone() };
                    proof {
                        lemma_outs_push(outs@, o);
                    }
                    outs.push(o);
                }
                skip = false;
            },
            XmlKind::End => {
                pop_element(&mut stack);
                let o = XmlOut { kind: XmlKind::End, raw: ev.raw.clone() };
                proof {
                    lemma_outs_push(outs@, o);
                }
                outs.push(o);
            },
            XmlKind::Eof => {},
            _ => {
                let o = XmlOut { kind: ev.kind, raw: ev.raw.clone() };
                proof {
                    lemma_outs_push(outs@, o);
                }
                outs.push(o);
            },
        }
        i = i + 1;
    }
    assert(evs.take(events@.len() as int) == evs);
    outs
}

/// A result's texts.
pub open spec fn result_view(r: Result<String, String>) -> Result<Seq<char>, Seq<char>> {
    match r {
        Ok(t) => Ok(t@),
        Err(e) => Err(e@),
    }
}

/// A rewritten document: `XML parse error: ` and the reading's error where reading stopped on
/// one, else the text written for `outs`.
pub open spec fn rewrite_outcome(outs: Seq<(XmlKind, Seq<char>)>, read_error: Option<Seq<char>>) -> Result<
    Seq<char>,
    Seq<char>,
> {
    match read_error {
        Some(e) => Err("XML parse error: "@ + e),
        None => Ok(xml_outs_text(outs)),
    }
}

/// The text of the rewritten document: the reading error as `XML parse error: ...` where
/// reading stopped on one, else what the writer gives for `outs`.
fn finish_rewrite(outs: &Vec<XmlOut>, read_error: Option<String>) -> (r: Result<String, String>)
    ensures
        result_view(r) == rewrite_outcome(outs_view(outs@), opt_text(read_error)),
{
    match read_error {
        Some(e) => {
            let mut m = "XML parse error: ".to_owned();
            push_str(&mut m, e.as_str());
            Err(m)
        },
        None => write_xml_events(outs),
    }
}

/// `set_game_settings`: the document `content` (the text of UserSettings.xml) with the
/// settings written into the events quick_xml reads from it; an error where there is no such
/// file, or where the document is malformed (`XML parse error: ...`).
pub fn set_game_settings(content: Option<&str>, settings: &GameSettings) -> (r: Result<
    String,
    String,
>)
    ensures
        content is None ==> (r matches Err(m)
            && m@ == "UserSettings.xml not found. Launch the game at least once first."@),
        content matches Some(c) ==> result_view(r) == rewrite_outcome(
            write_all(settings@, xml_events_of(c@).0).outs,
            xml_events_of(c@).1,
        ),
{
    match content {
        None => Err("UserSettings.xml not found. Launch the game at least once first.".to_owned()),
        Some(c) => {
            let (events, err) = read_xml_events(c);
            let outs = rewrite_settings_events(&events, settings);
            let r = finish_rewrite(&outs, err);
            assert(write_all(settings@, events_view(events@)).outs == outs_view(outs@));
            r
        },
    }
}

// ---------------------------------------------------------------------------
// The game's language
// ---------------------------------------------------------------------------

/// What reading the language keeps: the open elements, whether the current element is the
/// language element, and the language once found.
pub struct LanguageState {
    pub stack: Seq<Seq<char>>,
    pub capture: bool,
    pub found: Option<Seq<char>>,
}

pub open spec fn language_step(st: LanguageState, ev: XmlEventView) -> LanguageState {
    if st.found is Some {
        st
    } else {
        match ev.kind {
            XmlKind::Start => {
                let stack = st.stack.push(ev.name);
                LanguageState { stack, capture: path_of(stack) == "Settings/UI/Language"@, found: None }
            },
            XmlKind::End => LanguageState { stack: pop_path(st.stack), capture: false, found: None },
            XmlKind::Text => {
                let t = trim_ws(text_or_empty(ev.text));
                if st.capture && t.len() > 0 {
                    LanguageState { found: Some(t), ..st }
                } else {
                    st
                }
            },
            _ => st,
        }
    }
}

pub open spec fn language_all(evs: Seq<XmlEventView>) -> LanguageState
    decreases evs.len(),
{
    if evs.len() == 0 {
        LanguageState { stack: Seq::empty(), capture: false, found: None }
    } else {
        language_step(language_all(evs.drop_last()), evs.last())
    }
}

/// The language the events give: the first non-blank text (trimmed) directly in the element
/// `Settings/UI/Language`, else `EN`.
pub open spec fn language_of(evs: Seq<XmlEventView>) -> Seq<char> {
    match language_all(evs).found {
        Some(l) => l,
        None => "EN"@,
    }
}

/// The language that the events give.
pub fn language_from_events(events: &Vec<XmlEvent>) -> (r: String)
    ensures
        r@ == language_of(events_view(events@)),
{
    let ghost evs = events_view(events@);
    let mut stack: Vec<String> = Vec::new();
    let mut capture = false;
    let mut i: usize = 0;
    assert(views_of(stack@) =~= Seq::<Seq<char>>::empty());
    while i < events.len()
        invariant
            i <= events@.len(),
            evs == events_view(events@),
            language_all(evs.take(i as int)).found is None,
            views_of(stack@) == language_all(evs.take(i as int)).stack,
            capture == language_all(evs.take(i as int)).capture,
        decreases events@.len() - i,
    {
        let ev = &events[i];
        proof {
            assert(evs.take(i + 1).drop_last() == evs.take(i as int));
            assert(evs[i as int] == ev@);
        }
        match ev.kind {
            XmlKind::Start => {
                proof {
                    lemma_views_push(stack@, ev.name);
                }
                stack.push(ev.name.clone());
                let path = join_strings(&stack, "/");
                capture = str_eq(path.as_str(), "Settings/UI/Language");
            },
            XmlKind::End => {
                pop_element(&mut stack);
                capture = false;
            },
            XmlKind::Text => {
                if capture {
                    let raw = event_text_or_empty(ev);
                    let t = trim_str(raw.as_str());
                    if !t.as_str().is_empty() {
                        proof {
                            lemma_language_found_stays(evs, i as int + 1);
                        }
                        return t;
                    }
                }
            },
            _ => {},
        }
        i = i + 1;
    }
    assert(evs.take(events@.len() as int) == evs);
    "EN".to_owned()
}

/// Once found, the language stays what was found.
proof fn lemma_language_found_stays(evs: Seq<XmlEventView>, k: int)
    requires
        0 <= k <= evs.len(),
        language_all(evs.take(k)).found is Some,
    ensures
        language_all(evs).found == language_all(evs.take(k)).found,
    decreases evs.len() - k,
{
    if k < evs.len() {
        assert(evs.take(k + 1).drop_last() == evs.take(k));
        lemma_language_found_stays(evs, k + 1);
    } else {
        assert(evs.take(k) == evs);
    }
}

/// `get_game_language`: the language of the document `content` (the text of
/// UserSettings.xml), `EN` where there is no such file or it names none.
pub fn get_game_language(content: Option<&str>) -> (r: String)
    ensures
        content is None ==> r@ == "EN"@,
        content matches Some(c) ==> r@ == language_of(xml_events_of(c@).0),
{
    match content {
        None => "EN".to_owned(),
        Some(c) => {
            let (events, _err) = read_xml_events(c);
            let r = language_from_events(&events);
            assert(r@ == language_of(events_view(events@)));
            r
        },
    }
}

/// What rewriting the language keeps: the open elements, whether the next text is to be
/// replaced, and the events written so far.
pub struct LanguageWriteState {
    pub stack: Seq<Seq<char>>,
    pub replace: bool,
    pub outs: Seq<(XmlKind, Seq<char>)>,
}

pub open spec fn language_write_step(
    lang: Seq<char>,
    st: LanguageWriteState,
    ev: XmlEventView,
) -> LanguageWriteState {
    match ev.kind {
        XmlKind::Start => {
            let stack = st.stack.push(ev.name);
            let p = path_of(stack);
            LanguageWriteState {
                stack,
                replace: p == "Settings/PersistentValue/Chat/DefaultChatGroup"@ || p
                    == "Settings/UI/Language"@,
                outs: st.outs.push((XmlKind::Start, ev.raw)),
            }
        },
        XmlKind::End => LanguageWriteState {
            stack: pop_path(st.stack),
            replace: false,
            outs: st.outs.push((XmlKind::End, ev.raw)),
        },
        XmlKind::Text => if st.replace {
            LanguageWriteState {
                replace: false,
                outs: st.outs.push((XmlKind::Text, xml_escape(lang))),
                ..st
            }
        } else {
            LanguageWriteState { outs: st.outs.push((XmlKind::Text, ev.raw)), ..st }
        },
        XmlKind::Eof => st,
        _ => LanguageWriteState { outs: st.outs.push((ev.kind, ev.raw)), ..st },
    }
}

pub open spec fn language_write_all(lang: Seq<char>, evs: Seq<XmlEventView>) -> LanguageWriteState
    decreases evs.len(),
{
    if evs.len() == 0 {
        LanguageWriteState { stack: Seq::empty(), replace: false, outs: Seq::empty() }
    } else {
        language_write_step(lang, language_write_all(lang, evs.drop_last()), evs.last())
    }
}

/// The events of the document with the text of the language element and of the default chat
/// group element replaced by `language` (escaped).
pub fn rewrite_language_events(events: &Vec<XmlEvent>, language: &str) -> (r: Vec<XmlOut>)
    ensures
        outs_view(r@) == language_write_all(language@, events_view(events@)).outs,
{
    let ghost evs = events_view(events@);
    let mut outs: Vec<XmlOut> = Vec::new();
    let mut stack: Vec<String> = Vec::new();
    let mut replace = false;
    let mut i: usize = 0;
    assert(views_of(stack@) =~= Seq::<Seq<char>>::empty());
    assert(outs_view(outs@) =~= Seq::<(XmlKind, Seq<char>)>::empty());
    while i < events.len()
        invariant
            i <= events@.len(),
            evs == events_view(events@),
            views_of(stack@) == language_write_all(language@, evs.take(i as int)).stack,
            replace == language_write_all(language@, evs.take(i as int)).replace,
            outs_view(outs@) == language_write_all(language@, evs.take(i as int)).outs,
        decreases events@.len() - i,
    {
        let ev = &events[i];
        proof {
            assert(evs.take(i + 1).drop_last() == evs.take(i as int));
            assert(evs[i as int] == ev@);
        }
        match ev.kind {
            XmlKind::Start => {
                proof {
                    lemma_views_push(stack@, ev.name);
                }
                stack.push(ev.name.clone());
                let path = join_strings(&stack, "/");
                replace = str_eq(path.as_str(), "Settings/PersistentValue/Chat/DefaultChatGroup")
                    || str_eq(path.as_str(), "Settings/UI/Language");
                let o = XmlOut { kind: XmlKind::Start, raw: ev.raw.clone() };
                proof {
                    lemma_outs_push(outs@, o);
                }
                outs.push(o);
            },
            XmlKind::End => {
                pop_element(&mut stack);
                replace = false;
                let o = XmlOut { kind: XmlKind::End, raw: ev.raw.clone() };
                proof {
                    lemma_outs_push(outs@, o);
                }
                outs.push(o);
            },
            XmlKind::Text => {
                let o = if replace {
                    XmlOut { kind: XmlKind::Text, raw: escape_text(language) }
                } else {
                    XmlOut { kind: XmlKind::Text, raw: ev.raw.clone() }
                };
                replace = false;
                proof {
                    lemma_outs_push(outs@, o);
                }
                outs.push(o);
            },
            XmlKind::Eof => {},
            _ => {
                let o = XmlOut { kind: ev.kind, raw: ev.raw.clone() };
                proof {
                    lemma_outs_push(outs@, o);
                }
                outs.push(o);
            },
        }
        i = i + 1;
    }
    assert(evs.take(events@.len() as int) == evs);
    outs
}

/// `set_game_language`: the document `content` (the text of UserSettings.xml) with the
/// language written into the events quick_xml reads from it; an error where there is no such
/// file, or where the document is malformed (`XML parse error: ...`).
pub fn set_game_language(content: Option<&str>, language: &str) -> (r: Result<String, String>)
    ensures
        content is None ==> (r matches Err(m)
            && m@ == "UserSettings.xml not found. Launch the game at least once first."@),
        content matches Some(c) ==> result_view(r) == rewrite_outcome(
            language_write_all(language@, xml_events_of(c@).0).outs,
            xml_events_of(c@).1,
        ),
{
    match content {
        None => Err("UserSettings.xml not found. Launch the game at least once first.".to_owned()),
        Some(c) => {
            let (events, err) = read_xml_events(c);
            let outs = rewrite_language_events(&events, language);
            let r = finish_rewrite(&outs, err);
            assert(language_write_all(language@, events_view(events@)).outs == outs_view(outs@));
            r
        },
    }
}

/// Writing the language in keeps the document's structure: one event is written for each event
/// read, of the same kind, and every event but a text is written as it was read.
pub proof fn law_language_keeps_structure(lang: Seq<char>, evs: Seq<XmlEventView>)
    requires
        forall|i: int| 0 <= i < evs.len() ==> (#[trigger] evs[i]).kind != XmlKind::Eof,
    ensures
        language_write_all(lang, evs).outs.len() == evs.len(),
        forall|i: int|
            0 <= i < evs.len() ==> (#[trigger] language_write_all(lang, evs).outs[i]).0 == evs[i].kind
                && (evs[i].kind != XmlKind::Text ==> language_write_all(lang, evs).outs[i].1
                == evs[i].raw),
    decreases evs.len(),
{
    if evs.len() > 0 {
        let init = evs.drop_last();
        assert forall|i: int| 0 <= i < init.len() implies (#[trigger] init[i]).kind != XmlKind::Eof by {
            assert(init[i] == evs[i]);
        }
        law_language_keeps_structure(lang, init);
        let before = language_write_all(lang, init).outs;
        let after = language_write_all(lang, evs).outs;
        assert(evs.last() == evs[evs.len() - 1]);
        assert(after.len() == before.len() + 1);
        assert forall|i: int| 0 <= i < evs.len() implies (#[trigger] after[i]).0 == evs[i].kind && (
        evs[i].kind != XmlKind::Text ==> after[i].1 == evs[i].raw) by {
            if i < init.len() {
                assert(after[i] == before[i]);
                assert(init[i] == evs[i]);
            }
        }
    }
}

/// What a setting is written as reads back as the same setting: writing the settings into the
/// document and reading them again changes no field.
#[verifier::spinoff_prover]
#[verifier::rlimit(100)]
pub proof fn law_field_roundtrip(s: SettingsView, f: Field)
    ensures
        read_field(s, f, field_text(s, f)) == s,
{
    reveal_strlit("1");
    reveal_strlit("0");
    match f {
        Field::ScreenWidth => crate::num::law_i32_text_roundtrip(s.screen_width),
        Field::ScreenHeight => crate::num::law_i32_text_roundtrip(s.screen_height),
        Field::Brightness => crate::num::law_i32_text_roundtrip(s.brightness),
        Field::PerformanceLevel => crate::num::law_i32_text_roundtrip(s.performance_level),
        Field::BaseTextureFilter => crate::num::law_i32_text_roundtrip(s.base_texture_filter),
        Field::BaseTextureMaxAnisotropy => crate::num::law_i32_text_roundtrip(s.base_texture_max_anisotropy),
        Field::RoadTextureFilter => crate::num::law_i32_text_roundtrip(s.road_texture_filter),
        Field::RoadTextureMaxAnisotropy => crate::num::law_i32_text_roundtrip(s.road_texture_max_anisotropy),
        Field::CarEnvironmentMap => crate::num::law_i32_text_roundtrip(s.car_environment_map),
        Field::GlobalDetailLevel => crate::num::law_i32_text_roundtrip(s.global_detail_level),
        Field::RoadReflection => crate::num::law_i32_text_roundtrip(s.road_reflection),
        Field::ShaderDetail => crate::num::law_i32_text_roundtrip(s.shader_detail),
        Field::ShadowDetail => crate::num::law_i32_text_roundtrip(s.shadow_detail),
        Field::FsaaLevel => crate::num::law_i32_text_roundtrip(s.fsaa_level),
        Field::MaxSkidMarks => crate::num::law_i32_text_roundtrip(s.max_skid_marks),
        Field::AudioMode => crate::num::law_i32_text_roundtrip(s.audio_mode),
        Field::AudioQuality => crate::num::law_i32_text_roundtrip(s.audio_quality),
        Field::Camera => crate::num::law_i32_text_roundtrip(s.camera),
        Field::Transmission => crate::num::law_i32_text_roundtrip(s.transmission),
        Field::SpeedUnits => crate::num::law_i32_text_roundtrip(s.speed_units),
        _ => {
            crate::num::law_i32_text_roundtrip(1);
            crate::num::law_i32_text_roundtrip(0);
            assert(signed_decimal(1) == "1"@) by {
                reveal_with_fuel(crate::num::decimal, 2);
            }
            assert(signed_decimal(0) == "0"@) by {
                reveal_with_fuel(crate::num::decimal, 2);
            }
        },
    }
}

// ---------------------------------------------------------------------------
// Reading back the language written
// ---------------------------------------------------------------------------

/// The open elements and whether the current element is the language element, followed over
/// all the events (as reading the language follows them until it finds one).
pub open spec fn lang_track(evs: Seq<XmlEventView>) -> (Seq<Seq<char>>, bool)
    decreases evs.len(),
{
    if evs.len() == 0 {
        (Seq::empty(), false)
    } else {
        let (stack, capture) = lang_track(evs.drop_last());
        let ev = evs.last();
        match ev.kind {
            XmlKind::Start => (stack.push(ev.name), path_of(stack.push(ev.name)) == "Settings/UI/Language"@),
            XmlKind::End => (pop_path(stack), false),
            _ => (stack, capture),
        }
    }
}

/// The events `back` are what reading gives of the document written from `evs` with the
/// language `lang`: one event for each event written, of the same kind and name, and each text
/// as written (the language where the writer put it, else the text that was read).
pub open spec fn read_back_as_written(evs: Seq<XmlEventView>, back: Seq<XmlEventView>, lang: Seq<char>) -> bool {
    &&& back.len() == evs.len()
    &&& forall|i: int| 0 <= i < evs.len() ==> (#[trigger] back[i]).kind == evs[i].kind && back[i].name == evs[i].name
    &&& forall|i: int|
        0 <= i < evs.len() && (#[trigger] evs[i]).kind == XmlKind::Text ==> text_or_empty(back[i].text) == (if language_write_all(
            lang,
            evs.take(i),
        ).replace {
            lang
        } else {
            text_or_empty(evs[i].text)
        })
}

proof fn lemma_language_read_back(evs: Seq<XmlEventView>, back: Seq<XmlEventView>, lang: Seq<char>, k: int)
    requires
        read_back_as_written(evs, back, lang),
        trim_ws(lang).len() > 0,
        0 <= k <= evs.len(),
        forall|i: int| 0 <= i < evs.len() ==> (#[trigger] evs[i]).kind != XmlKind::Eof,
    ensures
        language_write_all(lang, evs.take(k)).stack == lang_track(evs.take(k)).0,
        lang_track(back.take(k)) == lang_track(evs.take(k)),
        language_all(evs.take(k)).found is None ==> language_all(evs.take(k)).stack == lang_track(evs.take(k)).0
            && language_all(evs.take(k)).capture == lang_track(evs.take(k)).1,
        language_all(back.take(k)).found is None ==> language_all(back.take(k)).stack == lang_track(evs.take(k)).0
            && language_all(back.take(k)).capture == lang_track(evs.take(k)).1,
        language_all(back.take(k)).found is None && lang_track(evs.take(k)).1 ==> language_write_all(lang, evs.take(k)).replace,
        language_all(back.take(k)).found matches Some(l) ==> l == trim_ws(lang),
        language_all(evs.take(k)).found is Some ==> language_all(back.take(k)).found is Some,
    decreases k,
{
    if k > 0 {
        lemma_language_read_back(evs, back, lang, k - 1);
        let e = evs.take(k);
        let b = back.take(k);
        assert(e.drop_last() == evs.take(k - 1));
        assert(b.drop_last() == back.take(k - 1));
        assert(e.last() == evs[k - 1]);
        assert(b.last() == back[k - 1]);
        assert(back[k - 1].kind == evs[k - 1].kind && back[k - 1].name == evs[k - 1].name);
        if evs[k - 1].kind == XmlKind::Text {
            assert(text_or_empty(back[k - 1].text) == (if language_write_all(lang, evs.take(k - 1)).replace {
                lang
            } else {
                text_or_empty(evs[k - 1].text)
            }));
        }
    }
}

/// Reading back the language written: where the document names a language and quick_xml reads
/// the written document back as it was written (see [`read_back_as_written`]), reading gives
/// the language written, trimmed, whenever that is not blank.
pub proof fn law_language_roundtrip(evs: Seq<XmlEventView>, back: Seq<XmlEventView>, lang: Seq<char>)
    requires
        forall|i: int| 0 <= i < evs.len() ==> (#[trigger] evs[i]).kind != XmlKind::Eof,
        language_all(evs).found is Some,
        trim_ws(lang).len() > 0,
        read_back_as_written(evs, back, lang),
    ensures
        language_of(back) == trim_ws(lang),
{
    lemma_language_read_back(evs, back, lang, evs.len() as int);
    assert(evs.take(evs.len() as int) == evs);
    assert(back.take(evs.len() as int) == back);
}

/// Each setting kept as an element's text is kept in the element named after it, under
/// `Settings/VideoConfig` or `Settings/Physics`: the text of `<screenwidth>` is the screen
/// width, that of `<shaderdetail>` the shader detail, that of `<shadowdetail>` the shadow
/// detail, and so on; reading and writing go through this one table.
#[verifier::spinoff_prover]
#[verifier::rlimit(100)]
pub proof fn law_setting_elements_by_name()
    ensures
        text_field("Settings/VideoConfig/screenwidth"@) == Some(Field::ScreenWidth),
        text_field("Settings/VideoConfig/screenheight"@) == Some(Field::ScreenHeight),
        text_field("Settings/VideoConfig/screenwindowed"@) == Some(Field::ScreenWindowed),
        text_field("Settings/VideoConfig/brightness"@) == Some(Field::Brightness),
        text_field("Settings/VideoConfig/vsyncon"@) == Some(Field::Vsync),
        text_field("Settings/VideoConfig/performancelevel"@) == Some(Field::PerformanceLevel),
        text_field("Settings/VideoConfig/basetexturefilter"@) == Some(Field::BaseTextureFilter),
        text_field("Settings/VideoConfig/basetexturemaxani"@) == Some(Field::BaseTextureMaxAnisotropy),
        text_field("Settings/VideoConfig/roadtexturefilter"@) == Some(Field::RoadTextureFilter),
        text_field("Settings/VideoConfig/roadtexturemaxani"@) == Some(Field::RoadTextureMaxAnisotropy),
        text_field("Settings/VideoConfig/carenvironmentmapenable"@) == Some(Field::CarEnvironmentMap),
        text_field("Settings/VideoConfig/globaldetaillevel"@) == Some(Field::GlobalDetailLevel),
        text_field("Settings/VideoConfig/roadreflectionenable"@) == Some(Field::RoadReflection),
        text_field("Settings/VideoConfig/shaderdetail"@) == Some(Field::ShaderDetail),
        text_field("Settings/VideoConfig/shadowdetail"@) == Some(Field::ShadowDetail),
        text_field("Settings/VideoConfig/fsaalevel"@) == Some(Field::FsaaLevel),
        text_field("Settings/VideoConfig/motionblurenable"@) == Some(Field::MotionBlur),
        text_field("Settings/VideoConfig/particlesystemenable"@) == Some(Field::ParticleSystem),
        text_field("Settings/VideoConfig/postprocessingenable"@) == Some(Field::PostProcessing),
        text_field("Settings/VideoConfig/rainenable"@) == Some(Field::Rain),
        text_field("Settings/VideoConfig/watersimenable"@) == Some(Field::WaterSim),
        text_field("Settings/VideoConfig/visualtreatment"@) == Some(Field::VisualTreatment),
        text_field("Settings/VideoConfig/maxskidmarks"@) == Some(Field::MaxSkidMarks),
        text_field("Settings/VideoConfig/audiomode"@) == Some(Field::AudioMode),
        text_field("Settings/VideoConfig/audioquality"@) == Some(Field::AudioQuality),
        text_field("Settings/Physics/CameraPOV"@) == Some(Field::Camera),
        text_field("Settings/Physics/TransmissionType"@) == Some(Field::Transmission),
{
    reveal_strlit("Settings/VideoConfig/screenwidth");
    reveal_strlit("Settings/VideoConfig/screenheight");
    reveal_strlit("Settings/VideoConfig/screenwindowed");
    reveal_strlit("Settings/VideoConfig/brightness");
    reveal_strlit("Settings/VideoConfig/vsyncon");
    reveal_strlit("Settings/VideoConfig/performancelevel");
    reveal_strlit("Settings/VideoConfig/basetexturefilter");
    reveal_strlit("Settings/VideoConfig/basetexturemaxani");
    reveal_strlit("Settings/VideoConfig/roadtexturefilter");
    reveal_strlit("Settings/VideoConfig/roadtexturemaxani");
    reveal_strlit("Settings/VideoConfig/carenvironmentmapenable");
    reveal_strlit("Settings/VideoConfig/globaldetaillevel");
    reveal_strlit("Settings/VideoConfig/roadreflectionenable");
    reveal_strlit("Settings/VideoConfig/shaderdetail");
    reveal_strlit("Settings/VideoConfig/shadowdetail");
    reveal_strlit("Settings/VideoConfig/fsaalevel");
    reveal_strlit("Settings/VideoConfig/motionblurenable");
    reveal_strlit("Settings/VideoConfig/particlesystemenable");
    reveal_strlit("Settings/VideoConfig/postprocessingenable");
    reveal_strlit("Settings/VideoConfig/rainenable");
    reveal_strlit("Settings/VideoConfig/watersimenable");
    reveal_strlit("Settings/VideoConfig/visualtreatment");
    reveal_strlit("Settings/VideoConfig/maxskidmarks");
    reveal_strlit("Settings/VideoConfig/audiomode");
    reveal_strlit("Settings/VideoConfig/audioquality");
    reveal_strlit("Settings/Physics/CameraPOV");
    reveal_strlit("Settings/Physics/TransmissionType");
    assert("Settings/VideoConfig/screenheight"@ != "Settings/VideoConfig/screenwidth"@) by { assert("Settings/VideoConfig/screenheight"@.len() != "Settings/VideoConfig/screenwidth"@.len()); }
    assert("Settings/VideoConfig/screenwindowed"@ != "Settings/VideoConfig/screenwidth"@) by { assert("Settings/VideoConfig/screenwindowed"@.len() != "Settings/VideoConfig/screenwidth"@.len()); }
    assert("Settings/VideoConfig/screenwindowed"@ != "Settings/VideoConfig/screenheight"@) by { assert("Settings/VideoConfig/screenwindowed"@.len() != "Settings/VideoConfig/screenheight"@.len()); }
    assert("Settings/VideoConfig/brightness"@ != "Settings/VideoConfig/screenwidth"@) by { assert("Settings/VideoConfig/brightness"@.len() != "Settings/VideoConfig/screenwidth"@.len()); }
    assert("Settings/VideoConfig/brightness"@ != "Settings/VideoConfig/screenheight"@) by { assert("Settings/VideoConfig/brightness"@.len() != "Settings/VideoConfig/screenheight"@.len()); }
    assert("Settings/VideoConfig/brightness"@ != "Settings/VideoConfig/screenwindowed"@) by { assert("Settings/VideoConfig/brightness"@.len() != "Settings/VideoConfig/screenwindowed"@.len()); }
    assert("Settings/VideoConfig/vsyncon"@ != "Settings/VideoConfig/screenwidth"@) by { assert("Settings/VideoConfig/vsyncon"@.len() != "Settings/VideoConfig/screenwidth"@.len()); }
    assert("Settings/VideoConfig/vsyncon"@ != "Settings/VideoConfig/screenheight"@) by { assert("Settings/VideoConfig/vsyncon"@.len() != "Settings/VideoConfig/screenheight"@.len()); }
    assert("Settings/VideoConfig/vsyncon"@ != "Settings/VideoConfig/screenwindowed"@) by { assert("Settings/VideoConfig/vsyncon"@.len() != "Settings/VideoConfig/screenwindowed"@.len()); }
    assert("Settings/VideoConfig/vsyncon"@ != "Settings/VideoConfig/brightness"@) by { assert("Settings/VideoConfig/vsyncon"@.len() != "Settings/VideoConfig/brightness"@.len()); }
    assert("Settings/VideoConfig/performancelevel"@ != "Settings/VideoConfig/screenwidth"@) by { assert("Settings/VideoConfig/performancelevel"@.len() != "Settings/VideoConfig/screenwidth"@.len()); }
    assert("Settings/VideoConfig/performancelevel"@ != "Settings/VideoConfig/screenheight"@) by { assert("Settings/VideoConfig/performancelevel"@.len() != "Settings/VideoConfig/screenheight"@.len()); }
    assert("Settings/VideoConfig/performancelevel"@ != "Settings/VideoConfig/screenwindowed"@) by { assert("Settings/VideoConfig/performancelevel"@.len() != "Settings/VideoConfig/screenwindowed"@.len()); }
    assert("Settings/VideoConfig/performancelevel"@ != "Settings/VideoConfig/brightness"@) by { assert("Settings/VideoConfig/performancelevel"@.len() != "Settings/VideoConfig/brightness"@.len()); }
    assert("Settings/VideoConfig/performancelevel"@ != "Settings/VideoConfig/vsyncon"@) by { assert("Settings/VideoConfig/performancelevel"@.len() != "Settings/VideoConfig/vsyncon"@.len()); }
    assert("Settings/VideoConfig/basetexturefilter"@ != "Settings/VideoConfig/screenwidth"@) by { assert("Settings/VideoConfig/basetexturefilter"@.len() != "Settings/VideoConfig/screenwidth"@.len()); }
    assert("Settings/VideoConfig/basetexturefilter"@ != "Settings/VideoConfig/screenheight"@) by { assert("Settings/VideoConfig/basetexturefilter"@.len() != "Settings/VideoConfig/screenheight"@.len()); }
    assert("Settings/VideoConfig/basetexturefilter"@ != "Settings/VideoConfig/screenwindowed"@) by { assert("Settings/VideoConfig/basetexturefilter"@.len() != "Settings/VideoConfig/screenwindowed"@.len()); }
    assert("Settings/VideoConfig/basetexturefilter"@ != "Settings/VideoConfig/brightness"@) by { assert("Settings/VideoConfig/basetexturefilter"@.len() != "Settings/VideoConfig/brightness"@.len()); }
    assert("Settings/VideoConfig/basetexturefilter"@ != "Settings/VideoConfig/vsyncon"@) by { assert("Settings/VideoConfig/basetexturefilter"@.len() != "Settings/VideoConfig/vsyncon"@.len()); }
    assert("Settings/VideoConfig/basetexturefilter"@ != "Settings/VideoConfig/performancelevel"@) by { assert("Settings/VideoConfig/basetexturefilter"@.len() != "Settings/VideoConfig/performancelevel"@.len()); }
    assert("Settings/VideoConfig/basetexturemaxani"@ != "Settings/VideoConfig/screenwidth"@) by { assert("Settings/VideoConfig/basetexturemaxani"@.len() != "Settings/VideoConfig/screenwidth"@.len()); }
    assert("Settings/VideoConfig/basetexturemaxani"@ != "Settings/VideoConfig/screenheight"@) by { assert("Settings/VideoConfig/basetexturemaxani"@.len() != "Settings/VideoConfig/screenheight"@.len()); }
    assert("Settings/VideoConfig/basetexturemaxani"@ != "Settings/VideoConfig/screenwindowed"@) by { assert("Settings/VideoConfig/basetexturemaxani"@.len() != "Settings/VideoConfig/screenwindowed"@.len()); }
    assert("Settings/VideoConfig/basetexturemaxani"@ != "Settings/VideoConfig/brightness"@) by { assert("Settings/VideoConfig/basetexturemaxani"@.len() != "Settings/VideoConfig/brightness"@.len()); }
    assert("Settings/VideoConfig/basetexturemaxani"@ != "Settings/VideoConfig/vsyncon"@) by { assert("Settings/VideoConfig/basetexturemaxani"@.len() != "Settings/VideoConfig/vsyncon"@.len()); }
    assert("Settings/VideoConfig/basetexturemaxani"@ != "Settings/VideoConfig/performancelevel"@) by { assert("Settings/VideoConfig/basetexturemaxani"@.len() != "Settings/VideoConfig/performancelevel"@.len()); }
    assert("Settings/VideoConfig/basetexturemaxani"@ != "Settings/VideoConfig/basetexturefilter"@) by { assert("Settings/VideoConfig/basetexturemaxani"@[32] != "Settings/VideoConfig/basetexturefilter"@[32]); }
    assert("Settings/VideoConfig/roadtexturefilter"@ != "Settings/VideoConfig/screenwidth"@) by { assert("Settings/VideoConfig/roadtexturefilter"@.len() != "Settings/VideoConfig/screenwidth"@.len()); }
    assert("Settings/VideoConfig/roadtexturefilter"@ != "Settings/VideoConfig/screenheight"@) by { assert("Settings/VideoConfig/roadtexturefilter"@.len() != "Settings/VideoConfig/screenheight"@.len()); }
    assert("Settings/VideoConfig/roadtexturefilter"@ != "Settings/VideoConfig/screenwindowed"@) by { assert("Settings/VideoConfig/roadtexturefilter"@.len() != "Settings/VideoConfig/screenwindowed"@.len()); }
    assert("Settings/VideoConfig/roadtexturefilter"@ != "Settings/VideoConfig/brightness"@) by { assert("Settings/VideoConfig/roadtexturefilter"@.len() != "Settings/VideoConfig/brightness"@.len()); }
    assert("Settings/VideoConfig/roadtexturefilter"@ != "Settings/VideoConfig/vsyncon"@) by { assert("Settings/VideoConfig/roadtexturefilter"@.len() != "Settings/VideoConfig/vsyncon"@.len()); }
    assert("Settings/VideoConfig/roadtexturefilter"@ != "Settings/VideoConfig/performancelevel"@) by { assert("Settings/VideoConfig/roadtexturefilter"@.len() != "Settings/VideoConfig/performancelevel"@.len()); }
    assert("Settings/VideoConfig/roadtexturefilter"@ != "Settings/VideoConfig/basetexturefilter"@) by { assert("Settings/VideoConfig/roadtexturefilter"@[21] != "Settings/VideoConfig/basetexturefilter"@[21]); }
    assert("Settings/VideoConfig/roadtexturefilter"@ != "Settings/VideoConfig/basetexturemaxani"@) by { assert("Settings/VideoConfig/roadtexturefilter"@[21] != "Settings/VideoConfig/basetexturemaxani"@[21]); }
    assert("Settings/VideoConfig/roadtexturemaxani"@ != "Settings/VideoConfig/screenwidth"@) by { assert("Settings/VideoConfig/roadtexturemaxani"@.len() != "Settings/VideoConfig/screenwidth"@.len()); }
    assert("Settings/VideoConfig/roadtexturemaxani"@ != "Settings/VideoConfig/screenheight"@) by { assert("Settings/VideoConfig/roadtexturemaxani"@.len() != "Settings/VideoConfig/screenheight"@.len()); }
    assert("Settings/VideoConfig/roadtexturemaxani"@ != "Settings/VideoConfig/screenwindowed"@) by { assert("Settings/VideoConfig/roadtexturemaxani"@.len() != "Settings/VideoConfig/screenwindowed"@.len()); }
    assert("Settings/VideoConfig/roadtexturemaxani"@ != "Settings/VideoConfig/brightness"@) by { assert("Settings/VideoConfig/roadtexturemaxani"@.len() != "Settings/VideoConfig/brightness"@.len()); }
    assert("Settings/VideoConfig/roadtexturemaxani"@ != "Settings/VideoConfig/vsyncon"@) by { assert("Settings/VideoConfig/roadtexturemaxani"@.len() != "Settings/VideoConfig/vsyncon"@.len()); }
    assert("Settings/VideoConfig/roadtexturemaxani"@ != "Settings/VideoConfig/performancelevel"@) by { assert("Settings/VideoConfig/roadtexturemaxani"@.len() != "Settings/VideoConfig/performancelevel"@.len()); }
    assert("Settings/VideoConfig/roadtexturemaxani"@ != "Settings/VideoConfig/basetexturefilter"@) by { assert("Settings/VideoConfig/roadtexturemaxani"@[21] != "Settings/VideoConfig/basetexturefilter"@[21]); }
    assert("Settings/VideoConfig/roadtexturemaxani"@ != "Settings/VideoConfig/basetexturemaxani"@) by { assert("Settings/VideoConfig/roadtexturemaxani"@[21] != "Settings/VideoConfig/basetexturemaxani"@[21]); }
    assert("Settings/VideoConfig/roadtexturemaxani"@ != "Settings/VideoConfig/roadtexturefilter"@) by { assert("Settings/VideoConfig/roadtexturemaxani"@[32] != "Settings/VideoConfig/roadtexturefilter"@[32]); }
    assert("Settings/VideoConfig/carenvironmentmapenable"@ != "Settings/VideoConfig/screenwidth"@) by { assert("Settings/VideoConfig/carenvironmentmapenable"@.len() != "Settings/VideoConfig/screenwidth"@.len()); }
    assert("Settings/VideoConfig/carenvironmentmapenable"@ != "Settings/VideoConfig/screenheight"@) by { assert("Settings/VideoConfig/carenvironmentmapenable"@.len() != "Settings/VideoConfig/screenheight"@.len()); }
    assert("Settings/VideoConfig/carenvironmentmapenable"@ != "Settings/VideoConfig/screenwindowed"@) by { assert("Settings/VideoConfig/carenvironmentmapenable"@.len() != "Settings/VideoConfig/screenwindowed"@.len()); }
    assert("Settings/VideoConfig/carenvironmentmapenable"@ != "Settings/VideoConfig/brightness"@) by { assert("Settings/VideoConfig/carenvironmentmapenable"@.len() != "Settings/VideoConfig/brightness"@.len()); }
    assert("Settings/VideoConfig/carenvironmentmapenable"@ != "Settings/VideoConfig/vsyncon"@) by { assert("Settings/VideoConfig/carenvironmentmapenable"@.len() != "Settings/VideoConfig/vsyncon"@.len()); }
    assert("Settings/VideoConfig/carenvironmentmapenable"@ != "Settings/VideoConfig/performancelevel"@) by { assert("Settings/VideoConfig/carenvironmentmapenable"@.len() != "Settings/VideoConfig/performancelevel"@.len()); }
    assert("Settings/VideoConfig/carenvironmentmapenable"@ != "Settings/VideoConfig/basetexturefilter"@) by { assert("Settings/VideoConfig/carenvironmentmapenable"@.len() != "Settings/VideoConfig/basetexturefilter"@.len()); }
    assert("Settings/VideoConfig/carenvironmentmapenable"@ != "Settings/VideoConfig/basetexturemaxani"@) by { assert("Settings/VideoConfig/carenvironmentmapenable"@.len() != "Settings/VideoConfig/basetexturemaxani"@.len()); }
    assert("Settings/VideoConfig/carenvironmentmapenable"@ != "Settings/VideoConfig/roadtexturefilter"@) by { assert("Settings/VideoConfig/carenvironmentmapenable"@.len() != "Settings/VideoConfig/roadtexturefilter"@.len()); }
    assert("Settings/VideoConfig/carenvironmentmapenable"@ != "Settings/VideoConfig/roadtexturemaxani"@) by { assert("Settings/VideoConfig/carenvironmentmapenable"@.len() != "Settings/VideoConfig/roadtexturemaxani"@.len()); }
    assert("Settings/VideoConfig/globaldetaillevel"@ != "Settings/VideoConfig/screenwidth"@) by { assert("Settings/VideoConfig/globaldetaillevel"@.len() != "Settings/VideoConfig/screenwidth"@.len()); }
    assert("Settings/VideoConfig/globaldetaillevel"@ != "Settings/VideoConfig/screenheight"@) by { assert("Settings/VideoConfig/globaldetaillevel"@.len() != "Settings/VideoConfig/screenheight"@.len()); }
    assert("Settings/VideoConfig/globaldetaillevel"@ != "Settings/VideoConfig/screenwindowed"@) by { assert("Settings/VideoConfig/globaldetaillevel"@.len() != "Settings/VideoConfig/screenwindowed"@.len()); }
    assert("Settings/VideoConfig/globaldetaillevel"@ != "Settings/VideoConfig/brightness"@) by { assert("Settings/VideoConfig/globaldetaillevel"@.len() != "Settings/VideoConfig/brightness"@.len()); }
    assert("Settings/VideoConfig/globaldetaillevel"@ != "Settings/VideoConfig/vsyncon"@) by { assert("Settings/VideoConfig/globaldetaillevel"@.len() != "Settings/VideoConfig/vsyncon"@.len()); }
    assert("Settings/VideoConfig/globaldetaillevel"@ != "Settings/VideoConfig/performancelevel"@) by { assert("Settings/VideoConfig/globaldetaillevel"@.len() != "Settings/VideoConfig/performancelevel"@.len()); }
    assert("Settings/VideoConfig/globaldetaillevel"@ != "Settings/VideoConfig/basetexturefilter"@) by { assert("Settings/VideoConfig/globaldetaillevel"@[21] != "Settings/VideoConfig/basetexturefilter"@[21]); }
    assert("Settings/VideoConfig/globaldetaillevel"@ != "Settings/VideoConfig/basetexturemaxani"@) by { assert("Settings/VideoConfig/globaldetaillevel"@[21] != "Settings/VideoConfig/basetexturemaxani"@[21]); }
    assert("Settings/VideoConfig/globaldetaillevel"@ != "Settings/VideoConfig/roadtexturefilter"@) by { assert("Settings/VideoConfig/globaldetaillevel"@[21] != "Settings/VideoConfig/roadtexturefilter"@[21]); }
    assert("Settings/VideoConfig/globaldetaillevel"@ != "Settings/VideoConfig/roadtexturemaxani"@) by { assert("Settings/VideoConfig/globaldetaillevel"@[21] != "Settings/VideoConfig/roadtexturemaxani"@[21]); }
    assert("Settings/VideoConfig/globaldetaillevel"@ != "Settings/VideoConfig/carenvironmentmapenable"@) by { assert("Settings/VideoConfig/globaldetaillevel"@.len() != "Settings/VideoConfig/carenvironmentmapenable"@.len()); }
    assert("Settings/VideoConfig/roadreflectionenable"@ != "Settings/VideoConfig/screenwidth"@) by { assert("Settings/VideoConfig/roadreflectionenable"@.len() != "Settings/VideoConfig/screenwidth"@.len()); }
    assert("Settings/VideoConfig/roadreflectionenable"@ != "Settings/VideoConfig/screenheight"@) by { assert("Settings/VideoConfig/roadreflectionenable"@.len() != "Settings/VideoConfig/screenheight"@.len()); }
    assert("Settings/VideoConfig/roadreflectionenable"@ != "Settings/VideoConfig/screenwindowed"@) by { assert("Settings/VideoConfig/roadreflectionenable"@.len() != "Settings/VideoConfig/screenwindowed"@.len()); }
    assert("Settings/VideoConfig/roadreflectionenable"@ != "Settings/VideoConfig/brightness"@) by { assert("Settings/VideoConfig/roadreflectionenable"@.len() != "Settings/VideoConfig/brightness"@.len()); }
    assert("Settings/VideoConfig/roadreflectionenable"@ != "Settings/VideoConfig/vsyncon"@) by { assert("Settings/VideoConfig/roadreflectionenable"@.len() != "Settings/VideoConfig/vsyncon"@.len()); }
    assert("Settings/VideoConfig/roadreflectionenable"@ != "Settings/VideoConfig/performancelevel"@) by { assert("Settings/VideoConfig/roadreflectionenable"@.len() != "Settings/VideoConfig/performancelevel"@.len()); }
    assert("Settings/VideoConfig/roadreflectionenable"@ != "Settings/VideoConfig/basetexturefilter"@) by { assert("Settings/VideoConfig/roadreflectionenable"@.len() != "Settings/VideoConfig/basetexturefilter"@.len()); }
    assert("Settings/VideoConfig/roadreflectionenable"@ != "Settings/VideoConfig/basetexturemaxani"@) by { assert("Settings/VideoConfig/roadreflectionenable"@.len() != "Settings/VideoConfig/basetexturemaxani"@.len()); }
    assert("Settings/VideoConfig/roadreflectionenable"@ != "Settings/VideoConfig/roadtexturefilter"@) by { assert("Settings/VideoConfig/roadreflectionenable"@.len() != "Settings/VideoConfig/roadtexturefilter"@.len()); }
    assert("Settings/VideoConfig/roadreflectionenable"@ != "Settings/VideoConfig/roadtexturemaxani"@) by { assert("Settings/VideoConfig/roadreflectionenable"@.len() != "Settings/VideoConfig/roadtexturemaxani"@.len()); }
    assert("Settings/VideoConfig/roadreflectionenable"@ != "Settings/VideoConfig/carenvironmentmapenable"@) by { assert("Settings/VideoConfig/roadreflectionenable"@.len() != "Settings/VideoConfig/carenvironmentmapenable"@.len()); }
    assert("Settings/VideoConfig/roadreflectionenable"@ != "Settings/VideoConfig/globaldetaillevel"@) by { assert("Settings/VideoConfig/roadreflectionenable"@.len() != "Settings/VideoConfig/globaldetaillevel"@.len()); }
    assert("Settings/VideoConfig/shaderdetail"@ != "Settings/VideoConfig/screenwidth"@) by { assert("Settings/VideoConfig/shaderdetail"@.len() != "Settings/VideoConfig/screenwidth"@.len()); }
    assert("Settings/VideoConfig/shaderdetail"@ != "Settings/VideoConfig/screenheight"@) by { assert("Settings/VideoConfig/shaderdetail"@[22] != "Settings/VideoConfig/screenheight"@[22]); }
    assert("Settings/VideoConfig/shaderdetail"@ != "Settings/VideoConfig/screenwindowed"@) by { assert("Settings/VideoConfig/shaderdetail"@.len() != "Settings/VideoConfig/screenwindowed"@.len()); }
    assert("Settings/VideoConfig/shaderdetail"@ != "Settings/VideoConfig/brightness"@) by { assert("Settings/VideoConfig/shaderdetail"@.len() != "Settings/VideoConfig/brightness"@.len()); }
    assert("Settings/VideoConfig/shaderdetail"@ != "Settings/VideoConfig/vsyncon"@) by { assert("Settings/VideoConfig/shaderdetail"@.len() != "Settings/VideoConfig/vsyncon"@.len()); }
    assert("Settings/VideoConfig/shaderdetail"@ != "Settings/VideoConfig/performancelevel"@) by { assert("Settings/VideoConfig/shaderdetail"@.len() != "Settings/VideoConfig/performancelevel"@.len()); }
    assert("Settings/VideoConfig/shaderdetail"@ != "Settings/VideoConfig/basetexturefilter"@) by { assert("Settings/VideoConfig/shaderdetail"@.len() != "Settings/VideoConfig/basetexturefilter"@.len()); }
    assert("Settings/VideoConfig/shaderdetail"@ != "Settings/VideoConfig/basetexturemaxani"@) by { assert("Settings/VideoConfig/shaderdetail"@.len() != "Settings/VideoConfig/basetexturemaxani"@.len()); }
    assert("Settings/VideoConfig/shaderdetail"@ != "Settings/VideoConfig/roadtexturefilter"@) by { assert("Settings/VideoConfig/shaderdetail"@.len() != "Settings/VideoConfig/roadtexturefilter"@.len()); }
    assert("Settings/VideoConfig/shaderdetail"@ != "Settings/VideoConfig/roadtexturemaxani"@) by { assert("Settings/VideoConfig/shaderdetail"@.len() != "Settings/VideoConfig/roadtexturemaxani"@.len()); }
    assert("Settings/VideoConfig/shaderdetail"@ != "Settings/VideoConfig/carenvironmentmapenable"@) by { assert("Settings/VideoConfig/shaderdetail"@.len() != "Settings/VideoConfig/carenvironmentmapenable"@.len()); }
    assert("Settings/VideoConfig/shaderdetail"@ != "Settings/VideoConfig/globaldetaillevel"@) by { assert("Settings/VideoConfig/shaderdetail"@.len() != "Settings/VideoConfig/globaldetaillevel"@.len()); }
    assert("Settings/VideoConfig/shaderdetail"@ != "Settings/VideoConfig/roadreflectionenable"@) by { assert("Settings/VideoConfig/shaderdetail"@.len() != "Settings/VideoConfig/roadreflectionenable"@.len()); }
    assert("Settings/VideoConfig/shadowdetail"@ != "Settings/VideoConfig/screenwidth"@) by { assert("Settings/VideoConfig/shadowdetail"@.len() != "Settings/VideoConfig/screenwidth"@.len()); }
    assert("Settings/VideoConfig/shadowdetail"@ != "Settings/VideoConfig/screenheight"@) by { assert("Settings/VideoConfig/shadowdetail"@[22] != "Settings/VideoConfig/screenheight"@[22]); }
    assert("Settings/VideoConfig/shadowdetail"@ != "Settings/VideoConfig/screenwindowed"@) by { assert("Settings/VideoConfig/shadowdetail"@.len() != "Settings/VideoConfig/screenwindowed"@.len()); }
    assert("Settings/VideoConfig/shadowdetail"@ != "Settings/VideoConfig/brightness"@) by { assert("Settings/VideoConfig/shadowdetail"@.len() != "Settings/VideoConfig/brightness"@.len()); }
    assert("Settings/VideoConfig/shadowdetail"@ != "Settings/VideoConfig/vsyncon"@) by { assert("Settings/VideoConfig/shadowdetail"@.len() != "Settings/VideoConfig/vsyncon"@.len()); }
    assert("Settings/VideoConfig/shadowdetail"@ != "Settings/VideoConfig/performancelevel"@) by { assert("Settings/VideoConfig/shadowdetail"@.len() != "Settings/VideoConfig/performancelevel"@.len()); }
    assert("Settings/VideoConfig/shadowdetail"@ != "Settings/VideoConfig/basetexturefilter"@) by { assert("Settings/VideoConfig/shadowdetail"@.len() != "Settings/VideoConfig/basetexturefilter"@.len()); }
    assert("Settings/VideoConfig/shadowdetail"@ != "Settings/VideoConfig/basetexturemaxani"@) by { assert("Settings/VideoConfig/shadowdetail"@.len() != "Settings/VideoConfig/basetexturemaxani"@.len()); }
    assert("Settings/VideoConfig/shadowdetail"@ != "Settings/VideoConfig/roadtexturefilter"@) by { assert("Settings/VideoConfig/shadowdetail"@.len() != "Settings/VideoConfig/roadtexturefilter"@.len()); }
    assert("Settings/VideoConfig/shadowdetail"@ != "Settings/VideoConfig/roadtexturemaxani"@) by { assert("Settings/VideoConfig/shadowdetail"@.len() != "Settings/VideoConfig/roadtexturemaxani"@.len()); }
    assert("Settings/VideoConfig/shadowdetail"@ != "Settings/VideoConfig/carenvironmentmapenable"@) by { assert("Settings/VideoConfig/shadowdetail"@.len() != "Settings/VideoConfig/carenvironmentmapenable"@.len()); }
    assert("Settings/VideoConfig/shadowdetail"@ != "Settings/VideoConfig/globaldetaillevel"@) by { assert("Settings/VideoConfig/shadowdetail"@.len() != "Settings/VideoConfig/globaldetaillevel"@.len()); }
    assert("Settings/VideoConfig/shadowdetail"@ != "Settings/VideoConfig/roadreflectionenable"@) by { assert("Settings/VideoConfig/shadowdetail"@.len() != "Settings/VideoConfig/roadreflectionenable"@.len()); }
    assert("Settings/VideoConfig/shadowdetail"@ != "Settings/VideoConfig/shaderdetail"@) by { assert("Settings/VideoConfig/shadowdetail"@[25] != "Settings/VideoConfig/shaderdetail"@[25]); }
    assert("Settings/VideoConfig/fsaalevel"@ != "Settings/VideoConfig/screenwidth"@) by { assert("Settings/VideoConfig/fsaalevel"@.len() != "Settings/VideoConfig/screenwidth"@.len()); }
    assert("Settings/VideoConfig/fsaalevel"@ != "Settings/VideoConfig/screenheight"@) by { assert("Settings/VideoConfig/fsaalevel"@.len() != "Settings/VideoConfig/screenheight"@.len()); }
    assert("Settings/VideoConfig/fsaalevel"@ != "Settings/VideoConfig/screenwindowed"@) by { assert("Settings/VideoConfig/fsaalevel"@.len() != "Settings/VideoConfig/screenwindowed"@.len()); }
    assert("Settings/VideoConfig/fsaalevel"@ != "Settings/VideoConfig/brightness"@) by { assert("Settings/VideoConfig/fsaalevel"@.len() != "Settings/VideoConfig/brightness"@.len()); }
    assert("Settings/VideoConfig/fsaalevel"@ != "Settings/VideoConfig/vsyncon"@) by { assert("Settings/VideoConfig/fsaalevel"@.len() != "Settings/VideoConfig/vsyncon"@.len()); }
    assert("Settings/VideoConfig/fsaalevel"@ != "Settings/VideoConfig/performancelevel"@) by { assert("Settings/VideoConfig/fsaalevel"@.len() != "Settings/VideoConfig/performancelevel"@.len()); }
    assert("Settings/VideoConfig/fsaalevel"@ != "Settings/VideoConfig/basetexturefilter"@) by { assert("Settings/VideoConfig/fsaalevel"@.len() != "Settings/VideoConfig/basetexturefilter"@.len()); }
    assert("Settings/VideoConfig/fsaalevel"@ != "Settings/VideoConfig/basetexturemaxani"@) by { assert("Settings/VideoConfig/fsaalevel"@.len() != "Settings/VideoConfig/basetexturemaxani"@.len()); }
    assert("Settings/VideoConfig/fsaalevel"@ != "Settings/VideoConfig/roadtexturefilter"@) by { assert("Settings/VideoConfig/fsaalevel"@.len() != "Settings/VideoConfig/roadtexturefilter"@.len()); }
    assert("Settings/VideoConfig/fsaalevel"@ != "Settings/VideoConfig/roadtexturemaxani"@) by { assert("Settings/VideoConfig/fsaalevel"@.len() != "Settings/VideoConfig/roadtexturemaxani"@.len()); }
    assert("Settings/VideoConfig/fsaalevel"@ != "Settings/VideoConfig/carenvironmentmapenable"@) by { assert("Settings/VideoConfig/fsaalevel"@.len() != "Settings/VideoConfig/carenvironmentmapenable"@.len()); }
    assert("Settings/VideoConfig/fsaalevel"@ != "Settings/VideoConfig/globaldetaillevel"@) by { assert("Settings/VideoConfig/fsaalevel"@.len() != "Settings/VideoConfig/globaldetaillevel"@.len()); }
    assert("Settings/VideoConfig/fsaalevel"@ != "Settings/VideoConfig/roadreflectionenable"@) by { assert("Settings/VideoConfig/fsaalevel"@.len() != "Settings/VideoConfig/roadreflectionenable"@.len()); }
    assert("Settings/VideoConfig/fsaalevel"@ != "Settings/VideoConfig/shaderdetail"@) by { assert("Settings/VideoConfig/fsaalevel"@.len() != "Settings/VideoConfig/shaderdetail"@.len()); }
    assert("Settings/VideoConfig/fsaalevel"@ != "Settings/VideoConfig/shadowdetail"@) by { assert("Settings/VideoConfig/fsaalevel"@.len() != "Settings/VideoConfig/shadowdetail"@.len()); }
    assert("Settings/VideoConfig/motionblurenable"@ != "Settings/VideoConfig/screenwidth"@) by { assert("Settings/VideoConfig/motionblurenable"@.len() != "Settings/VideoConfig/screenwidth"@.len()); }
    assert("Settings/VideoConfig/motionblurenable"@ != "Settings/VideoConfig/screenheight"@) by { assert("Settings/VideoConfig/motionblurenable"@.len() != "Settings/VideoConfig/screenheight"@.len()); }
    assert("Settings/VideoConfig/motionblurenable"@ != "Settings/VideoConfig/screenwindowed"@) by { assert("Settings/VideoConfig/motionblurenable"@.len() != "Settings/VideoConfig/screenwindowed"@.len()); }
    assert("Settings/VideoConfig/motionblurenable"@ != "Settings/VideoConfig/brightness"@) by { assert("Settings/VideoConfig/motionblurenable"@.len() != "Settings/VideoConfig/brightness"@.len()); }
    assert("Settings/VideoConfig/motionblurenable"@ != "Settings/VideoConfig/vsyncon"@) by { assert("Settings/VideoConfig/motionblurenable"@.len() != "Settings/VideoConfig/vsyncon"@.len()); }
    assert("Settings/VideoConfig/motionblurenable"@ != "Settings/VideoConfig/performancelevel"@) by { assert("Settings/VideoConfig/motionblurenable"@[21] != "Settings/VideoConfig/performancelevel"@[21]); }
    assert("Settings/VideoConfig/motionblurenable"@ != "Settings/VideoConfig/basetexturefilter"@) by { assert("Settings/VideoConfig/motionblurenable"@.len() != "Settings/VideoConfig/basetexturefilter"@.len()); }
    assert("Settings/VideoConfig/motionblurenable"@ != "Settings/VideoConfig/basetexturemaxani"@) by { assert("Settings/VideoConfig/motionblurenable"@.len() != "Settings/VideoConfig/basetexturemaxani"@.len()); }
    assert("Settings/VideoConfig/motionblurenable"@ != "Settings/VideoConfig/roadtexturefilter"@) by { assert("Settings/VideoConfig/motionblurenable"@.len() != "Settings/VideoConfig/roadtexturefilter"@.len()); }
    assert("Settings/VideoConfig/motionblurenable"@ != "Settings/VideoConfig/roadtexturemaxani"@) by { assert("Settings/VideoConfig/motionblurenable"@.len() != "Settings/VideoConfig/roadtexturemaxani"@.len()); }
    assert("Settings/VideoConfig/motionblurenable"@ != "Settings/VideoConfig/carenvironmentmapenable"@) by { assert("Settings/VideoConfig/motionblurenable"@.len() != "Settings/VideoConfig/carenvironmentmapenable"@.len()); }
    assert("Settings/VideoConfig/motionblurenable"@ != "Settings/VideoConfig/globaldetaillevel"@) by { assert("Settings/VideoConfig/motionblurenable"@.len() != "Settings/VideoConfig/globaldetaillevel"@.len()); }
    assert("Settings/VideoConfig/motionblurenable"@ != "Settings/VideoConfig/roadreflectionenable"@) by { assert("Settings/VideoConfig/motionblurenable"@.len() != "Settings/VideoConfig/roadreflectionenable"@.len()); }
    assert("Settings/VideoConfig/motionblurenable"@ != "Settings/VideoConfig/shaderdetail"@) by { assert("Settings/VideoConfig/motionblurenable"@.len() != "Settings/VideoConfig/shaderdetail"@.len()); }
    assert("Settings/VideoConfig/motionblurenable"@ != "Settings/VideoConfig/shadowdetail"@) by { assert("Settings/VideoConfig/motionblurenable"@.len() != "Settings/VideoConfig/shadowdetail"@.len()); }
    assert("Settings/VideoConfig/motionblurenable"@ != "Settings/VideoConfig/fsaalevel"@) by { assert("Settings/VideoConfig/motionblurenable"@.len() != "Settings/VideoConfig/fsaalevel"@.len()); }
    assert("Settings/VideoConfig/particlesystemenable"@ != "Settings/VideoConfig/screenwidth"@) by { assert("Settings/VideoConfig/particlesystemenable"@.len() != "Settings/VideoConfig/screenwidth"@.len()); }
    assert("Settings/VideoConfig/particlesystemenable"@ != "Settings/VideoConfig/screenheight"@) by { assert("Settings/VideoConfig/particlesystemenable"@.len() != "Settings/VideoConfig/screenheight"@.len()); }
    assert("Settings/VideoConfig/particlesystemenable"@ != "Settings/VideoConfig/screenwindowed"@) by { assert("Settings/VideoConfig/particlesystemenable"@.len() != "Settings/VideoConfig/screenwindowed"@.len()); }
    assert("Settings/VideoConfig/particlesystemenable"@ != "Settings/VideoConfig/brightness"@) by { assert("Settings/VideoConfig/particlesystemenable"@.len() != "Settings/VideoConfig/brightness"@.len()); }
    assert("Settings/VideoConfig/particlesystemenable"@ != "Settings/VideoConfig/vsyncon"@) by { assert("Settings/VideoConfig/particlesystemenable"@.len() != "Settings/VideoConfig/vsyncon"@.len()); }
    assert("Settings/VideoConfig/particlesystemenable"@ != "Settings/VideoConfig/performancelevel"@) by { assert("Settings/VideoConfig/particlesystemenable"@.len() != "Settings/VideoConfig/performancelevel"@.len()); }
    assert("Settings/VideoConfig/particlesystemenable"@ != "Settings/VideoConfig/basetexturefilter"@) by { assert("Settings/VideoConfig/particlesystemenable"@.len() != "Settings/VideoConfig/basetexturefilter"@.len()); }
    assert("Settings/VideoConfig/particlesystemenable"@ != "Settings/VideoConfig/basetexturemaxani"@) by { assert("Settings/VideoConfig/particlesystemenable"@.len() != "Settings/VideoConfig/basetexturemaxani"@.len()); }
    assert("Settings/VideoConfig/particlesystemenable"@ != "Settings/VideoConfig/roadtexturefilter"@) by { assert("Settings/VideoConfig/particlesystemenable"@.len() != "Settings/VideoConfig/roadtexturefilter"@.len()); }
    assert("Settings/VideoConfig/particlesystemenable"@ != "Settings/VideoConfig/roadtexturemaxani"@) by { assert("Settings/VideoConfig/particlesystemenable"@.len() != "Settings/VideoConfig/roadtexturemaxani"@.len()); }
    assert("Settings/VideoConfig/particlesystemenable"@ != "Settings/VideoConfig/carenvironmentmapenable"@) by { assert("Settings/VideoConfig/particlesystemenable"@.len() != "Settings/VideoConfig/carenvironmentmapenable"@.len()); }
    assert("Settings/VideoConfig/particlesystemenable"@ != "Settings/VideoConfig/globaldetaillevel"@) by { assert("Settings/VideoConfig/particlesystemenable"@.len() != "Settings/VideoConfig/globaldetaillevel"@.len()); }
    assert("Settings/VideoConfig/particlesystemenable"@ != "Settings/VideoConfig/roadreflectionenable"@) by { assert("Settings/VideoConfig/particlesystemenable"@[21] != "Settings/VideoConfig/roadreflectionenable"@[21]); }
    assert("Settings/VideoConfig/particlesystemenable"@ != "Settings/VideoConfig/shaderdetail"@) by { assert("Settings/VideoConfig/particlesystemenable"@.len() != "Settings/VideoConfig/shaderdetail"@.len()); }
    assert("Settings/VideoConfig/particlesystemenable"@ != "Settings/VideoConfig/shadowdetail"@) by { assert("Settings/VideoConfig/particlesystemenable"@.len() != "Settings/VideoConfig/shadowdetail"@.len()); }
    assert("Settings/VideoConfig/particlesystemenable"@ != "Settings/VideoConfig/fsaalevel"@) by { assert("Settings/VideoConfig/particlesystemenable"@.len() != "Settings/VideoConfig/fsaalevel"@.len()); }
    assert("Settings/VideoConfig/particlesystemenable"@ != "Settings/VideoConfig/motionblurenable"@) by { assert("Settings/VideoConfig/particlesystemenable"@.len() != "Settings/VideoConfig/motionblurenable"@.len()); }
    assert("Settings/VideoConfig/postprocessingenable"@ != "Settings/VideoConfig/screenwidth"@) by { assert("Settings/VideoConfig/postprocessingenable"@.len() != "Settings/VideoConfig/screenwidth"@.len()); }
    assert("Settings/VideoConfig/postprocessingenable"@ != "Settings/VideoConfig/screenheight"@) by { assert("Settings/VideoConfig/postprocessingenable"@.len() != "Settings/VideoConfig/screenheight"@.len()); }
    assert("Settings/VideoConfig/postprocessingenable"@ != "Settings/VideoConfig/screenwindowed"@) by { assert("Settings/VideoConfig/postprocessingenable"@.len() != "Settings/VideoConfig/screenwindowed"@.len()); }
    assert("Settings/VideoConfig/postprocessingenable"@ != "Settings/VideoConfig/brightness"@) by { assert("Settings/VideoConfig/postprocessingenable"@.len() != "Settings/VideoConfig/brightness"@.len()); }
    assert("Settings/VideoConfig/postprocessingenable"@ != "Settings/VideoConfig/vsyncon"@) by { assert("Settings/VideoConfig/postprocessingenable"@.len() != "Settings/VideoConfig/vsyncon"@.len()); }
    assert("Settings/VideoConfig/postprocessingenable"@ != "Settings/VideoConfig/performancelevel"@) by { assert("Settings/VideoConfig/postprocessingenable"@.len() != "Settings/VideoConfig/performancelevel"@.len()); }
    assert("Settings/VideoConfig/postprocessingenable"@ != "Settings/VideoConfig/basetexturefilter"@) by { assert("Settings/VideoConfig/postprocessingenable"@.len() != "Settings/VideoConfig/basetexturefilter"@.len()); }
    assert("Settings/VideoConfig/postprocessingenable"@ != "Settings/VideoConfig/basetexturemaxani"@) by { assert("Settings/VideoConfig/postprocessingenable"@.len() != "Settings/VideoConfig/basetexturemaxani"@.len()); }
    assert("Settings/VideoConfig/postprocessingenable"@ != "Settings/VideoConfig/roadtexturefilter"@) by { assert("Settings/VideoConfig/postprocessingenable"@.len() != "Settings/VideoConfig/roadtexturefilter"@.len()); }
    assert("Settings/VideoConfig/postprocessingenable"@ != "Settings/VideoConfig/roadtexturemaxani"@) by { assert("Settings/VideoConfig/postprocessingenable"@.len() != "Settings/VideoConfig/roadtexturemaxani"@.len()); }
    assert("Settings/VideoConfig/postprocessingenable"@ != "Settings/VideoConfig/carenvironmentmapenable"@) by { assert("Settings/VideoConfig/postprocessingenable"@.len() != "Settings/VideoConfig/carenvironmentmapenable"@.len()); }
    assert("Settings/VideoConfig/postprocessingenable"@ != "Settings/VideoConfig/globaldetaillevel"@) by { assert("Settings/VideoConfig/postprocessingenable"@.len() != "Settings/VideoConfig/globaldetaillevel"@.len()); }
    assert("Settings/VideoConfig/postprocessingenable"@ != "Settings/VideoConfig/roadreflectionenable"@) by { assert("Settings/VideoConfig/postprocessingenable"@[21] != "Settings/VideoConfig/roadreflectionenable"@[21]); }
    assert("Settings/VideoConfig/postprocessingenable"@ != "Settings/VideoConfig/shaderdetail"@) by { assert("Settings/VideoConfig/postprocessingenable"@.len() != "Settings/VideoConfig/shaderdetail"@.len()); }
    assert("Settings/VideoConfig/postprocessingenable"@ != "Settings/VideoConfig/shadowdetail"@) by { assert("Settings/VideoConfig/postprocessingenable"@.len() != "Settings/VideoConfig/shadowdetail"@.len()); }
    assert("Settings/VideoConfig/postprocessingenable"@ != "Settings/VideoConfig/fsaalevel"@) by { assert("Settings/VideoConfig/postprocessingenable"@.len() != "Settings/VideoConfig/fsaalevel"@.len()); }
    assert("Settings/VideoConfig/postprocessingenable"@ != "Settings/VideoConfig/motionblurenable"@) by { assert("Settings/VideoConfig/postprocessingenable"@.len() != "Settings/VideoConfig/motionblurenable"@.len()); }
    assert("Settings/VideoConfig/postprocessingenable"@ != "Settings/VideoConfig/particlesystemenable"@) by { assert("Settings/VideoConfig/postprocessingenable"@[22] != "Settings/VideoConfig/particlesystemenable"@[22]); }
    assert("Settings/VideoConfig/rainenable"@ != "Settings/VideoConfig/screenwidth"@) by { assert("Settings/VideoConfig/rainenable"@.len() != "Settings/VideoConfig/screenwidth"@.len()); }
    assert("Settings/VideoConfig/rainenable"@ != "Settings/VideoConfig/screenheight"@) by { assert("Settings/VideoConfig/rainenable"@.len() != "Settings/VideoConfig/screenheight"@.len()); }
    assert("Settings/VideoConfig/rainenable"@ != "Settings/VideoConfig/screenwindowed"@) by { assert("Settings/VideoConfig/rainenable"@.len() != "Settings/VideoConfig/screenwindowed"@.len()); }
    assert("Settings/VideoConfig/rainenable"@ != "Settings/VideoConfig/brightness"@) by { assert("Settings/VideoConfig/rainenable"@[21] != "Settings/VideoConfig/brightness"@[21]); }
    assert("Settings/VideoConfig/rainenable"@ != "Settings/VideoConfig/vsyncon"@) by { assert("Settings/VideoConfig/rainenable"@.len() != "Settings/VideoConfig/vsyncon"@.len()); }
    assert("Settings/VideoConfig/rainenable"@ != "Settings/VideoConfig/performancelevel"@) by { assert("Settings/VideoConfig/rainenable"@.len() != "Settings/VideoConfig/performancelevel"@.len()); }
    assert("Settings/VideoConfig/rainenable"@ != "Settings/VideoConfig/basetexturefilter"@) by { assert("Settings/VideoConfig/rainenable"@.len() != "Settings/VideoConfig/basetexturefilter"@.len()); }
    assert("Settings/VideoConfig/rainenable"@ != "Settings/VideoConfig/basetexturemaxani"@) by { assert("Settings/VideoConfig/rainenable"@.len() != "Settings/VideoConfig/basetexturemaxani"@.len()); }
    assert("Settings/VideoConfig/rainenable"@ != "Settings/VideoConfig/roadtexturefilter"@) by { assert("Settings/VideoConfig/rainenable"@.len() != "Settings/VideoConfig/roadtexturefilter"@.len()); }
    assert("Settings/VideoConfig/rainenable"@ != "Settings/VideoConfig/roadtexturemaxani"@) by { assert("Settings/VideoConfig/rainenable"@.len() != "Settings/VideoConfig/roadtexturemaxani"@.len()); }
    assert("Settings/VideoConfig/rainenable"@ != "Settings/VideoConfig/carenvironmentmapenable"@) by { assert("Settings/VideoConfig/rainenable"@.len() != "Settings/VideoConfig/carenvironmentmapenable"@.len()); }
    assert("Settings/VideoConfig/rainenable"@ != "Settings/VideoConfig/globaldetaillevel"@) by { assert("Settings/VideoConfig/rainenable"@.len() != "Settings/VideoConfig/globaldetaillevel"@.len()); }
    assert("Settings/VideoConfig/rainenable"@ != "Settings/VideoConfig/roadreflectionenable"@) by { assert("Settings/VideoConfig/rainenable"@.len() != "Settings/VideoConfig/roadreflectionenable"@.len()); }
    assert("Settings/VideoConfig/rainenable"@ != "Settings/VideoConfig/shaderdetail"@) by { assert("Settings/VideoConfig/rainenable"@.len() != "Settings/VideoConfig/shaderdetail"@.len()); }
    assert("Settings/VideoConfig/rainenable"@ != "Settings/VideoConfig/shadowdetail"@) by { assert("Settings/VideoConfig/rainenable"@.len() != "Settings/VideoConfig/shadowdetail"@.len()); }
    assert("Settings/VideoConfig/rainenable"@ != "Settings/VideoConfig/fsaalevel"@) by { assert("Settings/VideoConfig/rainenable"@.len() != "Settings/VideoConfig/fsaalevel"@.len()); }
    assert("Settings/VideoConfig/rainenable"@ != "Settings/VideoConfig/motionblurenable"@) by { assert("Settings/VideoConfig/rainenable"@.len() != "Settings/VideoConfig/motionblurenable"@.len()); }
    assert("Settings/VideoConfig/rainenable"@ != "Settings/VideoConfig/particlesystemenable"@) by { assert("Settings/VideoConfig/rainenable"@.len() != "Settings/VideoConfig/particlesystemenable"@.len()); }
    assert("Settings/VideoConfig/rainenable"@ != "Settings/VideoConfig/postprocessingenable"@) by { assert("Settings/VideoConfig/rainenable"@.len() != "Settings/VideoConfig/postprocessingenable"@.len()); }
    assert("Settings/VideoConfig/watersimenable"@ != "Settings/VideoConfig/screenwidth"@) by { assert("Settings/VideoConfig/watersimenable"@.len() != "Settings/VideoConfig/screenwidth"@.len()); }
    assert("Settings/VideoConfig/watersimenable"@ != "Settings/VideoConfig/screenheight"@) by { assert("Settings/VideoConfig/watersimenable"@.len() != "Settings/VideoConfig/screenheight"@.len()); }
    assert("Settings/VideoConfig/watersimenable"@ != "Settings/VideoConfig/screenwindowed"@) by { assert("Settings/VideoConfig/watersimenable"@[21] != "Settings/VideoConfig/screenwindowed"@[21]); }
    assert("Settings/VideoConfig/watersimenable"@ != "Settings/VideoConfig/brightness"@) by { assert("Settings/VideoConfig/watersimenable"@.len() != "Settings/VideoConfig/brightness"@.len()); }
    assert("Settings/VideoConfig/watersimenable"@ != "Settings/VideoConfig/vsyncon"@) by { assert("Settings/VideoConfig/watersimenable"@.len() != "Settings/VideoConfig/vsyncon"@.len()); }
    assert("Settings/VideoConfig/watersimenable"@ != "Settings/VideoConfig/performancelevel"@) by { assert("Settings/VideoConfig/watersimenable"@.len() != "Settings/VideoConfig/performancelevel"@.len()); }
    assert("Settings/VideoConfig/watersimenable"@ != "Settings/VideoConfig/basetexturefilter"@) by { assert("Settings/VideoConfig/watersimenable"@.len() != "Settings/VideoConfig/basetexturefilter"@.len()); }
    assert("Settings/VideoConfig/watersimenable"@ != "Settings/VideoConfig/basetexturemaxani"@) by { assert("Settings/VideoConfig/watersimenable"@.len() != "Settings/VideoConfig/basetexturemaxani"@.len()); }
    assert("Settings/VideoConfig/watersimenable"@ != "Settings/VideoConfig/roadtexturefilter"@) by { assert("Settings/VideoConfig/watersimenable"@.len() != "Settings/VideoConfig/roadtexturefilter"@.len()); }
    assert("Settings/VideoConfig/watersimenable"@ != "Settings/VideoConfig/roadtexturemaxani"@) by { assert("Settings/VideoConfig/watersimenable"@.len() != "Settings/VideoConfig/roadtexturemaxani"@.len()); }
    assert("Settings/VideoConfig/watersimenable"@ != "Settings/VideoConfig/carenvironmentmapenable"@) by { assert("Settings/VideoConfig/watersimenable"@.len() != "Settings/VideoConfig/carenvironmentmapenable"@.len()); }
    assert("Settings/VideoConfig/watersimenable"@ != "Settings/VideoConfig/globaldetaillevel"@) by { assert("Settings/VideoConfig/watersimenable"@.len() != "Settings/VideoConfig/globaldetaillevel"@.len()); }
    assert("Settings/VideoConfig/watersimenable"@ != "Settings/VideoConfig/roadreflectionenable"@) by { assert("Settings/VideoConfig/watersimenable"@.len() != "Settings/VideoConfig/roadreflectionenable"@.len()); }
    assert("Settings/VideoConfig/watersimenable"@ != "Settings/VideoConfig/shaderdetail"@) by { assert("Settings/VideoConfig/watersimenable"@.len() != "Settings/VideoConfig/shaderdetail"@.len()); }
    assert("Settings/VideoConfig/watersimenable"@ != "Settings/VideoConfig/shadowdetail"@) by { assert("Settings/VideoConfig/watersimenable"@.len() != "Settings/VideoConfig/shadowdetail"@.len()); }
    assert("Settings/VideoConfig/watersimenable"@ != "Settings/VideoConfig/fsaalevel"@) by { assert("Settings/VideoConfig/watersimenable"@.len() != "Settings/VideoConfig/fsaalevel"@.len()); }
    assert("Settings/VideoConfig/watersimenable"@ != "Settings/VideoConfig/motionblurenable"@) by { assert("Settings/VideoConfig/watersimenable"@.len() != "Settings/VideoConfig/motionblurenable"@.len()); }
    assert("Settings/VideoConfig/watersimenable"@ != "Settings/VideoConfig/particlesystemenable"@) by { assert("Settings/VideoConfig/watersimenable"@.len() != "Settings/VideoConfig/particlesystemenable"@.len()); }
    assert("Settings/VideoConfig/watersimenable"@ != "Settings/VideoConfig/postprocessingenable"@) by { assert("Settings/VideoConfig/watersimenable"@.len() != "Settings/VideoConfig/postprocessingenable"@.len()); }
    assert("Settings/VideoConfig/watersimenable"@ != "Settings/VideoConfig/rainenable"@) by { assert("Settings/VideoConfig/watersimenable"@.len() != "Settings/VideoConfig/rainenable"@.len()); }
    assert("Settings/VideoConfig/visualtreatment"@ != "Settings/VideoConfig/screenwidth"@) by { assert("Settings/VideoConfig/visualtreatment"@.len() != "Settings/VideoConfig/screenwidth"@.len()); }
    assert("Settings/VideoConfig/visualtreatment"@ != "Settings/VideoConfig/screenheight"@) by { assert("Settings/VideoConfig/visualtreatment"@.len() != "Settings/VideoConfig/screenheight"@.len()); }
    assert("Settings/VideoConfig/visualtreatment"@ != "Settings/VideoConfig/screenwindowed"@) by { assert("Settings/VideoConfig/visualtreatment"@.len() != "Settings/VideoConfig/screenwindowed"@.len()); }
    assert("Settings/VideoConfig/visualtreatment"@ != "Settings/VideoConfig/brightness"@) by { assert("Settings/VideoConfig/visualtreatment"@.len() != "Settings/VideoConfig/brightness"@.len()); }
    assert("Settings/VideoConfig/visualtreatment"@ != "Settings/VideoConfig/vsyncon"@) by { assert("Settings/VideoConfig/visualtreatment"@.len() != "Settings/VideoConfig/vsyncon"@.len()); }
    assert("Settings/VideoConfig/visualtreatment"@ != "Settings/VideoConfig/performancelevel"@) by { assert("Settings/VideoConfig/visualtreatment"@.len() != "Settings/VideoConfig/performancelevel"@.len()); }
    assert("Settings/VideoConfig/visualtreatment"@ != "Settings/VideoConfig/basetexturefilter"@) by { assert("Settings/VideoConfig/visualtreatment"@.len() != "Settings/VideoConfig/basetexturefilter"@.len()); }
    assert("Settings/VideoConfig/visualtreatment"@ != "Settings/VideoConfig/basetexturemaxani"@) by { assert("Settings/VideoConfig/visualtreatment"@.len() != "Settings/VideoConfig/basetexturemaxani"@.len()); }
    assert("Settings/VideoConfig/visualtreatment"@ != "Settings/VideoConfig/roadtexturefilter"@) by { assert("Settings/VideoConfig/visualtreatment"@.len() != "Settings/VideoConfig/roadtexturefilter"@.len()); }
    assert("Settings/VideoConfig/visualtreatment"@ != "Settings/VideoConfig/roadtexturemaxani"@) by { assert("Settings/VideoConfig/visualtreatment"@.len() != "Settings/VideoConfig/roadtexturemaxani"@.len()); }
    assert("Settings/VideoConfig/visualtreatment"@ != "Settings/VideoConfig/carenvironmentmapenable"@) by { assert("Settings/VideoConfig/visualtreatment"@.len() != "Settings/VideoConfig/carenvironmentmapenable"@.len()); }
    assert("Settings/VideoConfig/visualtreatment"@ != "Settings/VideoConfig/globaldetaillevel"@) by { assert("Settings/VideoConfig/visualtreatment"@.len() != "Settings/VideoConfig/globaldetaillevel"@.len()); }
    assert("Settings/VideoConfig/visualtreatment"@ != "Settings/VideoConfig/roadreflectionenable"@) by { assert("Settings/VideoConfig/visualtreatment"@.len() != "Settings/VideoConfig/roadreflectionenable"@.len()); }
    assert("Settings/VideoConfig/visualtreatment"@ != "Settings/VideoConfig/shaderdetail"@) by { assert("Settings/VideoConfig/visualtreatment"@.len() != "Settings/VideoConfig/shaderdetail"@.len()); }
    assert("Settings/VideoConfig/visualtreatment"@ != "Settings/VideoConfig/shadowdetail"@) by { assert("Settings/VideoConfig/visualtreatment"@.len() != "Settings/VideoConfig/shadowdetail"@.len()); }
    assert("Settings/VideoConfig/visualtreatment"@ != "Settings/VideoConfig/fsaalevel"@) by { assert("Settings/VideoConfig/visualtreatment"@.len() != "Settings/VideoConfig/fsaalevel"@.len()); }
    assert("Settings/VideoConfig/visualtreatment"@ != "Settings/VideoConfig/motionblurenable"@) by { assert("Settings/VideoConfig/visualtreatment"@.len() != "Settings/VideoConfig/motionblurenable"@.len()); }
    assert("Settings/VideoConfig/visualtreatment"@ != "Settings/VideoConfig/particlesystemenable"@) by { assert("Settings/VideoConfig/visualtreatment"@.len() != "Settings/VideoConfig/particlesystemenable"@.len()); }
    assert("Settings/VideoConfig/visualtreatment"@ != "Settings/VideoConfig/postprocessingenable"@) by { assert("Settings/VideoConfig/visualtreatment"@.len() != "Settings/VideoConfig/postprocessingenable"@.len()); }
    assert("Settings/VideoConfig/visualtreatment"@ != "Settings/VideoConfig/rainenable"@) by { assert("Settings/VideoConfig/visualtreatment"@.len() != "Settings/VideoConfig/rainenable"@.len()); }
    assert("Settings/VideoConfig/visualtreatment"@ != "Settings/VideoConfig/watersimenable"@) by { assert("Settings/VideoConfig/visualtreatment"@.len() != "Settings/VideoConfig/watersimenable"@.len()); }
    assert("Settings/VideoConfig/maxskidmarks"@ != "Settings/VideoConfig/screenwidth"@) by { assert("Settings/VideoConfig/maxskidmarks"@.len() != "Settings/VideoConfig/screenwidth"@.len()); }
    assert("Settings/VideoConfig/maxskidmarks"@ != "Settings/VideoConfig/screenheight"@) by { assert("Settings/VideoConfig/maxskidmarks"@[21] != "Settings/VideoConfig/screenheight"@[21]); }
    assert("Settings/VideoConfig/maxskidmarks"@ != "Settings/VideoConfig/screenwindowed"@) by { assert("Settings/VideoConfig/maxskidmarks"@.len() != "Settings/VideoConfig/screenwindowed"@.len()); }
    assert("Settings/VideoConfig/maxskidmarks"@ != "Settings/VideoConfig/brightness"@) by { assert("Settings/VideoConfig/maxskidmarks"@.len() != "Settings/VideoConfig/brightness"@.len()); }
    assert("Settings/VideoConfig/maxskidmarks"@ != "Settings/VideoConfig/vsyncon"@) by { assert("Settings/VideoConfig/maxskidmarks"@.len() != "Settings/VideoConfig/vsyncon"@.len()); }
    assert("Settings/VideoConfig/maxskidmarks"@ != "Settings/VideoConfig/performancelevel"@) by { assert("Settings/VideoConfig/maxskidmarks"@.len() != "Settings/VideoConfig/performancelevel"@.len()); }
    assert("Settings/VideoConfig/maxskidmarks"@ != "Settings/VideoConfig/basetexturefilter"@) by { assert("Settings/VideoConfig/maxskidmarks"@.len() != "Settings/VideoConfig/basetexturefilter"@.len()); }
    assert("Settings/VideoConfig/maxskidmarks"@ != "Settings/VideoConfig/basetexturemaxani"@) by { assert("Settings/VideoConfig/maxskidmarks"@.len() != "Settings/VideoConfig/basetexturemaxani"@.len()); }
    assert("Settings/VideoConfig/maxskidmarks"@ != "Settings/VideoConfig/roadtexturefilter"@) by { assert("Settings/VideoConfig/maxskidmarks"@.len() != "Settings/VideoConfig/roadtexturefilter"@.len()); }
    assert("Settings/VideoConfig/maxskidmarks"@ != "Settings/VideoConfig/roadtexturemaxani"@) by { assert("Settings/VideoConfig/maxskidmarks"@.len() != "Settings/VideoConfig/roadtexturemaxani"@.len()); }
    assert("Settings/VideoConfig/maxskidmarks"@ != "Settings/VideoConfig/carenvironmentmapenable"@) by { assert("Settings/VideoConfig/maxskidmarks"@.len() != "Settings/VideoConfig/carenvironmentmapenable"@.len()); }
    assert("Settings/VideoConfig/maxskidmarks"@ != "Settings/VideoConfig/globaldetaillevel"@) by { assert("Settings/VideoConfig/maxskidmarks"@.len() != "Settings/VideoConfig/globaldetaillevel"@.len()); }
    assert("Settings/VideoConfig/maxskidmarks"@ != "Settings/VideoConfig/roadreflectionenable"@) by { assert("Settings/VideoConfig/maxskidmarks"@.len() != "Settings/VideoConfig/roadreflectionenable"@.len()); }
    assert("Settings/VideoConfig/maxskidmarks"@ != "Settings/VideoConfig/shaderdetail"@) by { assert("Settings/VideoConfig/maxskidmarks"@[21] != "Settings/VideoConfig/shaderdetail"@[21]); }
    assert("Settings/VideoConfig/maxskidmarks"@ != "Settings/VideoConfig/shadowdetail"@) by { assert("Settings/VideoConfig/maxskidmarks"@[21] != "Settings/VideoConfig/shadowdetail"@[21]); }
    assert("Settings/VideoConfig/maxskidmarks"@ != "Settings/VideoConfig/fsaalevel"@) by { assert("Settings/VideoConfig/maxskidmarks"@.len() != "Settings/VideoConfig/fsaalevel"@.len()); }
    assert("Settings/VideoConfig/maxskidmarks"@ != "Settings/VideoConfig/motionblurenable"@) by { assert("Settings/VideoConfig/maxskidmarks"@.len() != "Settings/VideoConfig/motionblurenable"@.len()); }
    assert("Settings/VideoConfig/maxskidmarks"@ != "Settings/VideoConfig/particlesystemenable"@) by { assert("Settings/VideoConfig/maxskidmarks"@.len() != "Settings/VideoConfig/particlesystemenable"@.len()); }
    assert("Settings/VideoConfig/maxskidmarks"@ != "Settings/VideoConfig/postprocessingenable"@) by { assert("Settings/VideoConfig/maxskidmarks"@.len() != "Settings/VideoConfig/postprocessingenable"@.len()); }
    assert("Settings/VideoConfig/maxskidmarks"@ != "Settings/VideoConfig/rainenable"@) by { assert("Settings/VideoConfig/maxskidmarks"@.len() != "Settings/VideoConfig/rainenable"@.len()); }
    assert("Settings/VideoConfig/maxskidmarks"@ != "Settings/VideoConfig/watersimenable"@) by { assert("Settings/VideoConfig/maxskidmarks"@.len() != "Settings/VideoConfig/watersimenable"@.len()); }
    assert("Settings/VideoConfig/maxskidmarks"@ != "Settings/VideoConfig/visualtreatment"@) by { assert("Settings/VideoConfig/maxskidmarks"@.len() != "Settings/VideoConfig/visualtreatment"@.len()); }
    assert("Settings/VideoConfig/audiomode"@ != "Settings/VideoConfig/screenwidth"@) by { assert("Settings/VideoConfig/audiomode"@.len() != "Settings/VideoConfig/screenwidth"@.len()); }
    assert("Settings/VideoConfig/audiomode"@ != "Settings/VideoConfig/screenheight"@) by { assert("Settings/VideoConfig/audiomode"@.len() != "Settings/VideoConfig/screenheight"@.len()); }
    assert("Settings/VideoConfig/audiomode"@ != "Settings/VideoConfig/screenwindowed"@) by { assert("Settings/VideoConfig/audiomode"@.len() != "Settings/VideoConfig/screenwindowed"@.len()); }
    assert("Settings/VideoConfig/audiomode"@ != "Settings/VideoConfig/brightness"@) by { assert("Settings/VideoConfig/audiomode"@.len() != "Settings/VideoConfig/brightness"@.len()); }
    assert("Settings/VideoConfig/audiomode"@ != "Settings/VideoConfig/vsyncon"@) by { assert("Settings/VideoConfig/audiomode"@.len() != "Settings/VideoConfig/vsyncon"@.len()); }
    assert("Settings/VideoConfig/audiomode"@ != "Settings/VideoConfig/performancelevel"@) by { assert("Settings/VideoConfig/audiomode"@.len() != "Settings/VideoConfig/performancelevel"@.len()); }
    assert("Settings/VideoConfig/audiomode"@ != "Settings/VideoConfig/basetexturefilter"@) by { assert("Settings/VideoConfig/audiomode"@.len() != "Settings/VideoConfig/basetexturefilter"@.len()); }
    assert("Settings/VideoConfig/audiomode"@ != "Settings/VideoConfig/basetexturemaxani"@) by { assert("Settings/VideoConfig/audiomode"@.len() != "Settings/VideoConfig/basetexturemaxani"@.len()); }
    assert("Settings/VideoConfig/audiomode"@ != "Settings/VideoConfig/roadtexturefilter"@) by { assert("Settings/VideoConfig/audiomode"@.len() != "Settings/VideoConfig/roadtexturefilter"@.len()); }
    assert("Settings/VideoConfig/audiomode"@ != "Settings/VideoConfig/roadtexturemaxani"@) by { assert("Settings/VideoConfig/audiomode"@.len() != "Settings/VideoConfig/roadtexturemaxani"@.len()); }
    assert("Settings/VideoConfig/audiomode"@ != "Settings/VideoConfig/carenvironmentmapenable"@) by { assert("Settings/VideoConfig/audiomode"@.len() != "Settings/VideoConfig/carenvironmentmapenable"@.len()); }
    assert("Settings/VideoConfig/audiomode"@ != "Settings/VideoConfig/globaldetaillevel"@) by { assert("Settings/VideoConfig/audiomode"@.len() != "Settings/VideoConfig/globaldetaillevel"@.len()); }
    assert("Settings/VideoConfig/audiomode"@ != "Settings/VideoConfig/roadreflectionenable"@) by { assert("Settings/VideoConfig/audiomode"@.len() != "Settings/VideoConfig/roadreflectionenable"@.len()); }
    assert("Settings/VideoConfig/audiomode"@ != "Settings/VideoConfig/shaderdetail"@) by { assert("Settings/VideoConfig/audiomode"@.len() != "Settings/VideoConfig/shaderdetail"@.len()); }
    assert("Settings/VideoConfig/audiomode"@ != "Settings/VideoConfig/shadowdetail"@) by { assert("Settings/VideoConfig/audiomode"@.len() != "Settings/VideoConfig/shadowdetail"@.len()); }
    assert("Settings/VideoConfig/audiomode"@ != "Settings/VideoConfig/fsaalevel"@) by { assert("Settings/VideoConfig/audiomode"@[21] != "Settings/VideoConfig/fsaalevel"@[21]); }
    assert("Settings/VideoConfig/audiomode"@ != "Settings/VideoConfig/motionblurenable"@) by { assert("Settings/VideoConfig/audiomode"@.len() != "Settings/VideoConfig/motionblurenable"@.len()); }
    assert("Settings/VideoConfig/audiomode"@ != "Settings/VideoConfig/particlesystemenable"@) by { assert("Settings/VideoConfig/audiomode"@.len() != "Settings/VideoConfig/particlesystemenable"@.len()); }
    assert("Settings/VideoConfig/audiomode"@ != "Settings/VideoConfig/postprocessingenable"@) by { assert("Settings/VideoConfig/audiomode"@.len() != "Settings/VideoConfig/postprocessingenable"@.len()); }
    assert("Settings/VideoConfig/audiomode"@ != "Settings/VideoConfig/rainenable"@) by { assert("Settings/VideoConfig/audiomode"@.len() != "Settings/VideoConfig/rainenable"@.len()); }
    assert("Settings/VideoConfig/audiomode"@ != "Settings/VideoConfig/watersimenable"@) by { assert("Settings/VideoConfig/audiomode"@.len() != "Settings/VideoConfig/watersimenable"@.len()); }
    assert("Settings/VideoConfig/audiomode"@ != "Settings/VideoConfig/visualtreatment"@) by { assert("Settings/VideoConfig/audiomode"@.len() != "Settings/VideoConfig/visualtreatment"@.len()); }
    assert("Settings/VideoConfig/audiomode"@ != "Settings/VideoConfig/maxskidmarks"@) by { assert("Settings/VideoConfig/audiomode"@.len() != "Settings/VideoConfig/maxskidmarks"@.len()); }
    assert("Settings/VideoConfig/audioquality"@ != "Settings/VideoConfig/screenwidth"@) by { assert("Settings/VideoConfig/audioquality"@.len() != "Settings/VideoConfig/screenwidth"@.len()); }
    assert("Settings/VideoConfig/audioquality"@ != "Settings/VideoConfig/screenheight"@) by { assert("Settings/VideoConfig/audioquality"@[21] != "Settings/VideoConfig/screenheight"@[21]); }
    assert("Settings/VideoConfig/audioquality"@ != "Settings/VideoConfig/screenwindowed"@) by { assert("Settings/VideoConfig/audioquality"@.len() != "Settings/VideoConfig/screenwindowed"@.len()); }
    assert("Settings/VideoConfig/audioquality"@ != "Settings/VideoConfig/brightness"@) by { assert("Settings/VideoConfig/audioquality"@.len() != "Settings/VideoConfig/brightness"@.len()); }
    assert("Settings/VideoConfig/audioquality"@ != "Settings/VideoConfig/vsyncon"@) by { assert("Settings/VideoConfig/audioquality"@.len() != "Settings/VideoConfig/vsyncon"@.len()); }
    assert("Settings/VideoConfig/audioquality"@ != "Settings/VideoConfig/performancelevel"@) by { assert("Settings/VideoConfig/audioquality"@.len() != "Settings/VideoConfig/performancelevel"@.len()); }
    assert("Settings/VideoConfig/audioquality"@ != "Settings/VideoConfig/basetexturefilter"@) by { assert("Settings/VideoConfig/audioquality"@.len() != "Settings/VideoConfig/basetexturefilter"@.len()); }
    assert("Settings/VideoConfig/audioquality"@ != "Settings/VideoConfig/basetexturemaxani"@) by { assert("Settings/VideoConfig/audioquality"@.len() != "Settings/VideoConfig/basetexturemaxani"@.len()); }
    assert("Settings/VideoConfig/audioquality"@ != "Settings/VideoConfig/roadtexturefilter"@) by { assert("Settings/VideoConfig/audioquality"@.len() != "Settings/VideoConfig/roadtexturefilter"@.len()); }
    assert("Settings/VideoConfig/audioquality"@ != "Settings/VideoConfig/roadtexturemaxani"@) by { assert("Settings/VideoConfig/audioquality"@.len() != "Settings/VideoConfig/roadtexturemaxani"@.len()); }
    assert("Settings/VideoConfig/audioquality"@ != "Settings/VideoConfig/carenvironmentmapenable"@) by { assert("Settings/VideoConfig/audioquality"@.len() != "Settings/VideoConfig/carenvironmentmapenable"@.len()); }
    assert("Settings/VideoConfig/audioquality"@ != "Settings/VideoConfig/globaldetaillevel"@) by { assert("Settings/VideoConfig/audioquality"@.len() != "Settings/VideoConfig/globaldetaillevel"@.len()); }
    assert("Settings/VideoConfig/audioquality"@ != "Settings/VideoConfig/roadreflectionenable"@) by { assert("Settings/VideoConfig/audioquality"@.len() != "Settings/VideoConfig/roadreflectionenable"@.len()); }
    assert("Settings/VideoConfig/audioquality"@ != "Settings/VideoConfig/shaderdetail"@) by { assert("Settings/VideoConfig/audioquality"@[21] != "Settings/VideoConfig/shaderdetail"@[21]); }
    assert("Settings/VideoConfig/audioquality"@ != "Settings/VideoConfig/shadowdetail"@) by { assert("Settings/VideoConfig/audioquality"@[21] != "Settings/VideoConfig/shadowdetail"@[21]); }
    assert("Settings/VideoConfig/audioquality"@ != "Settings/VideoConfig/fsaalevel"@) by { assert("Settings/VideoConfig/audioquality"@.len() != "Settings/VideoConfig/fsaalevel"@.len()); }
    assert("Settings/VideoConfig/audioquality"@ != "Settings/VideoConfig/motionblurenable"@) by { assert("Settings/VideoConfig/audioquality"@.len() != "Settings/VideoConfig/motionblurenable"@.len()); }
    assert("Settings/VideoConfig/audioquality"@ != "Settings/VideoConfig/particlesystemenable"@) by { assert("Settings/VideoConfig/audioquality"@.len() != "Settings/VideoConfig/particlesystemenable"@.len()); }
    assert("Settings/VideoConfig/audioquality"@ != "Settings/VideoConfig/postprocessingenable"@) by { assert("Settings/VideoConfig/audioquality"@.len() != "Settings/VideoConfig/postprocessingenable"@.len()); }
    assert("Settings/VideoConfig/audioquality"@ != "Settings/VideoConfig/rainenable"@) by { assert("Settings/VideoConfig/audioquality"@.len() != "Settings/VideoConfig/rainenable"@.len()); }
    assert("Settings/VideoConfig/audioquality"@ != "Settings/VideoConfig/watersimenable"@) by { assert("Settings/VideoConfig/audioquality"@.len() != "Settings/VideoConfig/watersimenable"@.len()); }
    assert("Settings/VideoConfig/audioquality"@ != "Settings/VideoConfig/visualtreatment"@) by { assert("Settings/VideoConfig/audioquality"@.len() != "Settings/VideoConfig/visualtreatment"@.len()); }
    assert("Settings/VideoConfig/audioquality"@ != "Settings/VideoConfig/maxskidmarks"@) by { assert("Settings/VideoConfig/audioquality"@[21] != "Settings/VideoConfig/maxskidmarks"@[21]); }
    assert("Settings/VideoConfig/audioquality"@ != "Settings/VideoConfig/audiomode"@) by { assert("Settings/VideoConfig/audioquality"@.len() != "Settings/VideoConfig/audiomode"@.len()); }
    assert("Settings/Physics/CameraPOV"@ != "Settings/VideoConfig/screenwidth"@) by { assert("Settings/Physics/CameraPOV"@.len() != "Settings/VideoConfig/screenwidth"@.len()); }
    assert("Settings/Physics/CameraPOV"@ != "Settings/VideoConfig/screenheight"@) by { assert("Settings/Physics/CameraPOV"@.len() != "Settings/VideoConfig/screenheight"@.len()); }
    assert("Settings/Physics/CameraPOV"@ != "Settings/VideoConfig/screenwindowed"@) by { assert("Settings/Physics/CameraPOV"@.len() != "Settings/VideoConfig/screenwindowed"@.len()); }
    assert("Settings/Physics/CameraPOV"@ != "Settings/VideoConfig/brightness"@) by { assert("Settings/Physics/CameraPOV"@.len() != "Settings/VideoConfig/brightness"@.len()); }
    assert("Settings/Physics/CameraPOV"@ != "Settings/VideoConfig/vsyncon"@) by { assert("Settings/Physics/CameraPOV"@.len() != "Settings/VideoConfig/vsyncon"@.len()); }
    assert("Settings/Physics/CameraPOV"@ != "Settings/VideoConfig/performancelevel"@) by { assert("Settings/Physics/CameraPOV"@.len() != "Settings/VideoConfig/performancelevel"@.len()); }
    assert("Settings/Physics/CameraPOV"@ != "Settings/VideoConfig/basetexturefilter"@) by { assert("Settings/Physics/CameraPOV"@.len() != "Settings/VideoConfig/basetexturefilter"@.len()); }
    assert("Settings/Physics/CameraPOV"@ != "Settings/VideoConfig/basetexturemaxani"@) by { assert("Settings/Physics/CameraPOV"@.len() != "Settings/VideoConfig/basetexturemaxani"@.len()); }
    assert("Settings/Physics/CameraPOV"@ != "Settings/VideoConfig/roadtexturefilter"@) by { assert("Settings/Physics/CameraPOV"@.len() != "Settings/VideoConfig/roadtexturefilter"@.len()); }
    assert("Settings/Physics/CameraPOV"@ != "Settings/VideoConfig/roadtexturemaxani"@) by { assert("Settings/Physics/CameraPOV"@.len() != "Settings/VideoConfig/roadtexturemaxani"@.len()); }
    assert("Settings/Physics/CameraPOV"@ != "Settings/VideoConfig/carenvironmentmapenable"@) by { assert("Settings/Physics/CameraPOV"@.len() != "Settings/VideoConfig/carenvironmentmapenable"@.len()); }
    assert("Settings/Physics/CameraPOV"@ != "Settings/VideoConfig/globaldetaillevel"@) by { assert("Settings/Physics/CameraPOV"@.len() != "Settings/VideoConfig/globaldetaillevel"@.len()); }
    assert("Settings/Physics/CameraPOV"@ != "Settings/VideoConfig/roadreflectionenable"@) by { assert("Settings/Physics/CameraPOV"@.len() != "Settings/VideoConfig/roadreflectionenable"@.len()); }
    assert("Settings/Physics/CameraPOV"@ != "Settings/VideoConfig/shaderdetail"@) by { assert("Settings/Physics/CameraPOV"@.len() != "Settings/VideoConfig/shaderdetail"@.len()); }
    assert("Settings/Physics/CameraPOV"@ != "Settings/VideoConfig/shadowdetail"@) by { assert("Settings/Physics/CameraPOV"@.len() != "Settings/VideoConfig/shadowdetail"@.len()); }
    assert("Settings/Physics/CameraPOV"@ != "Settings/VideoConfig/fsaalevel"@) by { assert("Settings/Physics/CameraPOV"@.len() != "Settings/VideoConfig/fsaalevel"@.len()); }
    assert("Settings/Physics/CameraPOV"@ != "Settings/VideoConfig/motionblurenable"@) by { assert("Settings/Physics/CameraPOV"@.len() != "Settings/VideoConfig/motionblurenable"@.len()); }
    assert("Settings/Physics/CameraPOV"@ != "Settings/VideoConfig/particlesystemenable"@) by { assert("Settings/Physics/CameraPOV"@.len() != "Settings/VideoConfig/particlesystemenable"@.len()); }
    assert("Settings/Physics/CameraPOV"@ != "Settings/VideoConfig/postprocessingenable"@) by { assert("Settings/Physics/CameraPOV"@.len() != "Settings/VideoConfig/postprocessingenable"@.len()); }
    assert("Settings/Physics/CameraPOV"@ != "Settings/VideoConfig/rainenable"@) by { assert("Settings/Physics/CameraPOV"@.len() != "Settings/VideoConfig/rainenable"@.len()); }
    assert("Settings/Physics/CameraPOV"@ != "Settings/VideoConfig/watersimenable"@) by { assert("Settings/Physics/CameraPOV"@.len() != "Settings/VideoConfig/watersimenable"@.len()); }
    assert("Settings/Physics/CameraPOV"@ != "Settings/VideoConfig/visualtreatment"@) by { assert("Settings/Physics/CameraPOV"@.len() != "Settings/VideoConfig/visualtreatment"@.len()); }
    assert("Settings/Physics/CameraPOV"@ != "Settings/VideoConfig/maxskidmarks"@) by { assert("Settings/Physics/CameraPOV"@.len() != "Settings/VideoConfig/maxskidmarks"@.len()); }
    assert("Settings/Physics/CameraPOV"@ != "Settings/VideoConfig/audiomode"@) by { assert("Settings/Physics/CameraPOV"@.len() != "Settings/VideoConfig/audiomode"@.len()); }
    assert("Settings/Physics/CameraPOV"@ != "Settings/VideoConfig/audioquality"@) by { assert("Settings/Physics/CameraPOV"@.len() != "Settings/VideoConfig/audioquality"@.len()); }
    assert("Settings/Physics/TransmissionType"@ != "Settings/VideoConfig/screenwidth"@) by { assert("Settings/Physics/TransmissionType"@.len() != "Settings/VideoConfig/screenwidth"@.len()); }
    assert("Settings/Physics/TransmissionType"@ != "Settings/VideoConfig/screenheight"@) by { assert("Settings/Physics/TransmissionType"@[9] != "Settings/VideoConfig/screenheight"@[9]); }
    assert("Settings/Physics/TransmissionType"@ != "Settings/VideoConfig/screenwindowed"@) by { assert("Settings/Physics/TransmissionType"@.len() != "Settings/VideoConfig/screenwindowed"@.len()); }
    assert("Settings/Physics/TransmissionType"@ != "Settings/VideoConfig/brightness"@) by { assert("Settings/Physics/TransmissionType"@.len() != "Settings/VideoConfig/brightness"@.len()); }
    assert("Settings/Physics/TransmissionType"@ != "Settings/VideoConfig/vsyncon"@) by { assert("Settings/Physics/TransmissionType"@.len() != "Settings/VideoConfig/vsyncon"@.len()); }
    assert("Settings/Physics/TransmissionType"@ != "Settings/VideoConfig/performancelevel"@) by { assert("Settings/Physics/TransmissionType"@.len() != "Settings/VideoConfig/performancelevel"@.len()); }
    assert("Settings/Physics/TransmissionType"@ != "Settings/VideoConfig/basetexturefilter"@) by { assert("Settings/Physics/TransmissionType"@.len() != "Settings/VideoConfig/basetexturefilter"@.len()); }
    assert("Settings/Physics/TransmissionType"@ != "Settings/VideoConfig/basetexturemaxani"@) by { assert("Settings/Physics/TransmissionType"@.len() != "Settings/VideoConfig/basetexturemaxani"@.len()); }
    assert("Settings/Physics/TransmissionType"@ != "Settings/VideoConfig/roadtexturefilter"@) by { assert("Settings/Physics/TransmissionType"@.len() != "Settings/VideoConfig/roadtexturefilter"@.len()); }
    assert("Settings/Physics/TransmissionType"@ != "Settings/VideoConfig/roadtexturemaxani"@) by { assert("Settings/Physics/TransmissionType"@.len() != "Settings/VideoConfig/roadtexturemaxani"@.len()); }
    assert("Settings/Physics/TransmissionType"@ != "Settings/VideoConfig/carenvironmentmapenable"@) by { assert("Settings/Physics/TransmissionType"@.len() != "Settings/VideoConfig/carenvironmentmapenable"@.len()); }
    assert("Settings/Physics/TransmissionType"@ != "Settings/VideoConfig/globaldetaillevel"@) by { assert("Settings/Physics/TransmissionType"@.len() != "Settings/VideoConfig/globaldetaillevel"@.len()); }
    assert("Settings/Physics/TransmissionType"@ != "Settings/VideoConfig/roadreflectionenable"@) by { assert("Settings/Physics/TransmissionType"@.len() != "Settings/VideoConfig/roadreflectionenable"@.len()); }
    assert("Settings/Physics/TransmissionType"@ != "Settings/VideoConfig/shaderdetail"@) by { assert("Settings/Physics/TransmissionType"@[9] != "Settings/VideoConfig/shaderdetail"@[9]); }
    assert("Settings/Physics/TransmissionType"@ != "Settings/VideoConfig/shadowdetail"@) by { assert("Settings/Physics/TransmissionType"@[9] != "Settings/VideoConfig/shadowdetail"@[9]); }
    assert("Settings/Physics/TransmissionType"@ != "Settings/VideoConfig/fsaalevel"@) by { assert("Settings/Physics/TransmissionType"@.len() != "Settings/VideoConfig/fsaalevel"@.len()); }
    assert("Settings/Physics/TransmissionType"@ != "Settings/VideoConfig/motionblurenable"@) by { assert("Settings/Physics/TransmissionType"@.len() != "Settings/VideoConfig/motionblurenable"@.len()); }
    assert("Settings/Physics/TransmissionType"@ != "Settings/VideoConfig/particlesystemenable"@) by { assert("Settings/Physics/TransmissionType"@.len() != "Settings/VideoConfig/particlesystemenable"@.len()); }
    assert("Settings/Physics/TransmissionType"@ != "Settings/VideoConfig/postprocessingenable"@) by { assert("Settings/Physics/TransmissionType"@.len() != "Settings/VideoConfig/postprocessingenable"@.len()); }
    assert("Settings/Physics/TransmissionType"@ != "Settings/VideoConfig/rainenable"@) by { assert("Settings/Physics/TransmissionType"@.len() != "Settings/VideoConfig/rainenable"@.len()); }
    assert("Settings/Physics/TransmissionType"@ != "Settings/VideoConfig/watersimenable"@) by { assert("Settings/Physics/TransmissionType"@.len() != "Settings/VideoConfig/watersimenable"@.len()); }
    assert("Settings/Physics/TransmissionType"@ != "Settings/VideoConfig/visualtreatment"@) by { assert("Settings/Physics/TransmissionType"@.len() != "Settings/VideoConfig/visualtreatment"@.len()); }
    assert("Settings/Physics/TransmissionType"@ != "Settings/VideoConfig/maxskidmarks"@) by { assert("Settings/Physics/TransmissionType"@[9] != "Settings/VideoConfig/maxskidmarks"@[9]); }
    assert("Settings/Physics/TransmissionType"@ != "Settings/VideoConfig/audiomode"@) by { assert("Settings/Physics/TransmissionType"@.len() != "Settings/VideoConfig/audiomode"@.len()); }
    assert("Settings/Physics/TransmissionType"@ != "Settings/VideoConfig/audioquality"@) by { assert("Settings/Physics/TransmissionType"@[9] != "Settings/VideoConfig/audioquality"@[9]); }
    assert("Settings/Physics/TransmissionType"@ != "Settings/Physics/CameraPOV"@) by { assert("Settings/Physics/TransmissionType"@.len() != "Settings/Physics/CameraPOV"@.len()); }
}

/// Each setting kept as an attribute is kept in the attribute named after it: on
/// `AudioOptions` the master, effects, car, speech, game-music and menu-music volumes and the
/// audio mode, on `GamePlayOptions` the camera, transmission, damage and speed units; reading
/// and writing go through this one table.
#[verifier::spinoff_prover]
#[verifier::rlimit(100)]
pub proof fn law_setting_attributes_by_name()
    ensures
        attr_field("Settings/UI/Audio/AudioOptions"@, "AudioMode"@) == Some(Field::AudioMode),
        attr_field("Settings/UI/Audio/AudioOptions"@, "MasterVol"@) == Some(Field::MasterVolume),
        attr_field("Settings/UI/Audio/AudioOptions"@, "SFXVol"@) == Some(Field::SfxVolume),
        attr_field("Settings/UI/Audio/AudioOptions"@, "CarVol"@) == Some(Field::CarVolume),
        attr_field("Settings/UI/Audio/AudioOptions"@, "SpeechVol"@) == Some(Field::SpeechVolume),
        attr_field("Settings/UI/Audio/AudioOptions"@, "GameMusicVol"@) == Some(Field::MusicVolume),
        attr_field("Settings/UI/Audio/AudioOptions"@, "FEMusicVol"@) == Some(Field::FrontendMusicVolume),
        attr_field("Settings/UI/Gameplay/GamePlayOptions"@, "camera"@) == Some(Field::Camera),
        attr_field("Settings/UI/Gameplay/GamePlayOptions"@, "transmission"@) == Some(Field::Transmission),
        attr_field("Settings/UI/Gameplay/GamePlayOptions"@, "damage"@) == Some(Field::Damage),
        attr_field("Settings/UI/Gameplay/GamePlayOptions"@, "speedUnits"@) == Some(Field::SpeedUnits),
{
    reveal_strlit("Settings/UI/Audio/AudioOptions");
    reveal_strlit("Settings/UI/Gameplay/GamePlayOptions");
    reveal_strlit("AudioMode");
    reveal_strlit("MasterVol");
    reveal_strlit("SFXVol");
    reveal_strlit("CarVol");
    reveal_strlit("SpeechVol");
    reveal_strlit("GameMusicVol");
    reveal_strlit("FEMusicVol");
    reveal_strlit("camera");
    reveal_strlit("transmission");
    reveal_strlit("damage");
    reveal_strlit("speedUnits");
    assert("Settings/UI/Gameplay/GamePlayOptions"@ != "Settings/UI/Audio/AudioOptions"@) by { assert("Settings/UI/Gameplay/GamePlayOptions"@.len() != "Settings/UI/Audio/AudioOptions"@.len()); }
    assert("MasterVol"@ != "AudioMode"@) by { assert("MasterVol"@[0] != "AudioMode"@[0]); }
    assert("SFXVol"@ != "AudioMode"@) by { assert("SFXVol"@.len() != "AudioMode"@.len()); }
    assert("SFXVol"@ != "MasterVol"@) by { assert("SFXVol"@.len() != "MasterVol"@.len()); }
    assert("CarVol"@ != "AudioMode"@) by { assert("CarVol"@.len() != "AudioMode"@.len()); }
    assert("CarVol"@ != "MasterVol"@) by { assert("CarVol"@.len() != "MasterVol"@.len()); }
    assert("CarVol"@ != "SFXVol"@) by { assert("CarVol"@[0] != "SFXVol"@[0]); }
    assert("SpeechVol"@ != "AudioMode"@) by { assert("SpeechVol"@[0] != "AudioMode"@[0]); }
    assert("SpeechVol"@ != "MasterVol"@) by { assert("SpeechVol"@[0] != "MasterVol"@[0]); }
    assert("SpeechVol"@ != "SFXVol"@) by { assert("SpeechVol"@.len() != "SFXVol"@.len()); }
    assert("SpeechVol"@ != "CarVol"@) by { assert("SpeechVol"@.len() != "CarVol"@.len()); }
    assert("GameMusicVol"@ != "AudioMode"@) by { assert("GameMusicVol"@.len() != "AudioMode"@.len()); }
    assert("GameMusicVol"@ != "MasterVol"@) by { assert("GameMusicVol"@.len() != "MasterVol"@.len()); }
    assert("GameMusicVol"@ != "SFXVol"@) by { assert("GameMusicVol"@.len() != "SFXVol"@.len()); }
    assert("GameMusicVol"@ != "CarVol"@) by { assert("GameMusicVol"@.len() != "CarVol"@.len()); }
    assert("GameMusicVol"@ != "SpeechVol"@) by { assert("GameMusicVol"@.len() != "SpeechVol"@.len()); }
    assert("FEMusicVol"@ != "AudioMode"@) by { assert("FEMusicVol"@.len() != "AudioMode"@.len()); }
    assert("FEMusicVol"@ != "MasterVol"@) by { assert("FEMusicVol"@.len() != "MasterVol"@.len()); }
    assert("FEMusicVol"@ != "SFXVol"@) by { assert("FEMusicVol"@.len() != "SFXVol"@.len()); }
    assert("FEMusicVol"@ != "CarVol"@) by { assert("FEMusicVol"@.len() != "CarVol"@.len()); }
    assert("FEMusicVol"@ != "SpeechVol"@) by { assert("FEMusicVol"@.len() != "SpeechVol"@.len()); }
    assert("FEMusicVol"@ != "GameMusicVol"@) by { assert("FEMusicVol"@.len() != "GameMusicVol"@.len()); }
    assert("transmission"@ != "camera"@) by { assert("transmission"@.len() != "camera"@.len()); }
    assert("damage"@ != "camera"@) by { assert("damage"@[0] != "camera"@[0]); }
    assert("damage"@ != "transmission"@) by { assert("damage"@.len() != "transmission"@.len()); }
    assert("speedUnits"@ != "camera"@) by { assert("speedUnits"@.len() != "camera"@.len()); }
    assert("speedUnits"@ != "transmission"@) by { assert("speedUnits"@.len() != "transmission"@.len()); }
    assert("speedUnits"@ != "damage"@) by { assert("speedUnits"@.len() != "damage"@.len()); }
}

/// No two elements keep the same setting as their text, and no two attributes keep the same
/// setting: a setting is read from, and written to, one place of each kind.
#[verifier::spinoff_prover]
#[verifier::rlimit(100)]
pub proof fn law_setting_places_distinct(p: Seq<char>, q: Seq<char>, k: Seq<char>, l: Seq<char>)
    ensures
        text_field(p) is Some && text_field(p) == text_field(q) ==> p == q,
        attr_field(p, k) is Some && attr_field(p, k) == attr_field(q, l) ==> p == q && k == l,
{
}

// ---------------------------------------------------------------------------
// Reading back the settings written
// ---------------------------------------------------------------------------

/// The settings `x` already hold the value of field `g` that `s` holds: reading that field's
/// text as `s` writes it changes nothing.
pub open spec fn agrees(x: SettingsView, s: SettingsView, g: Field) -> bool {
    read_field(x, g, field_text(s, g)) == x
}

/// Field `g` is the same in `x` and in `s`.
pub open spec fn same_field(x: SettingsView, s: SettingsView, g: Field) -> bool {
    match g {
        Field::ScreenWidth => x.screen_width == s.screen_width,
        Field::ScreenHeight => x.screen_height == s.screen_height,
        Field::ScreenWindowed => x.screen_windowed == s.screen_windowed,
        Field::Brightness => x.brightness == s.brightness,
        Field::Vsync => x.vsync == s.vsync,
        Field::PerformanceLevel => x.performance_level == s.performance_level,
        Field::BaseTextureFilter => x.base_texture_filter == s.base_texture_filter,
        Field::BaseTextureMaxAnisotropy => x.base_texture_max_anisotropy == s.base_texture_max_anisotropy,
        Field::RoadTextureFilter => x.road_texture_filter == s.road_texture_filter,
        Field::RoadTextureMaxAnisotropy => x.road_texture_max_anisotropy == s.road_texture_max_anisotropy,
        Field::CarEnvironmentMap => x.car_environment_map == s.car_environment_map,
        Field::GlobalDetailLevel => x.global_detail_level == s.global_detail_level,
        Field::RoadReflection => x.road_reflection == s.road_reflection,
        Field::ShaderDetail => x.shader_detail == s.shader_detail,
        Field::ShadowDetail => x.shadow_detail == s.shadow_detail,
        Field::FsaaLevel => x.fsaa_level == s.fsaa_level,
        Field::MotionBlur => x.motion_blur == s.motion_blur,
        Field::ParticleSystem => x.particle_system == s.particle_system,
        Field::PostProcessing => x.post_processing == s.post_processing,
        Field::Rain => x.rain == s.rain,
        Field::WaterSim => x.water_sim == s.water_sim,
        Field::VisualTreatment => x.visual_treatment == s.visual_treatment,
        Field::MaxSkidMarks => x.max_skid_marks == s.max_skid_marks,
        Field::AudioMode => x.audio_mode == s.audio_mode,
        Field::AudioQuality => x.audio_quality == s.audio_quality,
        Field::MasterVolume => x.master_volume == s.master_volume,
        Field::SfxVolume => x.sfx_volume == s.sfx_volume,
        Field::CarVolume => x.car_volume == s.car_volume,
        Field::SpeechVolume => x.speech_volume == s.speech_volume,
        Field::MusicVolume => x.music_volume == s.music_volume,
        Field::FrontendMusicVolume => x.frontend_music_volume == s.frontend_music_volume,
        Field::Camera => x.camera == s.camera,
        Field::Transmission => x.transmission == s.transmission,
        Field::Damage => x.damage == s.damage,
        Field::SpeedUnits => x.speed_units == s.speed_units,
    }
}

#[verifier::spinoff_prover]
#[verifier::rlimit(100)]
proof fn lemma_agrees_same(x: SettingsView, s: SettingsView, g: Field)
    ensures
        agrees(x, s, g) <==> same_field(x, s, g),
{
    match g {
        Field::ScreenWidth => {
            law_field_roundtrip(s, Field::ScreenWidth);
        },
        Field::ScreenHeight => {
            law_field_roundtrip(s, Field::ScreenHeight);
        },
        Field::ScreenWindowed => {
            law_field_roundtrip(s, Field::ScreenWindowed);
        },
        Field::Brightness => {
            law_field_roundtrip(s, Field::Brightness);
        },
        Field::Vsync => {
            law_field_roundtrip(s, Field::Vsync);
        },
        Field::PerformanceLevel => {
            law_field_roundtrip(s, Field::PerformanceLevel);
        },
        Field::BaseTextureFilter => {
            law_field_roundtrip(s, Field::BaseTextureFilter);
        },
        Field::BaseTextureMaxAnisotropy => {
            law_field_roundtrip(s, Field::BaseTextureMaxAnisotropy);
        },
        Field::RoadTextureFilter => {
            law_field_roundtrip(s, Field::RoadTextureFilter);
        },
        Field::RoadTextureMaxAnisotropy => {
            law_field_roundtrip(s, Field::RoadTextureMaxAnisotropy);
        },
        Field::CarEnvironmentMap => {
            law_field_roundtrip(s, Field::CarEnvironmentMap);
        },
        Field::GlobalDetailLevel => {
            law_field_roundtrip(s, Field::GlobalDetailLevel);
        },
        Field::RoadReflection => {
            law_field_roundtrip(s, Field::RoadReflection);
        },
        Field::ShaderDetail => {
            law_field_roundtrip(s, Field::ShaderDetail);
        },
        Field::ShadowDetail => {
            law_field_roundtrip(s, Field::ShadowDetail);
        },
        Field::FsaaLevel => {
            law_field_roundtrip(s, Field::FsaaLevel);
        },
        Field::MotionBlur => {
            law_field_roundtrip(s, Field::MotionBlur);
        },
        Field::ParticleSystem => {
            law_field_roundtrip(s, Field::ParticleSystem);
        },
        Field::PostProcessing => {
            law_field_roundtrip(s, Field::PostProcessing);
        },
        Field::Rain => {
            law_field_roundtrip(s, Field::Rain);
        },
        Field::WaterSim => {
            law_field_roundtrip(s, Field::WaterSim);
        },
        Field::VisualTreatment => {
            law_field_roundtrip(s, Field::VisualTreatment);
        },
        Field::MaxSkidMarks => {
            law_field_roundtrip(s, Field::MaxSkidMarks);
        },
        Field::AudioMode => {
            law_field_roundtrip(s, Field::AudioMode);
        },
        Field::AudioQuality => {
            law_field_roundtrip(s, Field::AudioQuality);
        },
        Field::MasterVolume => {
            law_field_roundtrip(s, Field::MasterVolume);
        },
        Field::SfxVolume => {
            law_field_roundtrip(s, Field::SfxVolume);
        },
        Field::CarVolume => {
            law_field_roundtrip(s, Field::CarVolume);
        },
        Field::SpeechVolume => {
            law_field_roundtrip(s, Field::SpeechVolume);
        },
        Field::MusicVolume => {
            law_field_roundtrip(s, Field::MusicVolume);
        },
        Field::FrontendMusicVolume => {
            law_field_roundtrip(s, Field::FrontendMusicVolume);
        },
        Field::Camera => {
            law_field_roundtrip(s, Field::Camera);
        },
        Field::Transmission => {
            law_field_roundtrip(s, Field::Transmission);
        },
        Field::Damage => {
            law_field_roundtrip(s, Field::Damage);
        },
        Field::SpeedUnits => {
            law_field_roundtrip(s, Field::SpeedUnits);
        },
    }
}

#[verifier::spinoff_prover]
#[verifier::rlimit(100)]
proof fn lemma_read_field_keeps(x: SettingsView, s: SettingsView, f: Field, t: Seq<char>, g: Field)
    requires
        f != g,
        same_field(x, s, g),
    ensures
        same_field(read_field(x, f, t), s, g),
{
    match f {
        Field::ScreenWidth => {},
        Field::ScreenHeight => {},
        Field::ScreenWindowed => {},
        Field::Brightness => {},
        Field::Vsync => {},
        Field::PerformanceLevel => {},
        Field::BaseTextureFilter => {},
        Field::BaseTextureMaxAnisotropy => {},
        Field::RoadTextureFilter => {},
        Field::RoadTextureMaxAnisotropy => {},
        Field::CarEnvironmentMap => {},
        Field::GlobalDetailLevel => {},
        Field::RoadReflection => {},
        Field::ShaderDetail => {},
        Field::ShadowDetail => {},
        Field::FsaaLevel => {},
        Field::MotionBlur => {},
        Field::ParticleSystem => {},
        Field::PostProcessing => {},
        Field::Rain => {},
        Field::WaterSim => {},
        Field::VisualTreatment => {},
        Field::MaxSkidMarks => {},
        Field::AudioMode => {},
        Field::AudioQuality => {},
        Field::MasterVolume => {},
        Field::SfxVolume => {},
        Field::CarVolume => {},
        Field::SpeechVolume => {},
        Field::MusicVolume => {},
        Field::FrontendMusicVolume => {},
        Field::Camera => {},
        Field::Transmission => {},
        Field::Damage => {},
        Field::SpeedUnits => {},
    }
}

#[verifier::spinoff_prover]
#[verifier::rlimit(100)]
proof fn lemma_agrees_set(x: SettingsView, s: SettingsView, f: Field)
    ensures
        agrees(read_field(x, f, field_text(s, f)), s, f),
{
    match f {
        Field::ScreenWidth => {
            law_field_roundtrip(s, Field::ScreenWidth);
        },
        Field::ScreenHeight => {
            law_field_roundtrip(s, Field::ScreenHeight);
        },
        Field::ScreenWindowed => {
            law_field_roundtrip(s, Field::ScreenWindowed);
        },
        Field::Brightness => {
            law_field_roundtrip(s, Field::Brightness);
        },
        Field::Vsync => {
            law_field_roundtrip(s, Field::Vsync);
        },
        Field::PerformanceLevel => {
            law_field_roundtrip(s, Field::PerformanceLevel);
        },
        Field::BaseTextureFilter => {
            law_field_roundtrip(s, Field::BaseTextureFilter);
        },
        Field::BaseTextureMaxAnisotropy => {
            law_field_roundtrip(s, Field::BaseTextureMaxAnisotropy);
        },
        Field::RoadTextureFilter => {
            law_field_roundtrip(s, Field::RoadTextureFilter);
        },
        Field::RoadTextureMaxAnisotropy => {
            law_field_roundtrip(s, Field::RoadTextureMaxAnisotropy);
        },
        Field::CarEnvironmentMap => {
            law_field_roundtrip(s, Field::CarEnvironmentMap);
        },
        Field::GlobalDetailLevel => {
            law_field_roundtrip(s, Field::GlobalDetailLevel);
        },
        Field::RoadReflection => {
            law_field_roundtrip(s, Field::RoadReflection);
        },
        Field::ShaderDetail => {
            law_field_roundtrip(s, Field::ShaderDetail);
        },
        Field::ShadowDetail => {
            law_field_roundtrip(s, Field::ShadowDetail);
        },
        Field::FsaaLevel => {
            law_field_roundtrip(s, Field::FsaaLevel);
        },
        Field::MotionBlur => {
            law_field_roundtrip(s, Field::MotionBlur);
        },
        Field::ParticleSystem => {
            law_field_roundtrip(s, Field::ParticleSystem);
        },
        Field::PostProcessing => {
            law_field_roundtrip(s, Field::PostProcessing);
        },
        Field::Rain => {
            law_field_roundtrip(s, Field::Rain);
        },
        Field::WaterSim => {
            law_field_roundtrip(s, Field::WaterSim);
        },
        Field::VisualTreatment => {
            law_field_roundtrip(s, Field::VisualTreatment);
        },
        Field::MaxSkidMarks => {
            law_field_roundtrip(s, Field::MaxSkidMarks);
        },
        Field::AudioMode => {
            law_field_roundtrip(s, Field::AudioMode);
        },
        Field::AudioQuality => {
            law_field_roundtrip(s, Field::AudioQuality);
        },
        Field::MasterVolume => {
            law_field_roundtrip(s, Field::MasterVolume);
        },
        Field::SfxVolume => {
            law_field_roundtrip(s, Field::SfxVolume);
        },
        Field::CarVolume => {
            law_field_roundtrip(s, Field::CarVolume);
        },
        Field::SpeechVolume => {
            law_field_roundtrip(s, Field::SpeechVolume);
        },
        Field::MusicVolume => {
            law_field_roundtrip(s, Field::MusicVolume);
        },
        Field::FrontendMusicVolume => {
            law_field_roundtrip(s, Field::FrontendMusicVolume);
        },
        Field::Camera => {
            law_field_roundtrip(s, Field::Camera);
        },
        Field::Transmission => {
            law_field_roundtrip(s, Field::Transmission);
        },
        Field::Damage => {
            law_field_roundtrip(s, Field::Damage);
        },
        Field::SpeedUnits => {
            law_field_roundtrip(s, Field::SpeedUnits);
        },
    }
}

proof fn lemma_agrees_keep(x: SettingsView, s: SettingsView, f: Field, g: Field)
    requires
        agrees(x, s, g),
    ensures
        agrees(read_field(x, f, field_text(s, f)), s, g),
{
    if f == g {
        lemma_agrees_set(x, s, f);
    } else {
        lemma_agrees_same(x, s, g);
        lemma_read_field_keeps(x, s, f, field_text(s, f), g);
        lemma_agrees_same(read_field(x, f, field_text(s, f)), s, g);
    }
}

/// Reading the text written for a setting sets that very setting of the settings (the member
/// of the same name) to the value written, and leaves every other setting as it was.
pub proof fn law_setting_read_into_its_field(x: SettingsView, s: SettingsView, f: Field, g: Field)
    ensures
        same_field(read_field(x, f, field_text(s, f)), s, f),
        g != f ==> (same_field(read_field(x, f, field_text(s, f)), s, g) <==> same_field(x, s, g)),
{
    let y = read_field(x, f, field_text(s, f));
    lemma_agrees_set(x, s, f);
    lemma_agrees_same(y, s, f);
    if g != f {
        assert(same_field(x, x, g)) by {
            lemma_agrees_same(x, x, g);
            law_field_roundtrip(x, g);
        }
        lemma_read_field_keeps(x, x, f, field_text(s, f), g);
    }
}

#[verifier::spinoff_prover]
proof fn lemma_agrees_all(x: SettingsView, s: SettingsView)
    requires
        forall|g: Field| agrees(x, s, g),
    ensures
        x == s,
{
    assert forall|g: Field| same_field(x, s, g) by {
        lemma_agrees_same(x, s, g);
    }
    assert(same_field(x, s, Field::ScreenWidth));
    assert(same_field(x, s, Field::ScreenHeight));
    assert(same_field(x, s, Field::ScreenWindowed));
    assert(same_field(x, s, Field::Brightness));
    assert(same_field(x, s, Field::Vsync));
    assert(same_field(x, s, Field::PerformanceLevel));
    assert(same_field(x, s, Field::BaseTextureFilter));
    assert(same_field(x, s, Field::BaseTextureMaxAnisotropy));
    assert(same_field(x, s, Field::RoadTextureFilter));
    assert(same_field(x, s, Field::RoadTextureMaxAnisotropy));
    assert(same_field(x, s, Field::CarEnvironmentMap));
    assert(same_field(x, s, Field::GlobalDetailLevel));
    assert(same_field(x, s, Field::RoadReflection));
    assert(same_field(x, s, Field::ShaderDetail));
    assert(same_field(x, s, Field::ShadowDetail));
    assert(same_field(x, s, Field::FsaaLevel));
    assert(same_field(x, s, Field::MotionBlur));
    assert(same_field(x, s, Field::ParticleSystem));
    assert(same_field(x, s, Field::PostProcessing));
    assert(same_field(x, s, Field::Rain));
    assert(same_field(x, s, Field::WaterSim));
    assert(same_field(x, s, Field::VisualTreatment));
    assert(same_field(x, s, Field::MaxSkidMarks));
    assert(same_field(x, s, Field::AudioMode));
    assert(same_field(x, s, Field::AudioQuality));
    assert(same_field(x, s, Field::MasterVolume));
    assert(same_field(x, s, Field::SfxVolume));
    assert(same_field(x, s, Field::CarVolume));
    assert(same_field(x, s, Field::SpeechVolume));
    assert(same_field(x, s, Field::MusicVolume));
    assert(same_field(x, s, Field::FrontendMusicVolume));
    assert(same_field(x, s, Field::Camera));
    assert(same_field(x, s, Field::Transmission));
    assert(same_field(x, s, Field::Damage));
    assert(same_field(x, s, Field::SpeedUnits));
}

/// The attributes of the element at `path` as they read back after writing: each readable one
/// with the value written (escaped), the unreadable ones dropped.
pub open spec fn written_attrs(
    s: SettingsView,
    path: Seq<char>,
    attrs: Seq<Option<(Seq<char>, Seq<char>)>>,
) -> Seq<Option<(Seq<char>, Seq<char>)>>
    decreases attrs.len(),
{
    if attrs.len() == 0 {
        Seq::empty()
    } else {
        written_attrs(s, path, attrs.drop_last()) + match attrs.last() {
            Some((k, v)) => seq![
                Some(
                    (
                        k,
                        xml_escape(
                            match attr_field(path, k) {
                                Some(f) => field_text(s, f),
                                None => v,
                            },
                        ),
                    ),
                ),
            ],
            None => Seq::empty(),
        }
    }
}

/// A tag as it reads back after writing.
pub open spec fn written_tag(
    s: SettingsView,
    kind: XmlKind,
    path: Seq<char>,
    ev: XmlEventView,
) -> XmlEventView {
    XmlEventView {
        kind,
        raw: ev.name + attrs_text(s, path, ev.attrs),
        name: ev.name,
        attrs: written_attrs(s, path, ev.attrs),
        text: Ok(Seq::empty()),
    }
}

/// A text as it reads back after writing `t`.
pub open spec fn written_text(t: Seq<char>) -> XmlEventView {
    XmlEventView {
        kind: XmlKind::Text,
        raw: xml_escape(t),
        name: Seq::empty(),
        attrs: Seq::empty(),
        text: Ok(t),
    }
}

/// The events written for `ev` in the state `st`, as they read back.
pub open spec fn views_step(s: SettingsView, st: WriteState, ev: XmlEventView) -> Seq<XmlEventView> {
    match ev.kind {
        XmlKind::Start => {
            let p = path_of(st.stack.push(ev.name));
            let tag = written_tag(s, XmlKind::Start, p, ev);
            match text_field(p) {
                Some(f) => seq![tag, written_text(field_text(s, f))],
                None => seq![tag],
            }
        },
        XmlKind::Empty => seq![written_tag(s, XmlKind::Empty, path_of(st.stack.push(ev.name)), ev)],
        XmlKind::Text => if st.skip {
            Seq::empty()
        } else {
            seq![ev]
        },
        XmlKind::Eof => Seq::empty(),
        _ => seq![ev],
    }
}

/// The events that reading gives back of the document written from `evs` with the settings
/// `s`, where quick_xml reads back what its writer wrote: each event as written, a text with
/// what was written as its text, a tag with its name and its attributes' values as written.
pub open spec fn written_views(s: SettingsView, evs: Seq<XmlEventView>) -> Seq<XmlEventView>
    decreases evs.len(),
{
    if evs.len() == 0 {
        Seq::empty()
    } else {
        written_views(s, evs.drop_last()) + views_step(s, write_all(s, evs.drop_last()), evs.last())
    }
}

/// The events written, as the kind and raw content the writer writes.
pub open spec fn views_outs(v: Seq<XmlEventView>) -> Seq<(XmlKind, Seq<char>)> {
    Seq::new(v.len(), |i: int| (v[i].kind, v[i].raw))
}

/// Whether the attributes of the element at `path` hold one of field `g`.
pub open spec fn attrs_write(path: Seq<char>, attrs: Seq<Option<(Seq<char>, Seq<char>)>>, g: Field) -> bool {
    exists|i: int| 0 <= i < attrs.len() && ((#[trigger] attrs[i]) matches Some(kv) && attr_field(path, kv.0) == Some(g))
}

/// Whether writing `ev` with the open elements `stack` writes field `g`.
pub open spec fn writes_field(stack: Seq<Seq<char>>, ev: XmlEventView, g: Field) -> bool {
    match ev.kind {
        XmlKind::Start => text_field(path_of(stack.push(ev.name))) == Some(g) || attrs_write(
            path_of(stack.push(ev.name)),
            ev.attrs,
            g,
        ),
        XmlKind::Empty => attrs_write(path_of(stack.push(ev.name)), ev.attrs, g),
        _ => false,
    }
}

/// Whether the document's events hold field `g` somewhere, so that writing writes it.
pub open spec fn field_written(s: SettingsView, evs: Seq<XmlEventView>, g: Field) -> bool
    decreases evs.len(),
{
    evs.len() > 0 && (field_written(s, evs.drop_last(), g) || writes_field(
        write_all(s, evs.drop_last()).stack,
        evs.last(),
        g,
    ))
}

/// Whether every element whose text is a setting is written as `<e>text</e>` or `<e></e>`: its
/// start is followed by its end, or by one text and its end.
pub open spec fn text_elements_simple(s: SettingsView, evs: Seq<XmlEventView>) -> bool {
    forall|i: int|
        0 <= i < evs.len() && evs[i].kind == XmlKind::Start && text_field(
            path_of((#[trigger] write_all(s, evs.take(i))).stack.push(evs[i].name)),
        ) is Some ==> i + 1 < evs.len() && (evs[i + 1].kind == XmlKind::End || (evs[i + 1].kind
            == XmlKind::Text && i + 2 < evs.len() && evs[i + 2].kind == XmlKind::End))
}

proof fn lemma_read_all_push(a: Seq<XmlEventView>, x: XmlEventView)
    ensures
        read_all(a.push(x)) == read_step(read_all(a), x),
{
    assert(a.push(x).drop_last() == a);
}

proof fn lemma_trimmed_text(t: Seq<char>)
    requires
        t.len() > 0,
        !crate::text::is_ws(t[0]),
        !crate::text::is_ws(t.last()),
    ensures
        trim_ws(t) == t,
{
}

proof fn lemma_number_text(n: int)
    ensures
        signed_decimal(n).len() > 0,
        trim_ws(signed_decimal(n)) == signed_decimal(n),
{
    let m: nat = if n < 0 {
        (-n) as nat
    } else {
        n as nat
    };
    crate::num::lemma_decimal_digits(m);
    let d = crate::num::decimal(m);
    assert(crate::num::is_digit(d[0]));
    assert(crate::num::is_digit(d[d.len() - 1]));
    if n < 0 {
        let t = seq!['-'] + d;
        assert(t[0] == '-');
        assert(t.last() == d.last());
        lemma_trimmed_text(t);
    } else {
        lemma_trimmed_text(d);
    }
}

proof fn lemma_flag_text(b: bool)
    ensures
        flag_text(b).len() > 0,
        trim_ws(flag_text(b)) == flag_text(b),
{
    reveal_strlit("1");
    reveal_strlit("0");
    lemma_trimmed_text(flag_text(b));
}

/// The text written for a setting kept as an element's text is not blank and has no
/// surrounding whitespace.
proof fn lemma_text_field_text(s: SettingsView, p: Seq<char>, f: Field)
    requires
        text_field(p) == Some(f),
    ensures
        field_text(s, f).len() > 0,
        trim_ws(field_text(s, f)) == field_text(s, f),
{
    match f {
        Field::ScreenWindowed => lemma_flag_text(s.screen_windowed),
        Field::Vsync => lemma_flag_text(s.vsync),
        Field::MotionBlur => lemma_flag_text(s.motion_blur),
        Field::ParticleSystem => lemma_flag_text(s.particle_system),
        Field::PostProcessing => lemma_flag_text(s.post_processing),
        Field::Rain => lemma_flag_text(s.rain),
        Field::WaterSim => lemma_flag_text(s.water_sim),
        Field::VisualTreatment => lemma_flag_text(s.visual_treatment),
        Field::Damage => lemma_flag_text(s.damage),
        Field::ScreenWidth => lemma_number_text(s.screen_width as int),
        Field::ScreenHeight => lemma_number_text(s.screen_height as int),
        Field::Brightness => lemma_number_text(s.brightness as int),
        Field::PerformanceLevel => lemma_number_text(s.performance_level as int),
        Field::BaseTextureFilter => lemma_number_text(s.base_texture_filter as int),
        Field::BaseTextureMaxAnisotropy => lemma_number_text(s.base_texture_max_anisotropy as int),
        Field::RoadTextureFilter => lemma_number_text(s.road_texture_filter as int),
        Field::RoadTextureMaxAnisotropy => lemma_number_text(s.road_texture_max_anisotropy as int),
        Field::CarEnvironmentMap => lemma_number_text(s.car_environment_map as int),
        Field::GlobalDetailLevel => lemma_number_text(s.global_detail_level as int),
        Field::RoadReflection => lemma_number_text(s.road_reflection as int),
        Field::ShaderDetail => lemma_number_text(s.shader_detail as int),
        Field::ShadowDetail => lemma_number_text(s.shadow_detail as int),
        Field::FsaaLevel => lemma_number_text(s.fsaa_level as int),
        Field::MaxSkidMarks => lemma_number_text(s.max_skid_marks as int),
        Field::AudioMode => lemma_number_text(s.audio_mode as int),
        Field::AudioQuality => lemma_number_text(s.audio_quality as int),
        Field::Camera => lemma_number_text(s.camera as int),
        Field::Transmission => lemma_number_text(s.transmission as int),
        Field::SpeedUnits => lemma_number_text(s.speed_units as int),
        _ => {},
    }
}

proof fn lemma_written_attrs_agree(
    x: SettingsView,
    s: SettingsView,
    p: Seq<char>,
    attrs: Seq<Option<(Seq<char>, Seq<char>)>>,
)
    requires
        forall|g: Field| xml_escape(#[trigger] field_text(s, g)) == field_text(s, g),
    ensures
        forall|g: Field|
            (agrees(x, s, g) || attrs_write(p, attrs, g)) ==> #[trigger] agrees(
                apply_attrs(x, p, written_attrs(s, p, attrs)),
                s,
                g,
            ),
    decreases attrs.len(),
{
    if attrs.len() > 0 {
        let init = attrs.drop_last();
        lemma_written_attrs_agree(x, s, p, init);
        let w0 = written_attrs(s, p, init);
        let y = apply_attrs(x, p, w0);
        assert forall|g: Field| attrs_write(p, attrs, g) && !attrs_write(p, init, g) implies (attrs.last() matches Some(kv)
            && attr_field(p, kv.0) == Some(g)) by {
            let i = choose|i: int| 0 <= i < attrs.len() && ((#[trigger] attrs[i]) matches Some(kv) && attr_field(p, kv.0) == Some(g));
            if i < init.len() {
                assert(init[i] == attrs[i]);
            }
        }
        match attrs.last() {
            Some(kv) => {
                let val = xml_escape(
                    match attr_field(p, kv.0) {
                        Some(f) => field_text(s, f),
                        None => kv.1,
                    },
                );
                let w = w0.push(Some((kv.0, val)));
                assert(written_attrs(s, p, attrs) == w);
                assert(w.drop_last() == w0);
                assert(apply_attrs(x, p, w) == match attr_field(p, kv.0) {
                    Some(f) => read_field(y, f, val),
                    None => y,
                });
                assert forall|g: Field| (agrees(x, s, g) || attrs_write(p, attrs, g)) implies #[trigger] agrees(
                    apply_attrs(x, p, written_attrs(s, p, attrs)),
                    s,
                    g,
                ) by {
                    match attr_field(p, kv.0) {
                        Some(f) => {
                            assert(val == field_text(s, f));
                            if f == g {
                                lemma_agrees_set(y, s, f);
                            } else {
                                lemma_agrees_keep(y, s, f, g);
                            }
                        },
                        None => {},
                    }
                }
            },
            None => {
                assert(written_attrs(s, p, attrs) == w0);
            },
        }
    }
}

/// What holds after writing the first `k` events and reading back what was written: the same
/// open elements; no open element but the innermost one is a setting's element; inside a
/// setting's element its text has been read and the element closes next (after at most the
/// text that the writer replaced); every setting written so far reads back as written, but the
/// one whose element is still open.
#[verifier::opaque]
spec fn read_back_inv(s: SettingsView, evs: Seq<XmlEventView>, k: int) -> bool {
    let w = write_all(s, evs.take(k));
    let r = read_all(written_views(s, evs.take(k)));
    &&& r.stack == w.stack
    &&& forall|j: int| 0 <= j && j + 1 < w.stack.len() ==> #[trigger] text_field(path_of(w.stack.take(j + 1))) is None
    &&& (w.stack.len() > 0 && text_field(path_of(w.stack)) is Some) ==> (r.text == field_text(
        s,
        text_field(path_of(w.stack))->0,
    ) && k < evs.len() && (evs[k].kind == XmlKind::End || (evs[k].kind == XmlKind::Text
        && w.skip && k + 1 < evs.len() && evs[k + 1].kind == XmlKind::End)))
    &&& forall|g: Field|
        #[trigger] field_written(s, evs.take(k), g) ==> agrees(r.settings, s, g) || (w.stack.len() > 0
            && text_field(path_of(w.stack)) == Some(g))
}

#[verifier::spinoff_prover]
#[verifier::rlimit(100)]
proof fn lemma_read_back_start(s: SettingsView, evs: Seq<XmlEventView>, k: int)
    requires
        0 < k <= evs.len(),
        text_elements_simple(s, evs),
        forall|g: Field| xml_escape(#[trigger] field_text(s, g)) == field_text(s, g),
        read_back_inv(s, evs, k - 1),
        evs[k - 1].kind == XmlKind::Start,
    ensures
        read_back_inv(s, evs, k),
{
    reveal(read_back_inv);
    let e = evs.take(k);
    let ep = evs.take(k - 1);
    let ev = evs[k - 1];
    assert(e.drop_last() == ep);
    assert(e.last() == ev);
    let wp = write_all(s, ep);
    let w = write_all(s, e);
    assert(w == write_step(s, wp, ev));
    let vp = written_views(s, ep);
    let rp = read_all(vp);
    let vs = views_step(s, wp, ev);
    assert(written_views(s, e) == vp + vs);
    assert forall|g: Field| #[trigger] field_written(s, e, g) == (field_written(s, ep, g) || writes_field(wp.stack, ev, g)) by {}
    let top_tf = wp.stack.len() > 0 && text_field(path_of(wp.stack)) is Some;
    assert(!top_tf);
    let stack = wp.stack.push(ev.name);
    let p = path_of(stack);
    let tag = written_tag(s, XmlKind::Start, p, ev);
    lemma_read_all_push(vp, tag);
    let r1 = read_all(vp.push(tag));
    lemma_written_attrs_agree(rp.settings, s, p, ev.attrs);
    assert(r1.settings == apply_attrs(rp.settings, p, written_attrs(s, p, ev.attrs)));
    assert forall|j: int| 0 <= j && j + 1 < stack.len() implies #[trigger] text_field(path_of(stack.take(j + 1))) is None by {
        if j + 1 < wp.stack.len() {
            assert(stack.take(j + 1) == wp.stack.take(j + 1));
        } else {
            assert(stack.take(j + 1) == wp.stack);
            if wp.stack.len() == 0 {
                assert(path_of(wp.stack) == Seq::<char>::empty());
            }
        }
    }
    match text_field(p) {
        Some(f) => {
            let tv = written_text(field_text(s, f));
            assert(vp + vs == vp.push(tag).push(tv));
            lemma_read_all_push(vp.push(tag), tv);
            lemma_text_field_text(s, p, f);
            assert(text_field(path_of(write_all(s, evs.take(k - 1)).stack.push(evs[k - 1].name))) is Some);
        },
        None => {
            assert(vp + vs == vp.push(tag));
        },
    }
}

#[verifier::spinoff_prover]
#[verifier::rlimit(100)]
proof fn lemma_read_back_empty(s: SettingsView, evs: Seq<XmlEventView>, k: int)
    requires
        0 < k <= evs.len(),
        forall|g: Field| xml_escape(#[trigger] field_text(s, g)) == field_text(s, g),
        read_back_inv(s, evs, k - 1),
        evs[k - 1].kind == XmlKind::Empty,
    ensures
        read_back_inv(s, evs, k),
{
    reveal(read_back_inv);
    let e = evs.take(k);
    let ep = evs.take(k - 1);
    let ev = evs[k - 1];
    assert(e.drop_last() == ep);
    assert(e.last() == ev);
    let wp = write_all(s, ep);
    let w = write_all(s, e);
    assert(w == write_step(s, wp, ev));
    let vp = written_views(s, ep);
    let rp = read_all(vp);
    let vs = views_step(s, wp, ev);
    assert(written_views(s, e) == vp + vs);
    assert forall|g: Field| #[trigger] field_written(s, e, g) == (field_written(s, ep, g) || writes_field(wp.stack, ev, g)) by {}
    let top_tf = wp.stack.len() > 0 && text_field(path_of(wp.stack)) is Some;
    assert(!top_tf);
    let p = path_of(wp.stack.push(ev.name));
    let tag = written_tag(s, XmlKind::Empty, p, ev);
    assert(vp + vs == vp.push(tag));
    lemma_read_all_push(vp, tag);
    lemma_written_attrs_agree(rp.settings, s, p, ev.attrs);
}

#[verifier::spinoff_prover]
#[verifier::rlimit(100)]
proof fn lemma_read_back_text(s: SettingsView, evs: Seq<XmlEventView>, k: int)
    requires
        0 < k <= evs.len(),
        read_back_inv(s, evs, k - 1),
        evs[k - 1].kind == XmlKind::Text,
    ensures
        read_back_inv(s, evs, k),
{
    reveal(read_back_inv);
    let e = evs.take(k);
    let ep = evs.take(k - 1);
    let ev = evs[k - 1];
    assert(e.drop_last() == ep);
    assert(e.last() == ev);
    let wp = write_all(s, ep);
    let w = write_all(s, e);
    assert(w == write_step(s, wp, ev));
    let vp = written_views(s, ep);
    let rp = read_all(vp);
    let vs = views_step(s, wp, ev);
    assert(written_views(s, e) == vp + vs);
    assert forall|g: Field| #[trigger] field_written(s, e, g) == (field_written(s, ep, g) || writes_field(wp.stack, ev, g)) by {}
    let top_tf = wp.stack.len() > 0 && text_field(path_of(wp.stack)) is Some;
    if wp.skip {
        assert(vp + vs == vp);
    } else {
        assert(!top_tf);
        assert(vp + vs == vp.push(ev));
        lemma_read_all_push(vp, ev);
    }
}

/// No setting is kept as the text of the document's root level.
proof fn lemma_root_has_no_text_field()
    ensures
        text_field(path_of(Seq::<Seq<char>>::empty())) is None,
{
    let root = path_of(Seq::<Seq<char>>::empty());
    assert(root.len() == 0);
    reveal_strlit("Settings/VideoConfig/screenwidth");
    assert("Settings/VideoConfig/screenwidth"@.len() > 0);
    reveal_strlit("Settings/VideoConfig/screenheight");
    assert("Settings/VideoConfig/screenheight"@.len() > 0);
    reveal_strlit("Settings/VideoConfig/screenwindowed");
    assert("Settings/VideoConfig/screenwindowed"@.len() > 0);
    reveal_strlit("Settings/VideoConfig/brightness");
    assert("Settings/VideoConfig/brightness"@.len() > 0);
    reveal_strlit("Settings/VideoConfig/vsyncon");
    assert("Settings/VideoConfig/vsyncon"@.len() > 0);
    reveal_strlit("Settings/VideoConfig/performancelevel");
    assert("Settings/VideoConfig/performancelevel"@.len() > 0);
    reveal_strlit("Settings/VideoConfig/basetexturefilter");
    assert("Settings/VideoConfig/basetexturefilter"@.len() > 0);
    reveal_strlit("Settings/VideoConfig/basetexturemaxani");
    assert("Settings/VideoConfig/basetexturemaxani"@.len() > 0);
    reveal_strlit("Settings/VideoConfig/roadtexturefilter");
    assert("Settings/VideoConfig/roadtexturefilter"@.len() > 0);
    reveal_strlit("Settings/VideoConfig/roadtexturemaxani");
    assert("Settings/VideoConfig/roadtexturemaxani"@.len() > 0);
    reveal_strlit("Settings/VideoConfig/carenvironmentmapenable");
    assert("Settings/VideoConfig/carenvironmentmapenable"@.len() > 0);
    reveal_strlit("Settings/VideoConfig/globaldetaillevel");
    assert("Settings/VideoConfig/globaldetaillevel"@.len() > 0);
    reveal_strlit("Settings/VideoConfig/roadreflectionenable");
    assert("Settings/VideoConfig/roadreflectionenable"@.len() > 0);
    reveal_strlit("Settings/VideoConfig/shaderdetail");
    assert("Settings/VideoConfig/shaderdetail"@.len() > 0);
    reveal_strlit("Settings/VideoConfig/shadowdetail");
    assert("Settings/VideoConfig/shadowdetail"@.len() > 0);
    reveal_strlit("Settings/VideoConfig/fsaalevel");
    assert("Settings/VideoConfig/fsaalevel"@.len() > 0);
    reveal_strlit("Settings/VideoConfig/motionblurenable");
    assert("Settings/VideoConfig/motionblurenable"@.len() > 0);
    reveal_strlit("Settings/VideoConfig/particlesystemenable");
    assert("Settings/VideoConfig/particlesystemenable"@.len() > 0);
    reveal_strlit("Settings/VideoConfig/postprocessingenable");
    assert("Settings/VideoConfig/postprocessingenable"@.len() > 0);
    reveal_strlit("Settings/VideoConfig/rainenable");
    assert("Settings/VideoConfig/rainenable"@.len() > 0);
    reveal_strlit("Settings/VideoConfig/watersimenable");
    assert("Settings/VideoConfig/watersimenable"@.len() > 0);
    reveal_strlit("Settings/VideoConfig/visualtreatment");
    assert("Settings/VideoConfig/visualtreatment"@.len() > 0);
    reveal_strlit("Settings/VideoConfig/maxskidmarks");
    assert("Settings/VideoConfig/maxskidmarks"@.len() > 0);
    reveal_strlit("Settings/VideoConfig/audiomode");
    assert("Settings/VideoConfig/audiomode"@.len() > 0);
    reveal_strlit("Settings/VideoConfig/audioquality");
    assert("Settings/VideoConfig/audioquality"@.len() > 0);
    reveal_strlit("Settings/Physics/CameraPOV");
    assert("Settings/Physics/CameraPOV"@.len() > 0);
    reveal_strlit("Settings/Physics/TransmissionType");
    assert("Settings/Physics/TransmissionType"@.len() > 0);
}

#[verifier::spinoff_prover]
#[verifier::rlimit(100)]
proof fn lemma_read_back_end(s: SettingsView, evs: Seq<XmlEventView>, k: int)
    requires
        0 < k <= evs.len(),
        read_back_inv(s, evs, k - 1),
        evs[k - 1].kind == XmlKind::End,
    ensures
        read_back_inv(s, evs, k),
{
    reveal(read_back_inv);
    let e = evs.take(k);
    let ep = evs.take(k - 1);
    let ev = evs[k - 1];
    assert(e.drop_last() == ep);
    assert(e.last() == ev);
    let wp = write_all(s, ep);
    let w = write_all(s, e);
    assert(w == write_step(s, wp, ev));
    let vp = written_views(s, ep);
    let rp = read_all(vp);
    let vs = views_step(s, wp, ev);
    assert(written_views(s, e) == vp + vs);
    assert forall|g: Field| #[trigger] field_written(s, e, g) == (field_written(s, ep, g) || writes_field(wp.stack, ev, g)) by {}
    let top_tf = wp.stack.len() > 0 && text_field(path_of(wp.stack)) is Some;
    assert(vp + vs == vp.push(ev));
    lemma_read_all_push(vp, ev);
    let ns = pop_path(wp.stack);
    if wp.stack.len() == 0 {
        lemma_root_has_no_text_field();
        assert(wp.stack == Seq::<Seq<char>>::empty());
    }
    if wp.stack.len() > 0 {
        assert(ns == wp.stack.take(wp.stack.len() - 1));
        assert forall|j: int| 0 <= j && j + 1 < ns.len() implies #[trigger] text_field(path_of(ns.take(j + 1))) is None by {
            assert(ns.take(j + 1) == wp.stack.take(j + 1));
        }
        if ns.len() > 0 {
            assert(text_field(path_of(wp.stack.take((ns.len() - 1) + 1))) is None);
        }
        if top_tf {
            let f = text_field(path_of(wp.stack))->0;
            lemma_text_field_text(s, path_of(wp.stack), f);
            assert forall|g: Field| #[trigger] field_written(s, e, g) implies agrees(read_field(rp.settings, f, field_text(s, f)), s, g) by {
                if g == f {
                    lemma_agrees_set(rp.settings, s, f);
                } else {
                    lemma_agrees_keep(rp.settings, s, f, g);
                }
            }
        }
    }
}

#[verifier::spinoff_prover]
#[verifier::rlimit(100)]
proof fn lemma_read_back_other(s: SettingsView, evs: Seq<XmlEventView>, k: int)
    requires
        0 < k <= evs.len(),
        forall|i: int| 0 <= i < evs.len() ==> (#[trigger] evs[i]).kind != XmlKind::Eof,
        read_back_inv(s, evs, k - 1),
        evs[k - 1].kind != XmlKind::Start,
        evs[k - 1].kind != XmlKind::Empty,
        evs[k - 1].kind != XmlKind::Text,
        evs[k - 1].kind != XmlKind::End,
    ensures
        read_back_inv(s, evs, k),
{
    reveal(read_back_inv);
    let e = evs.take(k);
    let ep = evs.take(k - 1);
    let ev = evs[k - 1];
    assert(e.drop_last() == ep);
    assert(e.last() == ev);
    let wp = write_all(s, ep);
    let w = write_all(s, e);
    assert(w == write_step(s, wp, ev));
    let vp = written_views(s, ep);
    let rp = read_all(vp);
    let vs = views_step(s, wp, ev);
    assert(written_views(s, e) == vp + vs);
    assert forall|g: Field| #[trigger] field_written(s, e, g) == (field_written(s, ep, g) || writes_field(wp.stack, ev, g)) by {}
    let top_tf = wp.stack.len() > 0 && text_field(path_of(wp.stack)) is Some;
    assert(!top_tf);
    assert(vp + vs == vp.push(ev));
    lemma_read_all_push(vp, ev);
}

#[verifier::spinoff_prover]
#[verifier::rlimit(100)]
proof fn lemma_read_back_start_state(s: SettingsView, evs: Seq<XmlEventView>)
    ensures
        read_back_inv(s, evs, 0),
{
    reveal(read_back_inv);
    assert(evs.take(0) == Seq::<XmlEventView>::empty());
    assert(written_views(s, evs.take(0)) == Seq::<XmlEventView>::empty());
}

#[verifier::spinoff_prover]
#[verifier::rlimit(100)]
proof fn lemma_settings_read_back(s: SettingsView, evs: Seq<XmlEventView>, k: int)
    requires
        0 <= k <= evs.len(),
        forall|i: int| 0 <= i < evs.len() ==> (#[trigger] evs[i]).kind != XmlKind::Eof,
        text_elements_simple(s, evs),
        forall|g: Field| xml_escape(#[trigger] field_text(s, g)) == field_text(s, g),
    ensures
        read_back_inv(s, evs, k),
    decreases k,
{
    if k == 0 {
        lemma_read_back_start_state(s, evs);
    } else {
        lemma_settings_read_back(s, evs, k - 1);
        match evs[k - 1].kind {
            XmlKind::Start => lemma_read_back_start(s, evs, k),
            XmlKind::Empty => lemma_read_back_empty(s, evs, k),
            XmlKind::Text => lemma_read_back_text(s, evs, k),
            XmlKind::End => lemma_read_back_end(s, evs, k),
            _ => lemma_read_back_other(s, evs, k),
        }
    }
}

/// The events that read back are, kind and raw content, the events the writer wrote.
proof fn lemma_views_outs(s: SettingsView, evs: Seq<XmlEventView>)
    ensures
        views_outs(written_views(s, evs)) == write_all(s, evs).outs,
    decreases evs.len(),
{
    if evs.len() > 0 {
        let ep = evs.drop_last();
        let ev = evs.last();
        lemma_views_outs(s, ep);
        let wp = write_all(s, ep);
        let vp = written_views(s, ep);
        let vs = views_step(s, wp, ev);
        let o = views_outs(vp + vs);
        assert(o =~= views_outs(vp) + views_outs(vs));
        let w = write_step(s, wp, ev);
        match ev.kind {
            XmlKind::Start => {
                let p = path_of(wp.stack.push(ev.name));
                match text_field(p) {
                    Some(f) => {
                        assert(views_outs(vs) =~= seq![
                            (XmlKind::Start, ev.name + attrs_text(s, p, ev.attrs)),
                            (XmlKind::Text, xml_escape(field_text(s, f))),
                        ]);
                        assert(w.outs =~= wp.outs + views_outs(vs));
                    },
                    None => {
                        assert(views_outs(vs) =~= seq![(XmlKind::Start, ev.name + attrs_text(s, p, ev.attrs))]);
                        assert(w.outs =~= wp.outs + views_outs(vs));
                    },
                }
            },
            XmlKind::Text => {
                if wp.skip {
                    assert(views_outs(vs) =~= Seq::<(XmlKind, Seq<char>)>::empty());
                } else {
                    assert(views_outs(vs) =~= seq![(XmlKind::Text, ev.raw)]);
                }
                assert(w.outs =~= wp.outs + views_outs(vs));
            },
            XmlKind::Eof => {
                assert(views_outs(vs) =~= Seq::<(XmlKind, Seq<char>)>::empty());
                assert(w.outs =~= wp.outs + views_outs(vs));
            },
            XmlKind::Empty => {
                let p = path_of(wp.stack.push(ev.name));
                assert(views_outs(vs) =~= seq![(XmlKind::Empty, ev.name + attrs_text(s, p, ev.attrs))]);
                assert(w.outs =~= wp.outs + views_outs(vs));
            },
            _ => {
                assert(views_outs(vs) =~= seq![(ev.kind, ev.raw)]);
                assert(w.outs =~= wp.outs + views_outs(vs));
            },
        }
    }
}

/// Reading back the settings written: `set_game_settings` writes, for a document with events
/// `evs`, the events `write_all(s, evs).outs`, and `written_views(s, evs)` are those same events
/// (kind and raw text) as quick_xml reads them back when it reads what its writer wrote. Where
/// every setting appears in the document (as the text of its element or as an attribute), each
/// element whose text is a setting holds that text alone, and no setting's text holds a
/// character that escaping changes (true of every number and flag; the volumes must hold no
/// `<`, `>`, `&`, `'` or `"`), `get_game_settings` reads from those events exactly the settings
/// written.
#[verifier::spinoff_prover]
#[verifier::rlimit(100)]
pub proof fn law_settings_roundtrip(s: SettingsView, evs: Seq<XmlEventView>)
    requires
        forall|i: int| 0 <= i < evs.len() ==> (#[trigger] evs[i]).kind != XmlKind::Eof,
        text_elements_simple(s, evs),
        forall|g: Field| #[trigger] field_written(s, evs, g),
        forall|g: Field| xml_escape(#[trigger] field_text(s, g)) == field_text(s, g),
    ensures
        views_outs(written_views(s, evs)) == write_all(s, evs).outs,
        read_all(written_views(s, evs)).settings == s,
{
    lemma_views_outs(s, evs);
    lemma_settings_read_back(s, evs, evs.len() as int);
    reveal(read_back_inv);
    assert(evs.take(evs.len() as int) == evs);
    let r = read_all(written_views(s, evs));
    assert forall|g: Field| agrees(r.settings, s, g) by {
        assert(field_written(s, evs.take(evs.len() as int), g));
    }
    lemma_agrees_all(r.settings, s);
}

} // verus!
